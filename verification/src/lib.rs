//! A retry-after decision engine for an HTTP client pipeline.
//!
//! Given a response that signals throttling or a temporary redirect, this
//! library decides whether, how long, and how many times the original request
//! should be resent, honoring a server-supplied `Retry-After` delay hint while
//! enforcing client-side safety bounds: a per-attempt delay cap and a
//! cumulative deadline.
//!
//! The library is pure: the current time and each observed response enter as
//! plain values, and every decision is a verified function of them. The
//! surrounding client performs the actual sending and sleeping.

pub mod controller;
pub mod parse;
pub mod policy;
