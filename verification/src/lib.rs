//! A counter-based, fixed-window request rate limiter.
//!
//! The crate provides the counting stores (an in-process map with lazy
//! fixed-window expiry, and the computational half of an externally
//! coordinated store) together with the per-request decision pipeline that
//! consults a store, compares the observed count against a threshold, and
//! settles on forwarding or rejecting the request.
//!
//! Instants are carried as milliseconds since the Unix epoch; callers that
//! need the current instant obtain it from [`clock::now_millis`].

pub mod clock;
pub mod controller;
pub mod decimal;
pub mod error;
pub mod middleware;
pub mod store;
