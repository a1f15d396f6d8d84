//! On-demand image resizing: request parsing, resampling choice, the
//! decode/resize/encode pipeline and the request-handling state machine.
//! Storage and HTTP transport are left to the caller.

pub mod decimal;
pub mod request;
pub mod filter;
pub mod pipeline;
pub mod config;
pub mod error;
pub mod handler;
