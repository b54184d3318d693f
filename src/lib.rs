//! A small image service: route matching, grayscale conversion of uploaded
//! images and the state-store forwarding step, as verified decision logic.
//! The listener and the outbound HTTP call live around this library.

pub mod codec;
pub mod container;
pub mod response;
pub mod routes;
pub mod service;
