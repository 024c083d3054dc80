//! Subscription management and event fan-out for product notifications.
//!
//! Subscribers register a callback URL under a product type. When a product
//! event occurs, the service plans one delivery per subscriber of that
//! product type; each delivery is one callback request, attempted once.
//! The library decides what is registered, what is sent and to whom, and
//! how an attempt is recorded. Sending is left to the caller.

pub mod error;
pub mod json;
pub mod model;
pub mod repository;
pub mod service;
pub mod text;
