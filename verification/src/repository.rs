//! Where the subscriptions are kept.

pub mod subscriber;
