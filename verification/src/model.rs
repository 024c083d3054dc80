//! The values that the notification service works on.

pub mod delivery;
pub mod notification;
pub mod product;
pub mod subscriber;
