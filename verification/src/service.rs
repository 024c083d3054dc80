//! The operations that callers invoke.

pub mod notification;
