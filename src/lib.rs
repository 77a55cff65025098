//! A small client for a push-notification service: the message text is
//! resolved from arguments or an input stream, a notification request is
//! assembled with optional fields, rendered with its secret masked, and
//! posted as a form.
pub mod client;
pub mod notification;
pub mod payload;
pub mod priority;
pub mod redact;

pub use client::{PushoverClient, SendError};
pub use notification::Notification;
pub use priority::Priority;
