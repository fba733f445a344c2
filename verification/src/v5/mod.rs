//! Protocol version 5.

pub mod codec;
pub mod error;
pub mod publish;

pub use self::error::DecodeError;
pub use self::publish::{Publish, PublishAck};
