//! Application-facing view of one inbound MQTT v5 PUBLISH packet, and the
//! builder of the acknowledgment that answers it.

pub mod buffer;
pub mod router;
pub mod v5;
