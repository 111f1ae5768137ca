//! Wire framing and field codec for a length-prefixed, NUL-delimited
//! text protocol.

pub mod framing;
pub mod message_ids;
pub mod fields;
pub mod message;
