//! Length-prefixed framing and the success/failure envelope that a client and
//! a server exchange over one bidirectional byte stream.

pub mod error;
pub mod stream;
pub mod tunnel;
pub mod envelope;
pub mod dispatch;
