//! A minimal alkane responder with two operations, `Initialize` (opcode 0)
//! and `Mint` (opcode 77), that both answer with an empty response, and a
//! fallback that rejects every other opcode.

pub mod alkane;
pub mod error;
pub mod message;
pub mod response;
