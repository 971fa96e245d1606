//! Command handling for a character LCD panel that is driven over a
//! request-response protocol.
//!
//! The crate decides; it never touches the bus. A caller decodes a remote
//! call, hands the result to [`dispatch`], and receives the display
//! instructions to perform under exclusive access to the panel together
//! with the reply to send: success, or a structured error.

pub mod dispatch;
pub mod error;
pub mod request;

pub use dispatch::{Decision, DisplayMode, Instruction};
pub use error::{DecodeFailure, Error, ErrorCode, WriteError};
pub use request::{Msg, ValidationFailure};
