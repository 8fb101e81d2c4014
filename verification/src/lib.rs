//! Command encoding and operand validation for a serial character-LCD
//! controller.
//!
//! Every operation of the driver checks its operands, builds the exact bytes
//! of its escape sequence and decides whether they may go to the transport.
//! The write itself is left to the caller, who owns the transport.

pub mod dispatch;
pub mod driver;
pub mod error;
pub mod laws;
pub mod opcode;
pub mod validate;
pub mod wire;

pub use dispatch::Dispatch;
pub use dispatch::Report;
pub use driver::LCDS;
pub use error::ErrorCode;
pub use error::TransportError;
pub use opcode::Opcode;
pub use validate::Domain;
