//! The controller's wire protocol: opcodes, registers, frame layouts, and the
//! transport that produces them on the bus.

pub mod commands;
pub mod registers;
pub mod transport;
pub mod wire;

pub use commands::Command;
pub use commands::UserCommand;
pub use registers::Register;
pub use transport::Transport;
