//! Driver for the IT8951 e-paper display controller.
//!
//! The controller speaks a preamble-based protocol over a byte bus gated by a
//! hardware-ready line. This crate frames every exchange exactly as the chip
//! requires, sequences the power-up protocol, and packs pixel data for
//! area-bounded display operations. Hardware access goes through the small
//! capability traits in [`hal`], so the protocol layers are independent of any
//! particular bus or GPIO binding.

pub mod device;
pub mod display;
pub mod error;
pub mod graphics;
pub mod hal;
pub mod protocol;
pub mod types;

pub use device::IT8951Builder;
pub use device::IT8951;
pub use error::Error;
pub use graphics::Framebuffer;
pub use hal::mock::MockInputPin;
pub use hal::mock::MockOutputPin;
pub use hal::mock::MockSpi;
pub use hal::BitOrder;
pub use hal::InputPin;
pub use hal::OutputPin;
pub use hal::PinState;
pub use hal::SpiInterface;
pub use hal::SpiMode;
pub use hal::SpiTransfer;
pub use protocol::Command;
pub use protocol::Register;
pub use protocol::Transport;
pub use protocol::UserCommand;
pub use types::Area;
pub use types::DeviceInfo;
pub use types::DisplayMode;
pub use types::Endian;
pub use types::LoadImageInfo;
pub use types::PixelFormat;
pub use types::Rotation;
