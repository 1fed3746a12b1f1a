//! Hardware capability interfaces: a byte-transfer bus, a readable ready
//! line, and writable control lines.
//!
//! Each trait carries a ghost view of the hardware it stands for — the bytes
//! shifted out so far, the bytes the device will answer with, the level of a
//! pin — and every operation's contract is stated over that view. The mock
//! implementations in [`mock`] realize these contracts exactly; bindings to
//! real hardware implement the same traits outside this crate.

pub mod clock;
pub mod gpio;
pub mod mock;
pub mod spi;

pub use gpio::InputPin;
pub use gpio::OutputPin;
pub use gpio::PinState;
pub use spi::BitOrder;
pub use spi::SpiInterface;
pub use spi::SpiMode;
pub use spi::SpiTransfer;
