//! Driver for an 8-channel, 10-bit analog-to-digital converter reached over a
//! Linux spidev bus.

pub mod bus;
pub mod driver;
pub mod error;
pub mod protocol;

pub use driver::Mcp3008;
pub use error::Mcp3008Error;
