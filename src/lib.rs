//! Driver for the MCP3008 and MCP3004 successive-approximation ADCs on an SPI bus.
//!
//! A read selects the chip, exchanges a three-byte frame that names the channel,
//! deselects the chip and decodes the ten-bit result from the reply. The
//! sequence is a [`Conversion`]: it names each operation in turn, and the owner
//! of the bus and the chip select line performs it and reports the outcome.

pub mod channel;
pub mod conversion;
pub mod driver;
pub mod protocol;

pub use channel::{Channels4, Channels8};
pub use conversion::{Action, Conversion, Error, Event};
pub use driver::{Mcp3004, Mcp3008};
