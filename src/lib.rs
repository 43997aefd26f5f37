//! Driver for a sixteen-channel analogue multiplexer of the CD74HC4067 kind:
//! four select lines address one channel, which the chip connects to a shared
//! input/output line, and an active-low enable line switches the chip on.

pub mod multiplexer;
pub mod pin;
pub mod u4;

pub use multiplexer::{MultiplexSelectionError, Multiplexer};
pub use pin::{AnalogChannel, Drive, InputPin, OutputPin};
pub use u4::U4;
