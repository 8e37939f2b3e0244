//! Driver for a small fan/LED add-on board: a bit-banged two-wire serial
//! protocol for one addressable RGB LED, a fan switch pin, and a push-button
//! input pin.

pub mod device;
pub mod encoding;
mod hw;

pub use device::AcquisitionError;
pub use device::Fanshim;
pub use device::PinLevel;
pub use encoding::WireEvent;
pub use encoding::byte_bits;
pub use encoding::clamped_brightness;
pub use encoding::command_byte;
pub use encoding::frame;
