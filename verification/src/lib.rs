//! Engine of a serial-port terminal: text decoding, line framing, a bounded
//! transcript store with rendering, and the decision logic of the port actor.

pub mod actor;
pub mod clock;
pub mod decode;
pub mod display;
pub mod encoding;
pub mod framer;
pub mod line_ending;
pub mod logbuf;
pub mod payload;
pub mod render;
pub mod serial_service;
pub mod text;

pub use encoding::TextEncoding;
pub use line_ending::LineEnding;
pub use logbuf::{Direction, LogEntry, LogStore};
pub use serial_service::{PinStates, PortInfo, SerialConfig, SerialEvent};
