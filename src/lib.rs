//! A leveled console logger: an ordered severity scale and a gate that
//! decides, for each message, whether it is shown and as which line.
mod log;

pub use log::{Log, LogLevel};
