//! Decoding of Improv Wi-Fi provisioning command frames.
//!
//! A frame's first byte names the command; the Wi-Fi settings command
//! carries two length-prefixed UTF-8 fields, the network name and its
//! password. Decoding never reads past the end of the frame.

pub mod command;
pub mod protocol;
pub mod text;

pub use command::ImprovCommand;
pub use protocol::{CommandIdentifier, Error, State};
pub use text::{text_field, TEXT_CAPACITY};
