//! Download of stored blood-glucose measurements from a USB meter that speaks
//! a vendor subset of the IEEE 11073 personal health device protocol.
//!
//! The crate holds the logic of the download: the device matcher (`device`),
//! the locator of objects and attributes in a configuration report
//! (`locator`), the parser of segment data (`segment`), the messages of the
//! host (`messages`) and the session state machine (`session`), over the
//! big-endian primitives and constants of `protocol`. The caller owns the USB
//! transport and feeds the state machine with the outcome of each transfer.
//!
//! Beside it stand the whitelist of devices and the reader of its text
//! (`config`), the failures (`error`), glucose units and clinical ranges
//! (`units`, `stats`), and the rendering of numbers as text (`text`).

pub mod calendar;
pub mod config;
pub mod device;
pub mod error;
pub mod locator;
pub mod messages;
pub mod protocol;
pub mod segment;
pub mod session;
pub mod stats;
pub mod text;
pub mod units;
pub mod usb;
