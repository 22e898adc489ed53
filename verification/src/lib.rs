//! Driver for the SSD1306 monochrome OLED controller over a two-wire bus.
//!
//! The library frames logical commands and pixel data into the controller's
//! byte-level bus protocol, enforces the transaction-size ceiling of the
//! transport buffer, and drives the page/column addressing state by explicit
//! command sequences. Bus access goes through the [`Transport`] trait, whose
//! ghost history of write calls — bytes and outcomes — is what every driver
//! contract is stated over.

pub mod commands;
pub mod ssd1306;
pub mod transport;

pub use commands::MemoryAddressingMode;
pub use ssd1306::{Address, SSD1306, SSD1306Error};
pub use transport::{MockTransport, Transport};
