//! Command driver for SST25-series serial NOR flash chips.
//!
//! [`device::Flash`] owns a serial bus and the chip's EN, WP and HOLD lines, through the
//! [`device::Bus`] and [`device::Pin`] traits, and turns each memory operation into the byte
//! sequences the chip expects. Every operation is verified against a protocol stated in
//! [`protocol`]: the handle keeps a ghost log of each call it makes on its bus and lines, and
//! each operation's contract says that the steps it added read, from where they began, as one
//! run of that operation's protocol, ending with the result it returned.
//!
//! [`status`] maps the chip's status register to a record and back; [`laws`] states properties
//! that span several operations or steps; [`example`] holds stand-in peripherals.

pub mod device;
pub mod example;
pub mod laws;
pub mod protocol;
pub mod status;
