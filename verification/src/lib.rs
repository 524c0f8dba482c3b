//! Raw Ethernet frame injection and capture over two OS capture backends:
//! a BPF-style packet filter device and a vendor packet-capture driver.
//!
//! The verified core covers channel configuration, the setup decision
//! sequence for each backend, batch frame transmission into an owned write
//! buffer, and decoding of back-to-back capture records out of an owned read
//! buffer, including the loopback header-stripping and header-synthesis
//! quirks. The OS calls themselves (open, device control, read, write,
//! readiness waits) are driven by an unverified shell that follows the
//! actions these modules compute.

pub mod config;
pub mod laws;
pub mod records;
pub mod bpf;
pub mod recv;
pub mod send;
pub mod winpcap;

pub use config::ChannelConfig;
pub use recv::Receiver;
pub use send::Sender;
