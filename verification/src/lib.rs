//! Packet-capture filtering and DHCP vocabulary, with verified contracts.

pub mod capture;
pub mod dhcp;
pub mod filter;
pub mod net;
pub mod options;
pub mod time;
