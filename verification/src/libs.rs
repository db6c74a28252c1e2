//! The protocol building blocks, leaves first.

pub mod error;
pub mod wire;
pub mod cbc;
pub mod hmacsha1;
pub mod padding;
pub mod esp;
pub mod checksum;
pub mod gpst;
pub mod tunnel;
pub mod tcp;
pub mod udp;
