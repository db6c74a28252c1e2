//! Data plane of a remote-access VPN client: ESP packet sealing and opening,
//! the gateway liveness probe, and the framing used on the relay connection.

pub mod libs;
