//! Application core of a battery-powered environmental sensor node.
//!
//! The node derives a short network address from its device identity
//! ([`addr`]), encodes periodic sensor readings into a fixed 14-byte
//! wire payload ([`payload`]), wraps them into authenticated LoRaWAN
//! uplink frames ([`frame`]), persists its configuration in
//! erase-granular non-volatile memory ([`config`], [`flash`]), accepts
//! provisioning input from an operator console ([`parse`]), and paces
//! one sample-encode-transmit duty cycle per timer period
//! ([`scheduler`]).

pub mod addr;
pub mod config;
pub mod flash;
pub mod frame;
pub mod parse;
pub mod payload;
pub mod scheduler;
