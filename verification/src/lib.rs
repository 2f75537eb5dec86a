//! Control-plane client for the kmsgpipe message pipe device.
//!
//! The library decides which control request a command issues against the
//! device and how the device's reply is reported. It performs no I/O itself:
//! the program around it opens the device file, carries each request to the
//! driver and hands the reply back.

pub mod cli;
pub mod dispatch;
pub mod ioctl;
pub mod model;
