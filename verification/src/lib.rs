//! Device-transport core of a screen mirroring server.
//!
//! The server captures the host display, compresses each frame and streams it to a
//! paired Android device, over a USB link negotiated with the Android Open Accessory
//! (AOA) protocol or over a TCP socket. This crate holds the decisions of that
//! server as verified state machines on plain values: which USB devices are
//! candidates, how the AOA handshake proceeds, which endpoint carries the frames,
//! when a streaming session gives up, and how a device is released. The program
//! around it performs the transfers and feeds their results back in.
#![allow(non_snake_case)]
#![allow(non_camel_case_types)]

pub mod args;
pub mod capture;
pub mod error;
pub mod handshake;
pub mod limits;
pub mod session;
pub mod stream;
pub mod tcp;
pub mod teardown;
pub mod text;
pub mod transport;
pub mod usb;
