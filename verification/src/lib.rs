//! Verified model of the Nintendo Switch controller HID protocol (Joy-Con and
//! Pro Controller), of the DualShock 4 input reports, and of the decisions of
//! the drivers built on them.

pub mod bytes;
pub mod common;
pub mod mcu;
pub mod light;
pub mod imu;
pub mod input;
pub mod spi;
pub mod accessory;
pub mod output;
pub mod hid;
pub mod wait;
pub mod gamepad;
pub mod mapping;
pub mod config;
pub mod dualshock;
pub mod joytk;
pub mod engine;
pub mod calibration;
