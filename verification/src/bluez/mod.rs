pub mod client;
pub mod dbus;

pub use client::{
    BluezDevice, BluezPowerState, BluezTestClient, BusFault, DeviceView, Error, ErrorView,
    TestClientView,
};
