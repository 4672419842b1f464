//! The decisions of a command-line tool for the Bluetooth adapter and its
//! devices. The commands neither talk to the Bluetooth service nor touch a
//! stream: each is a value that names what it needs next and takes what
//! came of it, so that every step of a command is a function with a
//! contract.

pub mod api;
pub mod bluez;
pub mod connect;
pub mod disconnect;
pub mod format;
pub mod list_devices;
pub mod scan;
pub mod session;
pub mod status;
pub mod text;
pub mod toggle;

pub use bluez::{BluezDevice, BluezPowerState, BluezTestClient, BusFault, Error as BluezError};
pub use connect::{connect, ConnectArgs, Error as ConnectError};
pub use disconnect::{disconnect, Error as DisconnectError};
pub use list_devices::{
    list_devices, DeviceStatus, Error as ListDevicesError, ListDevicesArgs, ListDevicesColumn,
};
pub use scan::{scan, Error as ScanError, ScanArgs, ScanColumn};
pub use session::{Call, IoFault, Reply, Request};
pub use status::{status, Error as StatusError};
pub use toggle::{toggle, Error as ToggleError};
