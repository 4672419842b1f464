//! What the Bluetooth service tells about the adapter and its devices, and
//! the scripted client that answers without a service.

use crate::session::{Call, CallView, Reply, ReplyView};
use vstd::prelude::*;

verus! {

/// Whether the adapter's radio is switched on.
#[derive(Debug, Clone, Copy, PartialEq, Eq, Structural)]
pub enum BluezPowerState {
    On,
    Off,
}

impl BluezPowerState {
    /// The word that the commands print for the state.
    pub open spec fn word(self) -> Seq<char> {
        match self {
            BluezPowerState::On => "enabled"@,
            BluezPowerState::Off => "disabled"@,
        }
    }

    /// The word that the commands print for the state.
    pub fn to_string(&self) -> (text: String)
        ensures
            text@ == self.word(),
    {
        match self {
            BluezPowerState::On => String::from_str("enabled"),
            BluezPowerState::Off => String::from_str("disabled"),
        }
    }
}

impl From<String> for BluezPowerState {
    /// Reads the adapter's `PowerState` property: `"on"` is on, every other
    /// value is off.
    fn from(value: String) -> (state: Self) {
        if value == String::from_str("on") {
            BluezPowerState::On
        } else {
            BluezPowerState::Off
        }
    }
}

impl vstd::std_specs::convert::FromSpecImpl<String> for BluezPowerState {
    open spec fn obeys_from_spec() -> bool {
        true
    }

    open spec fn from_spec(value: String) -> Self {
        if value@ == "on"@ {
            BluezPowerState::On
        } else {
            BluezPowerState::Off
        }
    }
}

impl core::ops::Not for BluezPowerState {
    type Output = Self;

    /// The opposite state.
    fn not(self) -> (state: Self) {
        match self {
            BluezPowerState::On => BluezPowerState::Off,
            BluezPowerState::Off => BluezPowerState::On,
        }
    }
}

impl vstd::std_specs::ops::NotSpecImpl for BluezPowerState {
    open spec fn obeys_not_spec() -> bool {
        true
    }

    open spec fn not_req(self) -> bool {
        true
    }

    open spec fn not_spec(self) -> Self {
        match self {
            BluezPowerState::On => BluezPowerState::Off,
            BluezPowerState::Off => BluezPowerState::On,
        }
    }
}

impl From<&BluezPowerState> for bool {
    /// The value of the adapter's `Powered` property for the state.
    fn from(value: &BluezPowerState) -> (powered: bool) {
        match value {
            BluezPowerState::On => true,
            BluezPowerState::Off => false,
        }
    }
}

impl vstd::std_specs::convert::FromSpecImpl<&BluezPowerState> for bool {
    open spec fn obeys_from_spec() -> bool {
        true
    }

    open spec fn from_spec(value: &BluezPowerState) -> bool {
        *value == BluezPowerState::On
    }
}

/// A device as the contracts see it.
pub struct DeviceView {
    pub alias: Seq<char>,
    pub address: Seq<char>,
    pub connected: bool,
    pub paired: bool,
    pub trusted: bool,
    pub bonded: bool,
    pub battery: Option<u8>,
    pub rssi: Option<i16>,
}

/// A Bluetooth device that the service knows or has discovered.
#[derive(Debug)]
pub struct BluezDevice {
    alias: String,
    address: String,
    connected: bool,
    paired: bool,
    trusted: bool,
    bonded: bool,
    battery: Option<u8>,
    rssi: Option<i16>,
}

impl View for BluezDevice {
    type V = DeviceView;

    closed spec fn view(&self) -> DeviceView {
        DeviceView {
            alias: self.alias@,
            address: self.address@,
            connected: self.connected,
            paired: self.paired,
            trusted: self.trusted,
            bonded: self.bonded,
            battery: self.battery,
            rssi: self.rssi,
        }
    }
}

impl DeepView for BluezDevice {
    type V = DeviceView;

    open spec fn deep_view(&self) -> DeviceView {
        self@
    }
}

impl Clone for BluezDevice {
    fn clone(&self) -> (copy: Self)
        ensures
            copy@ == self@,
    {
        BluezDevice {
            alias: self.alias.clone(),
            address: self.address.clone(),
            connected: self.connected,
            paired: self.paired,
            trusted: self.trusted,
            bonded: self.bonded,
            battery: self.battery,
            rssi: self.rssi,
        }
    }
}

impl BluezDevice {
    /// A device with the given properties.
    pub fn new(
        alias: String,
        address: String,
        connected: bool,
        paired: bool,
        trusted: bool,
        bonded: bool,
        battery: Option<u8>,
        rssi: Option<i16>,
    ) -> (device: Self)
        ensures
            device@ == (DeviceView {
                alias: alias@,
                address: address@,
                connected,
                paired,
                trusted,
                bonded,
                battery,
                rssi,
            }),
    {
        BluezDevice { alias, address, connected, paired, trusted, bonded, battery, rssi }
    }

    /// Whether the device is connected.
    pub fn connected(&self) -> (flag: bool)
        ensures
            flag == self@.connected,
    {
        self.connected
    }

    /// Whether the device is paired.
    pub fn paired(&self) -> (flag: bool)
        ensures
            flag == self@.paired,
    {
        self.paired
    }

    /// Whether the device is trusted.
    pub fn trusted(&self) -> (flag: bool)
        ensures
            flag == self@.trusted,
    {
        self.trusted
    }

    /// Whether the device is bonded.
    pub fn bonded(&self) -> (flag: bool)
        ensures
            flag == self@.bonded,
    {
        self.bonded
    }

    /// The device's display name.
    pub fn alias(&self) -> (name: &str)
        ensures
            name@ == self@.alias,
    {
        self.alias.as_str()
    }

    /// The device's hardware address.
    pub fn address(&self) -> (address: &str)
        ensures
            address@ == self@.address,
    {
        self.address.as_str()
    }

    /// The battery's charge in percent, which the service reports for
    /// connected devices only.
    pub fn battery(&self) -> (level: &Option<u8>)
        ensures
            *level == self@.battery,
    {
        &self.battery
    }

    /// The strength of the device's signal, which is there only while the
    /// device is heard during discovery.
    pub fn rssi(&self) -> (strength: &Option<i16>)
        ensures
            *strength == self@.rssi,
    {
        &self.rssi
    }
}

/// Asks zbus for the text of its `Error::InterfaceNotFound`, which its
/// `Display` writes as the fixed words stated here.
#[verifier::external_body]
fn interface_not_found_text() -> (text: String)
    ensures
        text@ == "Interface not found"@,
{
    zbus::Error::InterfaceNotFound.to_string()
}

/// Asks zbus for the text of its `Error::InvalidReply`, which its `Display`
/// writes as the fixed words stated here.
#[verifier::external_body]
fn invalid_reply_text() -> (text: String)
    ensures
        text@ == "Invalid D-Bus method reply"@,
{
    zbus::Error::InvalidReply.to_string()
}

/// A failure on the bus, kept as the text that the bus binding gives for it.
/// Its view is that text.
#[derive(Debug)]
pub struct BusFault {
    text: String,
}

impl View for BusFault {
    type V = Seq<char>;

    closed spec fn view(&self) -> Seq<char> {
        self.text@
    }
}

impl DeepView for BusFault {
    type V = Seq<char>;

    open spec fn deep_view(&self) -> Seq<char> {
        self@
    }
}

impl Clone for BusFault {
    fn clone(&self) -> (copy: Self)
        ensures
            copy@ == self@,
    {
        BusFault { text: self.text.clone() }
    }
}

impl BusFault {
    /// The text of the fault for a device that no object on the bus stands
    /// for.
    pub open spec fn not_found() -> Seq<char> {
        "Interface not found"@
    }

    /// The text of the fault for a reply that cannot be used.
    pub open spec fn unusable() -> Seq<char> {
        "Invalid D-Bus method reply"@
    }

    /// A fault with the given text.
    pub fn new(text: String) -> (fault: Self)
        ensures
            fault@ == text@,
    {
        BusFault { text }
    }

    /// The fault for a device that no object on the bus stands for.
    pub fn interface_not_found() -> (fault: Self)
        ensures
            fault@ == Self::not_found(),
    {
        BusFault { text: interface_not_found_text() }
    }

    /// The fault for a reply that cannot be used.
    pub fn invalid_reply() -> (fault: Self)
        ensures
            fault@ == Self::unusable(),
    {
        BusFault { text: invalid_reply_text() }
    }

    /// The fault's text.
    pub fn text(&self) -> (text: &str)
        ensures
            text@ == self@,
    {
        self.text.as_str()
    }
}

/// A client failure as the contracts see it.
pub enum ErrorView {
    Init(Seq<char>),
    Process(Seq<char>, Seq<char>),
}

impl ErrorView {
    /// The line that describes the failure.
    pub open spec fn message(self) -> Seq<char> {
        match self {
            ErrorView::Init(fault) => "unable to establish a Bluez D-Bus connection: "@ + fault,
            ErrorView::Process(pid, fault) => "the Bluez process '"@ + pid + "' failed: "@ + fault,
        }
    }
}

/// How a call on the client fails.
#[derive(Debug)]
pub enum Error {
    /// The connection to the bus could not be set up. Holds the fault.
    Init(BusFault),
    /// A call on the service failed. Holds the name of the call and the
    /// fault.
    Process(String, BusFault),
}

impl View for Error {
    type V = ErrorView;

    open spec fn view(&self) -> ErrorView {
        match self {
            Error::Init(fault) => ErrorView::Init(fault@),
            Error::Process(pid, fault) => ErrorView::Process(pid@, fault@),
        }
    }
}

impl DeepView for Error {
    type V = ErrorView;

    open spec fn deep_view(&self) -> ErrorView {
        self@
    }
}

impl Clone for Error {
    fn clone(&self) -> (copy: Self)
        ensures
            copy@ == self@,
    {
        match self {
            Error::Init(fault) => Error::Init(fault.clone()),
            Error::Process(pid, fault) => Error::Process(pid.clone(), fault.clone()),
        }
    }
}

impl Error {
    /// The failure of the call named `pid` with the given fault.
    pub fn process(pid: &str, fault: BusFault) -> (error: Self)
        ensures
            error@ == ErrorView::Process(pid@, fault@),
    {
        Error::Process(String::from_str(pid), fault)
    }

    /// The line that describes the failure.
    pub fn to_string(&self) -> (text: String)
        ensures
            text@ == self@.message(),
    {
        match self {
            Error::Init(fault) => {
                let mut text = String::from_str("unable to establish a Bluez D-Bus connection: ");
                text.append(fault.text());
                text
            },
            Error::Process(pid, fault) => {
                let mut text = String::from_str("the Bluez process '");
                text.append(pid.as_str());
                text.append("' failed: ");
                text.append(fault.text());
                text
            },
        }
    }
}

/// The scripted client as the contracts see it: the call that is set to
/// fail, if any, and the failure that it then brings.
pub struct TestClientView {
    pub erred: Option<Seq<char>>,
    pub error: ErrorView,
}

impl TestClientView {
    /// Whether the call with the given name is set to fail.
    pub open spec fn fails(self, name: Seq<char>) -> bool {
        self.erred == Some(name)
    }

    /// What the client answers to the call.
    pub open spec fn answer(self, call: CallView) -> ReplyView {
        if self.fails(script_name(call)) {
            ReplyView::BluezFailed(self.error)
        } else {
            match call {
                CallView::PowerState => ReplyView::PowerState(BluezPowerState::On),
                CallView::TogglePowerState => ReplyView::PowerState(BluezPowerState::Off),
                CallView::Devices | CallView::ConnectedDevices => ReplyView::Devices(
                    seq![test_device()],
                ),
                CallView::ScannedDevices => ReplyView::Devices(seq![test_device_heard()]),
                _ => ReplyView::Done,
            }
        }
    }
}

/// The name by which a call is set to fail in the script.
pub open spec fn script_name(call: CallView) -> Seq<char> {
    match call {
        CallView::PowerState => "power_state"@,
        CallView::TogglePowerState => "toggle_power_state"@,
        CallView::Devices => "devices"@,
        CallView::ConnectedDevices => "connected_devices"@,
        CallView::ScannedDevices => "scanned_devices"@,
        CallView::StartDiscovery => "start_discovery"@,
        CallView::StopDiscovery => "stop_discovery"@,
        CallView::Connect(_) => "connect"@,
        CallView::Disconnect(_) => "disconnect"@,
        CallView::Remove(_) => "remove"@,
    }
}

/// The one device that the scripted client knows, as it stands among the
/// known and the connected devices.
pub open spec fn test_device() -> DeviceView {
    DeviceView {
        alias: "test_dev"@,
        address: "XX:XX:XX:XX:XX:XX"@,
        connected: true,
        paired: true,
        trusted: true,
        bonded: false,
        battery: Some(50u8),
        rssi: None,
    }
}

/// The same device as a discovery hears it: with a signal strength, and
/// without a battery level.
pub open spec fn test_device_heard() -> DeviceView {
    DeviceView {
        alias: "test_dev"@,
        address: "XX:XX:XX:XX:XX:XX"@,
        connected: true,
        paired: true,
        trusted: true,
        bonded: false,
        battery: None,
        rssi: Some(50i16),
    }
}

/// A client that answers from a script: every call succeeds with a fixed
/// answer, but for the one call, if any, that was set to fail.
#[derive(Debug)]
pub struct BluezTestClient {
    erred_method_name: Option<String>,
    err: Error,
}

impl View for BluezTestClient {
    type V = TestClientView;

    closed spec fn view(&self) -> TestClientView {
        TestClientView { erred: self.erred_method_name.deep_view(), error: self.err@ }
    }
}

impl BluezTestClient {
    /// A client of which no call fails. The failure that it holds ready is
    /// that of a call named `test_proc` on an unusable reply.
    pub fn new() -> (client: Result<Self, Error>)
        ensures
            client is Ok,
            client->Ok_0@ == (TestClientView {
                erred: None,
                error: ErrorView::Process("test_proc"@, BusFault::unusable()),
            }),
    {
        Ok(
            BluezTestClient {
                erred_method_name: None,
                err: Error::process("test_proc", BusFault::invalid_reply()),
            },
        )
    }

    /// Sets the call with the given name to fail from now on, in place of
    /// any call that was set before.
    pub fn set_erred_method_name(&mut self, name: String)
        ensures
            final(self)@ == (TestClientView { erred: Some(name@), error: old(self)@.error }),
    {
        self.erred_method_name = Some(name);
    }

    /// Whether the call with the given name is set to fail.
    fn fails(&self, name: &str) -> (fails: bool)
        ensures
            fails == self@.fails(name@),
    {
        match &self.erred_method_name {
            Some(erred) => crate::text::same_text(erred.as_str(), name),
            None => false,
        }
    }

    /// The one device, with a battery level.
    fn device() -> (device: BluezDevice)
        ensures
            device@ == test_device(),
    {
        BluezDevice::new(
            String::from_str("test_dev"),
            String::from_str("XX:XX:XX:XX:XX:XX"),
            true,
            true,
            true,
            false,
            Some(50),
            None,
        )
    }

    /// The power state, which is on.
    pub fn power_state(&self) -> (state: Result<BluezPowerState, Error>)
        ensures
            match state {
                Ok(state) => !self@.fails("power_state"@) && state == BluezPowerState::On,
                Err(error) => self@.fails("power_state"@) && error@ == self@.error,
            },
    {
        if self.fails("power_state") {
            Err(self.err.clone())
        } else {
            Ok(BluezPowerState::On)
        }
    }

    /// Switches the power, which is then off.
    pub fn toggle_power_state(&self) -> (state: Result<BluezPowerState, Error>)
        ensures
            match state {
                Ok(state) => !self@.fails("toggle_power_state"@) && state == BluezPowerState::Off,
                Err(error) => self@.fails("toggle_power_state"@) && error@ == self@.error,
            },
    {
        if self.fails("toggle_power_state") {
            Err(self.err.clone())
        } else {
            Ok(BluezPowerState::Off)
        }
    }

    /// The known devices: the one device.
    pub fn devices(&self) -> (devices: Result<Vec<BluezDevice>, Error>)
        ensures
            match devices {
                Ok(devices) => !self@.fails("devices"@) && devices.deep_view() == seq![
                    test_device(),
                ],
                Err(error) => self@.fails("devices"@) && error@ == self@.error,
            },
    {
        if self.fails("devices") {
            Err(self.err.clone())
        } else {
            let mut devices: Vec<BluezDevice> = Vec::new();
            devices.push(Self::device());
            Ok(devices)
        }
    }

    /// Connects to a device, whatever its alias.
    pub fn connect(&self, _alias: &str) -> (done: Result<(), Error>)
        ensures
            match done {
                Ok(_) => !self@.fails("connect"@),
                Err(error) => self@.fails("connect"@) && error@ == self@.error,
            },
    {
        if self.fails("connect") {
            Err(self.err.clone())
        } else {
            Ok(())
        }
    }

    /// The connected devices: the one device.
    pub fn connected_devices(&self) -> (devices: Result<Vec<BluezDevice>, Error>)
        ensures
            match devices {
                Ok(devices) => !self@.fails("connected_devices"@) && devices.deep_view() == seq![
                    test_device(),
                ],
                Err(error) => self@.fails("connected_devices"@) && error@ == self@.error,
            },
    {
        if self.fails("connected_devices") {
            Err(self.err.clone())
        } else {
            let mut devices: Vec<BluezDevice> = Vec::new();
            devices.push(Self::device());
            Ok(devices)
        }
    }

    /// Starts discovery.
    pub fn start_discovery(&self) -> (done: Result<(), Error>)
        ensures
            match done {
                Ok(_) => !self@.fails("start_discovery"@),
                Err(error) => self@.fails("start_discovery"@) && error@ == self@.error,
            },
    {
        if self.fails("start_discovery") {
            Err(self.err.clone())
        } else {
            Ok(())
        }
    }

    /// Stops discovery.
    pub fn stop_discovery(&self) -> (done: Result<(), Error>)
        ensures
            match done {
                Ok(_) => !self@.fails("stop_discovery"@),
                Err(error) => self@.fails("stop_discovery"@) && error@ == self@.error,
            },
    {
        if self.fails("stop_discovery") {
            Err(self.err.clone())
        } else {
            Ok(())
        }
    }

    /// The devices that discovery heard: the one device, with a signal
    /// strength and without a battery level.
    pub fn scanned_devices(&self) -> (devices: Result<Vec<BluezDevice>, Error>)
        ensures
            match devices {
                Ok(devices) => !self@.fails("scanned_devices"@) && devices.deep_view() == seq![
                    test_device_heard(),
                ],
                Err(error) => self@.fails("scanned_devices"@) && error@ == self@.error,
            },
    {
        if self.fails("scanned_devices") {
            Err(self.err.clone())
        } else {
            let mut devices: Vec<BluezDevice> = Vec::new();
            devices.push(
                BluezDevice::new(
                    String::from_str("test_dev"),
                    String::from_str("XX:XX:XX:XX:XX:XX"),
                    true,
                    true,
                    true,
                    false,
                    None,
                    Some(50),
                ),
            );
            Ok(devices)
        }
    }

    /// Removes a device, whatever its alias.
    pub fn remove(&self, _alias: &str) -> (done: Result<(), Error>)
        ensures
            match done {
                Ok(_) => !self@.fails("remove"@),
                Err(error) => self@.fails("remove"@) && error@ == self@.error,
            },
    {
        if self.fails("remove") {
            Err(self.err.clone())
        } else {
            Ok(())
        }
    }

    /// Disconnects a device, whatever its alias.
    pub fn disconnect(&self, _alias: &str) -> (done: Result<(), Error>)
        ensures
            match done {
                Ok(_) => !self@.fails("disconnect"@),
                Err(error) => self@.fails("disconnect"@) && error@ == self@.error,
            },
    {
        if self.fails("disconnect") {
            Err(self.err.clone())
        } else {
            Ok(())
        }
    }

    /// Answers the call from the script.
    pub fn answer(&self, call: &Call) -> (reply: Reply)
        ensures
            reply@ == self@.answer(call@),
    {
        match call {
            Call::PowerState => match self.power_state() {
                Ok(state) => Reply::PowerState(state),
                Err(error) => Reply::BluezFailed(error),
            },
            Call::TogglePowerState => match self.toggle_power_state() {
                Ok(state) => Reply::PowerState(state),
                Err(error) => Reply::BluezFailed(error),
            },
            Call::Devices => match self.devices() {
                Ok(devices) => Reply::Devices(devices),
                Err(error) => Reply::BluezFailed(error),
            },
            Call::ConnectedDevices => match self.connected_devices() {
                Ok(devices) => Reply::Devices(devices),
                Err(error) => Reply::BluezFailed(error),
            },
            Call::ScannedDevices => match self.scanned_devices() {
                Ok(devices) => Reply::Devices(devices),
                Err(error) => Reply::BluezFailed(error),
            },
            Call::StartDiscovery => match self.start_discovery() {
                Ok(_) => Reply::Done,
                Err(error) => Reply::BluezFailed(error),
            },
            Call::StopDiscovery => match self.stop_discovery() {
                Ok(_) => Reply::Done,
                Err(error) => Reply::BluezFailed(error),
            },
            Call::Connect(alias) => match self.connect(alias.as_str()) {
                Ok(_) => Reply::Done,
                Err(error) => Reply::BluezFailed(error),
            },
            Call::Disconnect(alias) => match self.disconnect(alias.as_str()) {
                Ok(_) => Reply::Done,
                Err(error) => Reply::BluezFailed(error),
            },
            Call::Remove(alias) => match self.remove(alias.as_str()) {
                Ok(_) => Reply::Done,
                Err(error) => Reply::BluezFailed(error),
            },
        }
    }
}

} // verus!
