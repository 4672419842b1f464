//! How the client's calls are carried out on the bus. Each call is a short
//! exchange of property reads and method calls; what to ask next, and what
//! the answers amount to, is decided here, one answer at a time.

use crate::bluez::client::{BluezDevice, BluezPowerState, BusFault, DeviceView, Error, ErrorView};
use crate::session::{Call, CallView, Reply, ReplyView};
use crate::text::{contains, has_substring, same_text, split, split_on};
use core::ops::Not;
use vstd::prelude::*;

verus! {

/// A property of a device object.
#[derive(Debug, Clone, Copy, PartialEq, Eq, Structural)]
pub enum Property {
    Alias,
    Address,
    Connected,
    Paired,
    Trusted,
    Bonded,
    Rssi,
    Battery,
}

/// What is asked of the bus, as the contracts see it.
pub enum BusRequestView {
    PowerState,
    SetPowered(bool),
    StartDiscovery,
    StopDiscovery,
    ManagedObjects,
    Read(Seq<char>, Property),
    Connect(Seq<char>),
    Disconnect(Seq<char>),
    RemoveDevice(Seq<char>),
}

/// What is asked of the bus. Device objects are named by their paths.
#[derive(Debug)]
pub enum BusRequest {
    /// The adapter's `PowerState` property.
    PowerState,
    /// The adapter's `Powered` property set to the value.
    SetPowered(bool),
    /// The adapter's `StartDiscovery` method.
    StartDiscovery,
    /// The adapter's `StopDiscovery` method.
    StopDiscovery,
    /// The paths of the objects that the service manages.
    ManagedObjects,
    /// A property of the device object at the path. The battery level is
    /// read from the object's battery interface, the others from its
    /// device interface.
    Read(String, Property),
    /// The `Connect` method of the device object at the path.
    Connect(String),
    /// The `Disconnect` method of the device object at the path.
    Disconnect(String),
    /// The adapter's `RemoveDevice` method for the device object at the
    /// path.
    RemoveDevice(String),
}

impl View for BusRequest {
    type V = BusRequestView;

    open spec fn view(&self) -> BusRequestView {
        match self {
            BusRequest::PowerState => BusRequestView::PowerState,
            BusRequest::SetPowered(powered) => BusRequestView::SetPowered(*powered),
            BusRequest::StartDiscovery => BusRequestView::StartDiscovery,
            BusRequest::StopDiscovery => BusRequestView::StopDiscovery,
            BusRequest::ManagedObjects => BusRequestView::ManagedObjects,
            BusRequest::Read(path, property) => BusRequestView::Read(path@, *property),
            BusRequest::Connect(path) => BusRequestView::Connect(path@),
            BusRequest::Disconnect(path) => BusRequestView::Disconnect(path@),
            BusRequest::RemoveDevice(path) => BusRequestView::RemoveDevice(path@),
        }
    }
}

impl DeepView for BusRequest {
    type V = BusRequestView;

    open spec fn deep_view(&self) -> BusRequestView {
        self@
    }
}

/// What the bus answers, as the contracts see it.
pub enum BusReplyView {
    Text(Seq<char>),
    Flag(bool),
    Signal(i16),
    Level(u8),
    Paths(Seq<Seq<char>>),
    Done,
    Failed(Seq<char>),
}

/// What the bus answers.
#[derive(Debug)]
pub enum BusReply {
    /// The value of a text property.
    Text(String),
    /// The value of a boolean property.
    Flag(bool),
    /// A signal strength.
    Signal(i16),
    /// A battery level in percent.
    Level(u8),
    /// Object paths, in the order in which the bus gave them.
    Paths(Vec<String>),
    /// The method was called, or the property set.
    Done,
    /// The request failed.
    Failed(BusFault),
}

impl View for BusReply {
    type V = BusReplyView;

    open spec fn view(&self) -> BusReplyView {
        match self {
            BusReply::Text(text) => BusReplyView::Text(text@),
            BusReply::Flag(flag) => BusReplyView::Flag(*flag),
            BusReply::Signal(strength) => BusReplyView::Signal(*strength),
            BusReply::Level(level) => BusReplyView::Level(*level),
            BusReply::Paths(paths) => BusReplyView::Paths(paths.deep_view()),
            BusReply::Done => BusReplyView::Done,
            BusReply::Failed(fault) => BusReplyView::Failed(fault@),
        }
    }
}

/// Whether the answer is one that the request can bring: the value asked
/// for, or a failure.
pub open spec fn answers(request: BusRequestView, reply: BusReplyView) -> bool {
    reply is Failed || (match request {
        BusRequestView::PowerState => reply is Text,
        BusRequestView::ManagedObjects => reply is Paths,
        BusRequestView::Read(_, property) => match property {
            Property::Alias | Property::Address => reply is Text,
            Property::Rssi => reply is Signal,
            Property::Battery => reply is Level,
            _ => reply is Flag,
        },
        _ => reply is Done,
    })
}

/// Which of the devices a listing keeps.
#[derive(Debug, Clone, Copy, PartialEq, Eq, Structural)]
pub enum Listing {
    /// All of them.
    All,
    /// Those that are connected.
    Connected,
    /// Those with a signal strength.
    Scanned,
}

/// What is done to a device.
#[derive(Debug, Clone, Copy, PartialEq, Eq, Structural)]
pub enum Deed {
    Connect,
    Disconnect,
    Remove,
}

impl Deed {
    /// The name under which a failure of the deed is told.
    pub open spec fn name(self) -> Seq<char> {
        match self {
            Deed::Connect => "connect"@,
            Deed::Disconnect => "disconnect"@,
            Deed::Remove => "remove"@,
        }
    }

    /// The name under which a failure of the deed is told.
    pub fn to_name(self) -> (name: &'static str)
        ensures
            name@ == self.name(),
    {
        match self {
            Deed::Connect => "connect",
            Deed::Disconnect => "disconnect",
            Deed::Remove => "remove",
        }
    }
}

/// Whether a listing keeps the device.
pub open spec fn keeps(listing: Listing, device: DeviceView) -> bool {
    match listing {
        Listing::All => true,
        Listing::Connected => device.connected,
        Listing::Scanned => device.rssi is Some,
    }
}

/// The devices that a listing keeps, in their order.
pub open spec fn kept(listing: Listing, devices: Seq<DeviceView>) -> Seq<DeviceView> {
    devices.filter(|device: DeviceView| keeps(listing, device))
}

/// Whether the path is that of a device object: what follows its last
/// slash holds `dev`.
pub open spec fn is_device_path(path: Seq<char>) -> bool {
    has_substring(split_on(path, '/').last(), "dev"@)
}

/// The paths of the device objects among the paths, in their order.
pub open spec fn device_paths(paths: Seq<Seq<char>>) -> Seq<Seq<char>> {
    paths.filter(|path: Seq<char>| is_device_path(path))
}

/// The state that the adapter's `PowerState` property tells: `on` is on,
/// every other value is off.
pub open spec fn power_of(value: Seq<char>) -> BluezPowerState {
    if value == "on"@ {
        BluezPowerState::On
    } else {
        BluezPowerState::Off
    }
}

/// The other state.
pub open spec fn opposite(power: BluezPowerState) -> BluezPowerState {
    match power {
        BluezPowerState::On => BluezPowerState::Off,
        BluezPowerState::Off => BluezPowerState::On,
    }
}

/// A device of which nothing has been read yet.
pub open spec fn blank() -> DeviceView {
    DeviceView {
        alias: Seq::<char>::empty(),
        address: Seq::<char>::empty(),
        connected: false,
        paired: false,
        trusted: false,
        bonded: false,
        battery: None,
        rssi: None,
    }
}

/// The failure of the call named `name` on the fault.
pub open spec fn failed(name: Seq<char>, fault: Seq<char>) -> OperationView {
    OperationView::Finished(ReplyView::BluezFailed(ErrorView::Process(name, fault)))
}

/// Where a call stands, as the contracts see it.
pub enum OperationView {
    ReadPower,
    ToggleRead,
    ToggleSet(BluezPowerState),
    StartDiscovery,
    StopDiscovery,
    ListObjects(Listing),
    Gather {
        listing: Listing,
        path: Seq<char>,
        rest: Seq<Seq<char>>,
        reading: Property,
        device: DeviceView,
        found: Seq<DeviceView>,
    },
    FindObjects { deed: Deed, alias: Seq<char> },
    Locate { deed: Deed, alias: Seq<char>, path: Seq<char>, rest: Seq<Seq<char>> },
    Act { deed: Deed, path: Seq<char> },
    Finished(ReplyView),
}

/// Where a listing stands when it turns to the device objects that are
/// left: at the alias of the first of them, or, where none is left, at its
/// end with the devices that it keeps.
pub open spec fn gather(listing: Listing, paths: Seq<Seq<char>>, found: Seq<DeviceView>) -> OperationView {
    if paths.len() == 0 {
        OperationView::Finished(ReplyView::Devices(kept(listing, found)))
    } else {
        OperationView::Gather {
            listing,
            path: paths[0],
            rest: paths.drop_first(),
            reading: Property::Alias,
            device: blank(),
            found,
        }
    }
}

/// Where a listing stands once the signal strength of a device is
/// settled: a connected device still owes its battery level, any other
/// device is complete.
pub open spec fn settle(
    listing: Listing,
    path: Seq<char>,
    rest: Seq<Seq<char>>,
    device: DeviceView,
    found: Seq<DeviceView>,
) -> OperationView {
    if device.connected {
        OperationView::Gather { listing, path, rest, reading: Property::Battery, device, found }
    } else {
        gather(listing, rest, found.push(device))
    }
}

/// Where a deed stands when it turns to the device objects that are left:
/// at the alias of the first of them, or, where none is left, at its end,
/// failed for want of the device.
pub open spec fn seek(deed: Deed, alias: Seq<char>, paths: Seq<Seq<char>>) -> OperationView {
    if paths.len() == 0 {
        failed(deed.name(), BusFault::not_found())
    } else {
        OperationView::Locate { deed, alias, path: paths[0], rest: paths.drop_first() }
    }
}

/// Where the call begins.
pub open spec fn begin(call: CallView) -> OperationView {
    match call {
        CallView::PowerState => OperationView::ReadPower,
        CallView::TogglePowerState => OperationView::ToggleRead,
        CallView::Devices => OperationView::ListObjects(Listing::All),
        CallView::ConnectedDevices => OperationView::ListObjects(Listing::Connected),
        CallView::ScannedDevices => OperationView::ListObjects(Listing::Scanned),
        CallView::StartDiscovery => OperationView::StartDiscovery,
        CallView::StopDiscovery => OperationView::StopDiscovery,
        CallView::Connect(alias) => OperationView::FindObjects { deed: Deed::Connect, alias },
        CallView::Disconnect(alias) => OperationView::FindObjects { deed: Deed::Disconnect, alias },
        CallView::Remove(alias) => OperationView::FindObjects { deed: Deed::Remove, alias },
    }
}

impl OperationView {
    /// What the call waits for; nothing once it has finished.
    pub open spec fn pending(self) -> Option<BusRequestView> {
        match self {
            OperationView::ReadPower | OperationView::ToggleRead => Some(BusRequestView::PowerState),
            OperationView::ToggleSet(power) => Some(
                BusRequestView::SetPowered(power == BluezPowerState::On),
            ),
            OperationView::StartDiscovery => Some(BusRequestView::StartDiscovery),
            OperationView::StopDiscovery => Some(BusRequestView::StopDiscovery),
            OperationView::ListObjects(_) | OperationView::FindObjects { .. } => Some(
                BusRequestView::ManagedObjects,
            ),
            OperationView::Gather { path, reading, .. } => Some(BusRequestView::Read(path, reading)),
            OperationView::Locate { path, .. } => Some(BusRequestView::Read(path, Property::Alias)),
            OperationView::Act { deed, path } => Some(
                match deed {
                    Deed::Connect => BusRequestView::Connect(path),
                    Deed::Disconnect => BusRequestView::Disconnect(path),
                    Deed::Remove => BusRequestView::RemoveDevice(path),
                },
            ),
            OperationView::Finished(_) => None,
        }
    }

    /// Where the call stands after the answer. An answer of another kind
    /// than the one waited for leaves it where it is.
    ///
    /// A listing reads the properties of every device object in turn. A
    /// device of which a property cannot be read is left out of it, but
    /// for the signal strength, which a device may lack; the battery
    /// level is read of connected devices only.
    ///
    /// A deed looks for the first device object with the wanted alias and
    /// acts on it. An alias that cannot be read ends a connection with
    /// that failure; a disconnection or a removal passes such an object
    /// over.
    pub open spec fn next(self, reply: BusReplyView) -> OperationView {
        match (self, reply) {
            (OperationView::ReadPower, BusReplyView::Text(value)) => OperationView::Finished(
                ReplyView::PowerState(power_of(value)),
            ),
            (OperationView::ReadPower, BusReplyView::Failed(fault)) => failed(
                "power_state"@,
                fault,
            ),
            (OperationView::ToggleRead, BusReplyView::Text(value)) => OperationView::ToggleSet(
                opposite(power_of(value)),
            ),
            (OperationView::ToggleRead, BusReplyView::Failed(fault)) => failed(
                "power_state"@,
                fault,
            ),
            (OperationView::ToggleSet(power), BusReplyView::Done) => OperationView::Finished(
                ReplyView::PowerState(power),
            ),
            (OperationView::ToggleSet(_), BusReplyView::Failed(fault)) => failed(
                "toggle_power_state"@,
                fault,
            ),
            (OperationView::StartDiscovery, BusReplyView::Done) => OperationView::Finished(
                ReplyView::Done,
            ),
            (OperationView::StartDiscovery, BusReplyView::Failed(fault)) => failed(
                "start_disc"@,
                fault,
            ),
            (OperationView::StopDiscovery, BusReplyView::Done) => OperationView::Finished(
                ReplyView::Done,
            ),
            (OperationView::StopDiscovery, BusReplyView::Failed(fault)) => failed(
                "stop_disc"@,
                fault,
            ),
            (OperationView::ListObjects(listing), BusReplyView::Paths(paths)) => gather(
                listing,
                device_paths(paths),
                Seq::<DeviceView>::empty(),
            ),
            (OperationView::ListObjects(_), BusReplyView::Failed(fault)) => failed(
                "devices"@,
                fault,
            ),
            (
                OperationView::Gather { listing, path, rest, reading, device, found },
                reply,
            ) => match (reading, reply) {
                (Property::Alias, BusReplyView::Text(alias)) => OperationView::Gather {
                    listing,
                    path,
                    rest,
                    reading: Property::Address,
                    device: DeviceView { alias, ..device },
                    found,
                },
                (Property::Address, BusReplyView::Text(address)) => OperationView::Gather {
                    listing,
                    path,
                    rest,
                    reading: Property::Connected,
                    device: DeviceView { address, ..device },
                    found,
                },
                (Property::Connected, BusReplyView::Flag(connected)) => OperationView::Gather {
                    listing,
                    path,
                    rest,
                    reading: Property::Paired,
                    device: DeviceView { connected, ..device },
                    found,
                },
                (Property::Paired, BusReplyView::Flag(paired)) => OperationView::Gather {
                    listing,
                    path,
                    rest,
                    reading: Property::Trusted,
                    device: DeviceView { paired, ..device },
                    found,
                },
                (Property::Trusted, BusReplyView::Flag(trusted)) => OperationView::Gather {
                    listing,
                    path,
                    rest,
                    reading: Property::Bonded,
                    device: DeviceView { trusted, ..device },
                    found,
                },
                (Property::Bonded, BusReplyView::Flag(bonded)) => OperationView::Gather {
                    listing,
                    path,
                    rest,
                    reading: Property::Rssi,
                    device: DeviceView { bonded, ..device },
                    found,
                },
                (Property::Rssi, BusReplyView::Signal(strength)) => settle(
                    listing,
                    path,
                    rest,
                    DeviceView { rssi: Some(strength), ..device },
                    found,
                ),
                (Property::Rssi, BusReplyView::Failed(_)) => settle(
                    listing,
                    path,
                    rest,
                    device,
                    found,
                ),
                (Property::Battery, BusReplyView::Level(level)) => gather(
                    listing,
                    rest,
                    found.push(DeviceView { battery: Some(level), ..device }),
                ),
                (_, BusReplyView::Failed(_)) => gather(listing, rest, found),
                _ => self,
            },
            (OperationView::FindObjects { deed, alias }, BusReplyView::Paths(paths)) => seek(
                deed,
                alias,
                device_paths(paths),
            ),
            (OperationView::FindObjects { deed, .. }, BusReplyView::Failed(fault)) => failed(
                deed.name(),
                fault,
            ),
            (OperationView::Locate { deed, alias, path, rest }, BusReplyView::Text(found)) => {
                if found == alias {
                    OperationView::Act { deed, path }
                } else {
                    seek(deed, alias, rest)
                }
            },
            (OperationView::Locate { deed, alias, rest, .. }, BusReplyView::Failed(fault)) => {
                if deed == Deed::Connect {
                    failed(deed.name(), fault)
                } else {
                    seek(deed, alias, rest)
                }
            },
            (OperationView::Act { .. }, BusReplyView::Done) => OperationView::Finished(
                ReplyView::Done,
            ),
            (OperationView::Act { deed, .. }, BusReplyView::Failed(fault)) => failed(
                deed.name(),
                fault,
            ),
            _ => self,
        }
    }

    /// Where the call stands after the answers, taken one after the other.
    pub open spec fn run(self, replies: Seq<BusReplyView>) -> OperationView
        decreases replies.len(),
    {
        if replies.len() == 0 {
            self
        } else {
            self.run(replies.drop_last()).next(replies.last())
        }
    }
}

/// What has been read of a device so far. Its view is the device that
/// these properties make, without a battery level.
#[derive(Debug)]
pub struct Draft {
    pub alias: String,
    pub address: String,
    pub connected: bool,
    pub paired: bool,
    pub trusted: bool,
    pub bonded: bool,
    pub rssi: Option<i16>,
}

impl View for Draft {
    type V = DeviceView;

    open spec fn view(&self) -> DeviceView {
        DeviceView {
            alias: self.alias@,
            address: self.address@,
            connected: self.connected,
            paired: self.paired,
            trusted: self.trusted,
            bonded: self.bonded,
            battery: None,
            rssi: self.rssi,
        }
    }
}

impl Draft {
    /// A draft of which nothing has been read yet.
    pub fn new() -> (draft: Self)
        ensures
            draft@ == blank(),
    {
        Draft {
            alias: String::new(),
            address: String::new(),
            connected: false,
            paired: false,
            trusted: false,
            bonded: false,
            rssi: None,
        }
    }

    /// The device that the draft and the battery level make.
    pub fn complete(self, battery: Option<u8>) -> (device: BluezDevice)
        ensures
            device@ == (DeviceView { battery, ..self@ }),
    {
        BluezDevice::new(
            self.alias,
            self.address,
            self.connected,
            self.paired,
            self.trusted,
            self.bonded,
            battery,
            self.rssi,
        )
    }
}

/// Where a call stands: what it waits for, or what it answers.
#[derive(Debug)]
pub enum Operation {
    ReadPower,
    ToggleRead,
    ToggleSet(BluezPowerState),
    StartDiscovery,
    StopDiscovery,
    ListObjects(Listing),
    Gather {
        listing: Listing,
        path: String,
        rest: Vec<String>,
        reading: Property,
        device: Draft,
        found: Vec<BluezDevice>,
    },
    FindObjects { deed: Deed, alias: String },
    Locate { deed: Deed, alias: String, path: String, rest: Vec<String> },
    Act { deed: Deed, path: String },
    Finished(Reply),
}

impl View for Operation {
    type V = OperationView;

    open spec fn view(&self) -> OperationView {
        match self {
            Operation::ReadPower => OperationView::ReadPower,
            Operation::ToggleRead => OperationView::ToggleRead,
            Operation::ToggleSet(power) => OperationView::ToggleSet(*power),
            Operation::StartDiscovery => OperationView::StartDiscovery,
            Operation::StopDiscovery => OperationView::StopDiscovery,
            Operation::ListObjects(listing) => OperationView::ListObjects(*listing),
            Operation::Gather { listing, path, rest, reading, device, found } => {
                OperationView::Gather {
                    listing: *listing,
                    path: path@,
                    rest: rest.deep_view(),
                    reading: *reading,
                    device: device@,
                    found: found.deep_view(),
                }
            },
            Operation::FindObjects { deed, alias } => OperationView::FindObjects {
                deed: *deed,
                alias: alias@,
            },
            Operation::Locate { deed, alias, path, rest } => OperationView::Locate {
                deed: *deed,
                alias: alias@,
                path: path@,
                rest: rest.deep_view(),
            },
            Operation::Act { deed, path } => OperationView::Act { deed: *deed, path: path@ },
            Operation::Finished(reply) => OperationView::Finished(reply@),
        }
    }
}

/// Whether the path is that of a device object.
pub fn names_device(path: &str) -> (is: bool)
    ensures
        is == is_device_path(path@),
{
    let pieces = split(path, '/');
    proof {
        crate::text::lemma_split_joins_back(path@, '/');
    }
    let last = &pieces[pieces.len() - 1];
    contains(last.as_str(), "dev")
}

/// The paths of the device objects among the paths.
pub fn only_device_paths(paths: &Vec<String>) -> (devices: Vec<String>)
    ensures
        devices.deep_view() == device_paths(paths.deep_view()),
{
    let ghost keep = |path: Seq<char>| is_device_path(path);
    let mut devices: Vec<String> = Vec::new();
    let mut i: usize = 0;
    proof {
        reveal(Seq::filter);
    }
    while i < paths.len()
        invariant
            i <= paths.len(),
            keep == |path: Seq<char>| is_device_path(path),
            devices.deep_view() == paths.deep_view().take(i as int).filter(keep),
        decreases paths.len() - i,
    {
        let path = &paths[i];
        proof {
            reveal(Seq::filter);
            let next = paths.deep_view().take(i as int + 1);
            assert(next.drop_last() =~= paths.deep_view().take(i as int));
        }
        if names_device(path.as_str()) {
            devices.push(path.clone());
        }
        i = i + 1;
    }
    proof {
        assert(paths.deep_view().take(paths.len() as int) =~= paths.deep_view());
    }
    devices
}

/// The devices that the listing keeps.
pub fn only_kept(listing: Listing, found: &Vec<BluezDevice>) -> (devices: Vec<BluezDevice>)
    ensures
        devices.deep_view() == kept(listing, found.deep_view()),
{
    let ghost keep = |device: DeviceView| keeps(listing, device);
    let mut devices: Vec<BluezDevice> = Vec::new();
    let mut i: usize = 0;
    proof {
        reveal(Seq::filter);
    }
    while i < found.len()
        invariant
            i <= found.len(),
            keep == |device: DeviceView| keeps(listing, device),
            devices.deep_view() == found.deep_view().take(i as int).filter(keep),
        decreases found.len() - i,
    {
        let device = &found[i];
        proof {
            reveal(Seq::filter);
            let next = found.deep_view().take(i as int + 1);
            assert(next.drop_last() =~= found.deep_view().take(i as int));
        }
        let keeps = match listing {
            Listing::All => true,
            Listing::Connected => device.connected(),
            Listing::Scanned => device.rssi().is_some(),
        };
        if keeps {
            devices.push(device.clone());
        }
        i = i + 1;
    }
    proof {
        assert(found.deep_view().take(found.len() as int) =~= found.deep_view());
    }
    devices
}

/// The failure of the call named `name` on the fault.
fn fail(name: &str, fault: BusFault) -> (operation: Operation)
    ensures
        operation@ == failed(name@, fault@),
{
    Operation::Finished(Reply::BluezFailed(Error::process(name, fault)))
}

/// Turns a listing to the device objects that are left.
fn turn_to_next(listing: Listing, paths: Vec<String>, found: Vec<BluezDevice>) -> (operation:
    Operation)
    ensures
        operation@ == gather(listing, paths.deep_view(), found.deep_view()),
{
    let mut rest = paths;
    if rest.len() == 0 {
        Operation::Finished(Reply::Devices(only_kept(listing, &found)))
    } else {
        let ghost all = rest.deep_view();
        let path = rest.remove(0);
        proof {
            assert(rest.deep_view() =~= all.drop_first());
        }
        Operation::Gather {
            listing,
            path,
            rest,
            reading: Property::Alias,
            device: Draft::new(),
            found,
        }
    }
}

/// Adds a device to those that a listing has found.
fn with_device(found: Vec<BluezDevice>, device: BluezDevice) -> (all: Vec<BluezDevice>)
    ensures
        all.deep_view() == found.deep_view().push(device@),
{
    let mut all = found;
    all.push(device);
    all
}

/// Goes on with a listing once the signal strength of a device is settled.
fn settle_signal(
    listing: Listing,
    path: String,
    rest: Vec<String>,
    device: Draft,
    found: Vec<BluezDevice>,
) -> (operation: Operation)
    ensures
        operation@ == settle(listing, path@, rest.deep_view(), device@, found.deep_view()),
{
    if device.connected {
        Operation::Gather { listing, path, rest, reading: Property::Battery, device, found }
    } else {
        let complete = device.complete(None);
        turn_to_next(listing, rest, with_device(found, complete))
    }
}

/// Turns a deed to the device objects that are left.
fn look_further(deed: Deed, alias: String, paths: Vec<String>) -> (operation: Operation)
    ensures
        operation@ == seek(deed, alias@, paths.deep_view()),
{
    let mut rest = paths;
    if rest.len() == 0 {
        fail(deed.to_name(), BusFault::interface_not_found())
    } else {
        let ghost all = rest.deep_view();
        let path = rest.remove(0);
        proof {
            assert(rest.deep_view() =~= all.drop_first());
        }
        Operation::Locate { deed, alias, path, rest }
    }
}

/// Begins the call.
pub fn begin_call(call: Call) -> (operation: Operation)
    ensures
        operation@ == begin(call@),
{
    match call {
        Call::PowerState => Operation::ReadPower,
        Call::TogglePowerState => Operation::ToggleRead,
        Call::Devices => Operation::ListObjects(Listing::All),
        Call::ConnectedDevices => Operation::ListObjects(Listing::Connected),
        Call::ScannedDevices => Operation::ListObjects(Listing::Scanned),
        Call::StartDiscovery => Operation::StartDiscovery,
        Call::StopDiscovery => Operation::StopDiscovery,
        Call::Connect(alias) => Operation::FindObjects { deed: Deed::Connect, alias },
        Call::Disconnect(alias) => Operation::FindObjects { deed: Deed::Disconnect, alias },
        Call::Remove(alias) => Operation::FindObjects { deed: Deed::Remove, alias },
    }
}

impl Operation {
    /// What the call waits for; nothing once it has finished.
    pub fn pending(&self) -> (request: Option<BusRequest>)
        ensures
            request.deep_view() == self@.pending(),
    {
        match self {
            Operation::ReadPower => Some(BusRequest::PowerState),
            Operation::ToggleRead => Some(BusRequest::PowerState),
            Operation::ToggleSet(power) => Some(BusRequest::SetPowered(bool::from(power))),
            Operation::StartDiscovery => Some(BusRequest::StartDiscovery),
            Operation::StopDiscovery => Some(BusRequest::StopDiscovery),
            Operation::ListObjects(_) => Some(BusRequest::ManagedObjects),
            Operation::FindObjects { .. } => Some(BusRequest::ManagedObjects),
            Operation::Gather { path, reading, .. } => Some(
                BusRequest::Read(path.clone(), *reading),
            ),
            Operation::Locate { path, .. } => Some(BusRequest::Read(path.clone(), Property::Alias)),
            Operation::Act { deed, path } => Some(
                match deed {
                    Deed::Connect => BusRequest::Connect(path.clone()),
                    Deed::Disconnect => BusRequest::Disconnect(path.clone()),
                    Deed::Remove => BusRequest::RemoveDevice(path.clone()),
                },
            ),
            Operation::Finished(_) => None,
        }
    }

    /// Takes the answer to what the call waited for.
    pub fn step(self, reply: BusReply) -> (operation: Operation)
        ensures
            operation@ == self@.next(reply@),
    {
        match (self, reply) {
            (Operation::ReadPower, BusReply::Text(value)) => Operation::Finished(
                Reply::PowerState(BluezPowerState::from(value)),
            ),
            (Operation::ReadPower, BusReply::Failed(fault)) => fail("power_state", fault),
            (Operation::ToggleRead, BusReply::Text(value)) => Operation::ToggleSet(
                BluezPowerState::from(value).not(),
            ),
            (Operation::ToggleRead, BusReply::Failed(fault)) => fail("power_state", fault),
            (Operation::ToggleSet(power), BusReply::Done) => Operation::Finished(
                Reply::PowerState(power),
            ),
            (Operation::ToggleSet(_), BusReply::Failed(fault)) => fail("toggle_power_state", fault),
            (Operation::StartDiscovery, BusReply::Done) => Operation::Finished(Reply::Done),
            (Operation::StartDiscovery, BusReply::Failed(fault)) => fail("start_disc", fault),
            (Operation::StopDiscovery, BusReply::Done) => Operation::Finished(Reply::Done),
            (Operation::StopDiscovery, BusReply::Failed(fault)) => fail("stop_disc", fault),
            (Operation::ListObjects(listing), BusReply::Paths(paths)) => {
                let found: Vec<BluezDevice> = Vec::new();
                proof {
                    assert(found.deep_view() =~= Seq::<DeviceView>::empty());
                }
                turn_to_next(listing, only_device_paths(&paths), found)
            },
            (Operation::ListObjects(_), BusReply::Failed(fault)) => fail("devices", fault),
            (Operation::Gather { listing, path, rest, reading, device, found }, reply) => {
                Self::gather_step(listing, path, rest, reading, device, found, reply)
            },
            (Operation::FindObjects { deed, alias }, BusReply::Paths(paths)) => look_further(
                deed,
                alias,
                only_device_paths(&paths),
            ),
            (Operation::FindObjects { deed, .. }, BusReply::Failed(fault)) => fail(
                deed.to_name(),
                fault,
            ),
            (Operation::Locate { deed, alias, path, rest }, BusReply::Text(found)) => {
                if same_text(found.as_str(), alias.as_str()) {
                    Operation::Act { deed, path }
                } else {
                    look_further(deed, alias, rest)
                }
            },
            (Operation::Locate { deed, alias, rest, .. }, BusReply::Failed(fault)) => {
                match deed {
                    Deed::Connect => fail(deed.to_name(), fault),
                    _ => look_further(deed, alias, rest),
                }
            },
            (Operation::Act { .. }, BusReply::Done) => Operation::Finished(Reply::Done),
            (Operation::Act { deed, .. }, BusReply::Failed(fault)) => fail(deed.to_name(), fault),
            (operation, _) => operation,
        }
    }

    /// Takes the answer to the reading of a device's property.
    fn gather_step(
        listing: Listing,
        path: String,
        rest: Vec<String>,
        reading: Property,
        device: Draft,
        found: Vec<BluezDevice>,
        reply: BusReply,
    ) -> (operation: Operation)
        ensures
            operation@ == (OperationView::Gather {
                listing,
                path: path@,
                rest: rest.deep_view(),
                reading,
                device: device@,
                found: found.deep_view(),
            }).next(reply@),
    {
        let mut device = device;
        match (reading, reply) {
            (Property::Alias, BusReply::Text(alias)) => {
                device.alias = alias;
                Operation::Gather { listing, path, rest, reading: Property::Address, device, found }
            },
            (Property::Address, BusReply::Text(address)) => {
                device.address = address;
                Operation::Gather {
                    listing,
                    path,
                    rest,
                    reading: Property::Connected,
                    device,
                    found,
                }
            },
            (Property::Connected, BusReply::Flag(connected)) => {
                device.connected = connected;
                Operation::Gather { listing, path, rest, reading: Property::Paired, device, found }
            },
            (Property::Paired, BusReply::Flag(paired)) => {
                device.paired = paired;
                Operation::Gather { listing, path, rest, reading: Property::Trusted, device, found }
            },
            (Property::Trusted, BusReply::Flag(trusted)) => {
                device.trusted = trusted;
                Operation::Gather { listing, path, rest, reading: Property::Bonded, device, found }
            },
            (Property::Bonded, BusReply::Flag(bonded)) => {
                device.bonded = bonded;
                Operation::Gather { listing, path, rest, reading: Property::Rssi, device, found }
            },
            (Property::Rssi, BusReply::Signal(strength)) => {
                device.rssi = Some(strength);
                settle_signal(listing, path, rest, device, found)
            },
            (Property::Rssi, BusReply::Failed(_)) => settle_signal(
                listing,
                path,
                rest,
                device,
                found,
            ),
            (Property::Battery, BusReply::Level(level)) => {
                let complete = device.complete(Some(level));
                turn_to_next(listing, rest, with_device(found, complete))
            },
            (_, BusReply::Failed(_)) => turn_to_next(listing, rest, found),
            (reading, _) => Operation::Gather { listing, path, rest, reading, device, found },
        }
    }

    /// What the call answers; nothing while it still waits.
    pub fn reply(self) -> (reply: Option<Reply>)
        ensures
            match reply {
                Some(reply) => self@ == OperationView::Finished(reply@),
                None => !(self@ is Finished),
            },
    {
        match self {
            Operation::Finished(reply) => Some(reply),
            _ => None,
        }
    }
}

/// Whether the device is as the service shows devices: it has a battery
/// level if and only if it is connected.
pub open spec fn sound(device: DeviceView) -> bool {
    device.battery is Some <==> device.connected
}

/// Whether all the devices are as the service shows devices.
pub open spec fn all_sound(devices: Seq<DeviceView>) -> bool {
    forall|i: int| 0 <= i < devices.len() ==> sound(#[trigger] devices[i])
}

/// Which devices the call lists, if it lists any.
pub open spec fn listing_of(call: CallView) -> Option<Listing> {
    match call {
        CallView::Devices => Some(Listing::All),
        CallView::ConnectedDevices => Some(Listing::Connected),
        CallView::ScannedDevices => Some(Listing::Scanned),
        _ => None,
    }
}

/// What holds of a call wherever it stands: it lists what it set out to
/// list, the devices found so far are sound, and a battery level is read
/// of a connected device only.
pub open spec fn orderly(call: CallView, operation: OperationView) -> bool {
    match operation {
        OperationView::ListObjects(listing) => listing_of(call) == Some(listing),
        OperationView::Gather { listing, reading, device, found, .. } => {
            &&& listing_of(call) == Some(listing)
            &&& all_sound(found)
            &&& device.battery is None
            &&& reading == Property::Battery ==> device.connected
        },
        OperationView::Finished(ReplyView::Devices(devices)) => {
            &&& listing_of(call) is Some
            &&& all_sound(devices)
            &&& forall|i: int|
                0 <= i < devices.len() ==> keeps(listing_of(call)->0, #[trigger] devices[i])
        },
        _ => true,
    }
}

/// The devices that a listing keeps of sound devices are sound, and the
/// listing keeps each of them.
pub proof fn lemma_kept_are_sound(listing: Listing, found: Seq<DeviceView>)
    requires
        all_sound(found),
    ensures
        all_sound(kept(listing, found)),
        forall|i: int|
            0 <= i < kept(listing, found).len() ==> keeps(listing, #[trigger] kept(listing, found)[i]),
    decreases found.len(),
{
    reveal(Seq::filter);
    if found.len() > 0 {
        lemma_kept_are_sound(listing, found.drop_last());
    }
}

/// An orderly call stays orderly, whatever the bus answers.
pub proof fn lemma_orderly_step(call: CallView, operation: OperationView, reply: BusReplyView)
    requires
        orderly(call, operation),
    ensures
        orderly(call, operation.next(reply)),
{
    match operation {
        OperationView::ListObjects(listing) => {
            lemma_kept_are_sound(listing, Seq::<DeviceView>::empty());
        },
        OperationView::Gather { listing, device, found, .. } => {
            lemma_kept_are_sound(listing, found);
            let heard = match reply {
                BusReplyView::Signal(strength) => DeviceView { rssi: Some(strength), ..device },
                BusReplyView::Level(level) => DeviceView { battery: Some(level), ..device },
                _ => device,
            };
            if sound(heard) {
                lemma_kept_are_sound(listing, found.push(heard));
            }
        },
        _ => {},
    }
}

/// Whatever the bus answers, the devices that a listing ends with are
/// sound. A listing of the connected devices ends with connected devices
/// that report their battery levels, and a listing of the scanned devices
/// with devices that have a signal strength.
pub proof fn lemma_listing_is_sound(call: CallView, replies: Seq<BusReplyView>)
    ensures
        orderly(call, begin(call).run(replies)),
        begin(call).run(replies) matches OperationView::Finished(ReplyView::Devices(devices)) ==> {
            &&& all_sound(devices)
            &&& call is ConnectedDevices ==> crate::status::all_report_battery(devices)
                && forall|i: int| 0 <= i < devices.len() ==> (#[trigger] devices[i]).connected
            &&& call is ScannedDevices ==> forall|i: int|
                0 <= i < devices.len() ==> (#[trigger] devices[i]).rssi is Some
        },
    decreases replies.len(),
{
    if replies.len() > 0 {
        lemma_listing_is_sound(call, replies.drop_last());
        lemma_orderly_step(call, begin(call).run(replies.drop_last()), replies.last());
    }
}

/// Only an answer counts: an answer of another kind than the one waited
/// for leaves the call where it is, an answer of that kind moves it on,
/// and a call that has finished stays as it is.
pub proof fn lemma_only_answers_count(operation: OperationView, reply: BusReplyView)
    ensures
        match operation.pending() {
            Some(request) => answers(request, reply) <==> operation.next(reply) != operation,
            None => operation.next(reply) == operation,
        },
{
}

} // verus!
