//! The `connect` command: connects to a device that is named, or lets the
//! user pick one of the devices that a discovery heard.

use crate::bluez;
use crate::bluez::{BluezDevice, DeviceView};
use crate::format::{grid, pretty_text, titles, PrettyFormatter, TableColumn, TableFormattable};
use crate::session::{
    answers, Call, CallView, IoFault, Reply, ReplyView, Request, RequestView,
};
use crate::text::{
    contains, decimal, decimal_string, entered, has_substring, lemma_entered_reads_back, parse_u8,
    parsed_u8, trim, trimmed,
};
use vstd::prelude::*;

verus! {

/// A failure of `connect` as the contracts see it.
pub enum ErrorView {
    StartDiscovery(bluez::ErrorView),
    DiscoveredDevices(bluez::ErrorView),
    StopDiscovery(bluez::ErrorView),
    Connect(bluez::ErrorView),
    InvalidAlias,
    Io(Seq<char>),
}

impl ErrorView {
    /// The line that describes the failure.
    pub open spec fn message(self) -> Seq<char> {
        match self {
            ErrorView::StartDiscovery(error) => "unable to start device discovery: "@
                + error.message(),
            ErrorView::DiscoveredDevices(error) => "unable to get discovered devices: "@
                + error.message(),
            ErrorView::StopDiscovery(error) => "unable to stop device discovery: "@
                + error.message(),
            ErrorView::Connect(error) => "unable to connect to device: "@ + error.message(),
            ErrorView::InvalidAlias => "the selected alias is not valid"@,
            ErrorView::Io(fault) => "io error: "@ + fault,
        }
    }
}

/// How `connect` fails.
#[derive(Debug)]
pub enum Error {
    /// Discovery could not be started.
    StartDiscovery(bluez::Error),
    /// The discovered devices could not be read.
    DiscoveredDevices(bluez::Error),
    /// Discovery could not be stopped.
    StopDiscovery(bluez::Error),
    /// The device could not be connected.
    Connect(bluez::Error),
    /// The user's answer names none of the devices shown.
    InvalidAlias,
    /// A stream failed.
    Io(IoFault),
}

impl View for Error {
    type V = ErrorView;

    open spec fn view(&self) -> ErrorView {
        match self {
            Error::StartDiscovery(error) => ErrorView::StartDiscovery(error@),
            Error::DiscoveredDevices(error) => ErrorView::DiscoveredDevices(error@),
            Error::StopDiscovery(error) => ErrorView::StopDiscovery(error@),
            Error::Connect(error) => ErrorView::Connect(error@),
            Error::InvalidAlias => ErrorView::InvalidAlias,
            Error::Io(fault) => ErrorView::Io(fault@),
        }
    }
}

impl Error {
    /// The line that describes the failure.
    pub fn to_string(&self) -> (text: String)
        ensures
            text@ == self@.message(),
    {
        match self {
            Error::StartDiscovery(error) => {
                let mut text = String::from_str("unable to start device discovery: ");
                text.append(error.to_string().as_str());
                text
            },
            Error::DiscoveredDevices(error) => {
                let mut text = String::from_str("unable to get discovered devices: ");
                text.append(error.to_string().as_str());
                text
            },
            Error::StopDiscovery(error) => {
                let mut text = String::from_str("unable to stop device discovery: ");
                text.append(error.to_string().as_str());
                text
            },
            Error::Connect(error) => {
                let mut text = String::from_str("unable to connect to device: ");
                text.append(error.to_string().as_str());
                text
            },
            Error::InvalidAlias => String::from_str("the selected alias is not valid"),
            Error::Io(fault) => {
                let mut text = String::from_str("io error: ");
                text.append(fault.message());
                text
            },
        }
    }
}

/// What `connect` is asked for.
#[derive(Debug)]
pub struct ConnectArgs {
    /// For how many seconds to discover before the devices are shown; five
    /// where none is given.
    pub duration: Option<u8>,
    /// The text that a device's alias must contain to be shown.
    pub contains_name: Option<String>,
    /// The alias of the device to connect to. Without it the user picks one.
    pub alias: Option<String>,
}

/// A column of the table from which the user picks.
#[derive(Debug, Clone, Copy, PartialEq, Eq, Structural)]
pub enum ConnectColumn {
    Idx,
    Alias,
    Address,
    Rssi,
}

/// The heading of a column.
pub open spec fn column_title(column: ConnectColumn) -> Seq<char> {
    match column {
        ConnectColumn::Idx => "IDX"@,
        ConnectColumn::Alias => "ALIAS"@,
        ConnectColumn::Address => "ADDRESS"@,
        ConnectColumn::Rssi => "RSSI"@,
    }
}

/// What the device with the given index shows in a column.
pub open spec fn column_cell(index: int, device: DeviceView, column: ConnectColumn) -> Seq<char> {
    match column {
        ConnectColumn::Idx => "("@ + decimal(index) + ")"@,
        ConnectColumn::Alias => device.alias,
        ConnectColumn::Address => device.address,
        ConnectColumn::Rssi => match device.rssi {
            Some(strength) => decimal(strength as int),
            None => "-"@,
        },
    }
}

/// The four columns of the table, in their order.
pub open spec fn selection_columns() -> Seq<ConnectColumn> {
    seq![ConnectColumn::Idx, ConnectColumn::Alias, ConnectColumn::Address, ConnectColumn::Rssi]
}

/// The lines of the table: the devices in their order, each under its
/// index, counted from 0.
pub open spec fn selection_rows(devices: Seq<DeviceView>) -> Seq<Seq<Seq<char>>> {
    Seq::new(
        devices.len(),
        |i: int|
            Seq::new(
                selection_columns().len(),
                |j: int| column_cell(i, devices[i], selection_columns()[j]),
            ),
    )
}

/// What the user is shown: the table of the devices, and below it the
/// question.
pub open spec fn prompt(devices: Seq<DeviceView>) -> Seq<char> {
    pretty_text(titles(selection_columns()), selection_rows(devices)) + "\n"@
        + "Select the device you wish to connect: "@
}

/// The devices that are shown: all that were heard, or those among them
/// whose alias contains the given text.
pub open spec fn shown(devices: Seq<DeviceView>, contains_name: Option<Seq<char>>) -> Seq<
    DeviceView,
> {
    match contains_name {
        Some(name) => devices.filter(|device: DeviceView| has_substring(device.alias, name)),
        None => devices,
    }
}

/// The alias that the user's answer picks: the answer without the white
/// space around it must be the index of one of the devices.
pub open spec fn selected(line: Seq<char>, devices: Seq<DeviceView>) -> Option<Seq<char>> {
    match parsed_u8(trimmed(line)) {
        Some(index) if index < devices.len() => Some(devices[index as int].alias),
        _ => None,
    }
}

/// What `connect` prints once the device is connected.
pub open spec fn connected_text(alias: Seq<char>) -> Seq<char> {
    "connected to device: "@ + alias
}

impl TableColumn for ConnectColumn {
    open spec fn title(&self) -> Seq<char> {
        column_title(*self)
    }

    fn to_title(&self) -> (title: String) {
        match self {
            ConnectColumn::Idx => String::from_str("IDX"),
            ConnectColumn::Alias => String::from_str("ALIAS"),
            ConnectColumn::Address => String::from_str("ADDRESS"),
            ConnectColumn::Rssi => String::from_str("RSSI"),
        }
    }
}

impl TableFormattable<ConnectColumn> for (usize, BluezDevice) {
    open spec fn cell(&self, column: &ConnectColumn) -> Seq<char> {
        column_cell(self.0 as int, self.1@, *column)
    }

    fn get_cell_value_by_column(&self, column: &ConnectColumn) -> (value: String) {
        match column {
            ConnectColumn::Idx => {
                let mut value = String::from_str("(");
                value.append(decimal_string(self.0 as i128).as_str());
                value.append(")");
                value
            },
            ConnectColumn::Alias => String::from_str(self.1.alias()),
            ConnectColumn::Address => String::from_str(self.1.address()),
            ConnectColumn::Rssi => match self.1.rssi() {
                Some(strength) => decimal_string(*strength as i128),
                None => String::from_str("-"),
            },
        }
    }
}

/// The devices that are shown after a discovery.
pub fn scan_devices(scanned: Vec<BluezDevice>, contains_name: &Option<String>) -> (devices: Vec<
    BluezDevice,
>)
    ensures
        devices.deep_view() == shown(scanned.deep_view(), contains_name.deep_view()),
{
    match contains_name {
        None => scanned,
        Some(name) => {
            let ghost keep = |device: DeviceView| has_substring(device.alias, name@);
            let mut devices: Vec<BluezDevice> = Vec::new();
            let mut i: usize = 0;
            proof {
                reveal(Seq::filter);
            }
            while i < scanned.len()
                invariant
                    i <= scanned.len(),
                    keep == |device: DeviceView| has_substring(device.alias, name@),
                    devices.deep_view() == scanned.deep_view().take(i as int).filter(keep),
                decreases scanned.len() - i,
            {
                let device = &scanned[i];
                proof {
                    reveal(Seq::filter);
                    let next = scanned.deep_view().take(i as int + 1);
                    assert(next.drop_last() =~= scanned.deep_view().take(i as int));
                }
                if contains(device.alias(), name.as_str()) {
                    devices.push(device.clone());
                }
                i = i + 1;
            }
            proof {
                assert(scanned.deep_view().take(scanned.len() as int) =~= scanned.deep_view());
            }
            devices
        },
    }
}

/// Writes out what the user is shown.
pub fn render_prompt(devices: &Vec<BluezDevice>) -> (text: String)
    ensures
        text@ == prompt(devices.deep_view()),
{
    let mut columns: Vec<ConnectColumn> = Vec::new();
    columns.push(ConnectColumn::Idx);
    columns.push(ConnectColumn::Alias);
    columns.push(ConnectColumn::Address);
    columns.push(ConnectColumn::Rssi);
    let mut numbered: Vec<(usize, BluezDevice)> = Vec::new();
    let mut i: usize = 0;
    while i < devices.len()
        invariant
            i <= devices.len(),
            numbered.len() == i,
            forall|k: int|
                0 <= k < i ==> (#[trigger] numbered[k]).0 == k && numbered[k].1@
                    == devices.deep_view()[k],
        decreases devices.len() - i,
    {
        numbered.push((i, devices[i].clone()));
        i = i + 1;
    }
    proof {
        assert(columns@ =~= selection_columns());
        assert(grid(numbered@, columns@) =~~= selection_rows(devices.deep_view()));
    }
    let mut text = numbered.to_pretty(columns.as_slice());
    text.append("\n");
    text.append("Select the device you wish to connect: ");
    text
}

/// The alias of the device that the user's answer picks.
pub fn read_device_alias(line: &str, devices: &Vec<BluezDevice>) -> (alias: Result<String, Error>)
    ensures
        match alias {
            Ok(alias) => selected(line@, devices.deep_view()) == Some(alias@),
            Err(error) => selected(line@, devices.deep_view()) is None && error@
                == ErrorView::InvalidAlias,
        },
{
    match parse_u8(trim(line)) {
        Some(index) => {
            if (index as usize) < devices.len() {
                Ok(String::from_str(devices[index as usize].alias()))
            } else {
                Err(Error::InvalidAlias)
            }
        },
        None => Err(Error::InvalidAlias),
    }
}

/// Where `connect` stands, as the contracts see it.
pub enum ConnectView {
    AwaitStart { duration: u64, contains_name: Option<Seq<char>> },
    AwaitSleep { duration: u64, contains_name: Option<Seq<char>> },
    AwaitScanned { contains_name: Option<Seq<char>> },
    AwaitPrompt { devices: Seq<DeviceView>, text: Seq<char> },
    AwaitFlush { devices: Seq<DeviceView> },
    AwaitLine { devices: Seq<DeviceView> },
    AwaitConnect { alias: Seq<char>, scanned: bool },
    AwaitWrite { text: Seq<char>, scanned: bool },
    AwaitStop,
    Finished(Result<(), ErrorView>),
}

impl ConnectView {
    /// What the command waits for; nothing once it has finished.
    pub open spec fn pending(self) -> Option<RequestView> {
        match self {
            ConnectView::AwaitStart { .. } => Some(RequestView::Bluez(CallView::StartDiscovery)),
            ConnectView::AwaitSleep { duration, .. } => Some(RequestView::Sleep(duration)),
            ConnectView::AwaitScanned { .. } => Some(RequestView::Bluez(CallView::ScannedDevices)),
            ConnectView::AwaitPrompt { text, .. } => Some(RequestView::Write(text)),
            ConnectView::AwaitFlush { .. } => Some(RequestView::Flush),
            ConnectView::AwaitLine { .. } => Some(RequestView::ReadLine),
            ConnectView::AwaitConnect { alias, .. } => Some(
                RequestView::Bluez(CallView::Connect(alias)),
            ),
            ConnectView::AwaitWrite { text, .. } => Some(RequestView::Write(text)),
            ConnectView::AwaitStop => Some(RequestView::Bluez(CallView::StopDiscovery)),
            ConnectView::Finished(_) => None,
        }
    }

    /// Where the command stands after the reply. A reply that does not
    /// answer what the command waits for leaves it where it is. Discovery
    /// is stopped only at the end of a run that started it and connected:
    /// every failure before that ends the command at once.
    pub open spec fn next(self, reply: ReplyView) -> ConnectView {
        match (self, reply) {
            (ConnectView::AwaitStart { duration, contains_name }, ReplyView::Done) => {
                ConnectView::AwaitSleep { duration, contains_name }
            },
            (ConnectView::AwaitStart { .. }, ReplyView::BluezFailed(error)) => {
                ConnectView::Finished(Err(ErrorView::StartDiscovery(error)))
            },
            (ConnectView::AwaitSleep { contains_name, .. }, ReplyView::Done) => {
                ConnectView::AwaitScanned { contains_name }
            },
            (ConnectView::AwaitScanned { contains_name }, ReplyView::Devices(devices)) => {
                ConnectView::AwaitPrompt {
                    devices: shown(devices, contains_name),
                    text: prompt(shown(devices, contains_name)),
                }
            },
            (ConnectView::AwaitScanned { .. }, ReplyView::BluezFailed(error)) => {
                ConnectView::Finished(Err(ErrorView::DiscoveredDevices(error)))
            },
            (ConnectView::AwaitPrompt { devices, .. }, ReplyView::Done) => ConnectView::AwaitFlush {
                devices,
            },
            (ConnectView::AwaitFlush { devices }, ReplyView::Done) => ConnectView::AwaitLine {
                devices,
            },
            (ConnectView::AwaitLine { devices }, ReplyView::Line(line)) => match selected(
                line,
                devices,
            ) {
                Some(alias) => ConnectView::AwaitConnect { alias, scanned: true },
                None => ConnectView::Finished(Err(ErrorView::InvalidAlias)),
            },
            (ConnectView::AwaitPrompt { .. }, ReplyView::IoFailed(fault))
            | (ConnectView::AwaitFlush { .. }, ReplyView::IoFailed(fault))
            | (ConnectView::AwaitLine { .. }, ReplyView::IoFailed(fault))
            | (ConnectView::AwaitWrite { .. }, ReplyView::IoFailed(fault)) => ConnectView::Finished(
                Err(ErrorView::Io(fault)),
            ),
            (ConnectView::AwaitConnect { alias, scanned }, ReplyView::Done) => {
                ConnectView::AwaitWrite { text: connected_text(alias), scanned }
            },
            (ConnectView::AwaitConnect { .. }, ReplyView::BluezFailed(error)) => {
                ConnectView::Finished(Err(ErrorView::Connect(error)))
            },
            (ConnectView::AwaitWrite { scanned, .. }, ReplyView::Done) => if scanned {
                ConnectView::AwaitStop
            } else {
                ConnectView::Finished(Ok(()))
            },
            (ConnectView::AwaitStop, ReplyView::Done) => ConnectView::Finished(Ok(())),
            (ConnectView::AwaitStop, ReplyView::BluezFailed(error)) => ConnectView::Finished(
                Err(ErrorView::StopDiscovery(error)),
            ),
            _ => self,
        }
    }

    /// Where the command stands after the replies, taken one after the
    /// other.
    pub open spec fn run(self, replies: Seq<ReplyView>) -> ConnectView
        decreases replies.len(),
    {
        if replies.len() == 0 {
            self
        } else {
            self.run(replies.drop_last()).next(replies.last())
        }
    }
}

/// Where `connect` stands: what it waits for, or how it ended.
#[derive(Debug)]
pub enum Connect {
    AwaitStart { duration: u64, contains_name: Option<String> },
    AwaitSleep { duration: u64, contains_name: Option<String> },
    AwaitScanned { contains_name: Option<String> },
    AwaitPrompt { devices: Vec<BluezDevice>, text: String },
    AwaitFlush { devices: Vec<BluezDevice> },
    AwaitLine { devices: Vec<BluezDevice> },
    AwaitConnect { alias: String, scanned: bool },
    AwaitWrite { text: String, scanned: bool },
    AwaitStop,
    Finished(Result<(), Error>),
}

impl View for Connect {
    type V = ConnectView;

    open spec fn view(&self) -> ConnectView {
        match self {
            Connect::AwaitStart { duration, contains_name } => ConnectView::AwaitStart {
                duration: *duration,
                contains_name: contains_name.deep_view(),
            },
            Connect::AwaitSleep { duration, contains_name } => ConnectView::AwaitSleep {
                duration: *duration,
                contains_name: contains_name.deep_view(),
            },
            Connect::AwaitScanned { contains_name } => ConnectView::AwaitScanned {
                contains_name: contains_name.deep_view(),
            },
            Connect::AwaitPrompt { devices, text } => ConnectView::AwaitPrompt {
                devices: devices.deep_view(),
                text: text@,
            },
            Connect::AwaitFlush { devices } => ConnectView::AwaitFlush {
                devices: devices.deep_view(),
            },
            Connect::AwaitLine { devices } => ConnectView::AwaitLine {
                devices: devices.deep_view(),
            },
            Connect::AwaitConnect { alias, scanned } => ConnectView::AwaitConnect {
                alias: alias@,
                scanned: *scanned,
            },
            Connect::AwaitWrite { text, scanned } => ConnectView::AwaitWrite {
                text: text@,
                scanned: *scanned,
            },
            Connect::AwaitStop => ConnectView::AwaitStop,
            Connect::Finished(Ok(())) => ConnectView::Finished(Ok(())),
            Connect::Finished(Err(error)) => ConnectView::Finished(Err(error@)),
        }
    }
}

/// Where `connect` begins for the given arguments: with the connection
/// where an alias is named, else with a discovery.
pub open spec fn begin(args: ConnectArgs) -> ConnectView {
    match args.alias {
        Some(alias) => ConnectView::AwaitConnect { alias: alias@, scanned: false },
        None => ConnectView::AwaitStart {
            duration: match args.duration {
                Some(seconds) => seconds as u64,
                None => 5,
            },
            contains_name: args.contains_name.deep_view(),
        },
    }
}

/// Begins `connect`. With an alias it connects to that device and says so.
/// Without one it has discovery started, waits, reads the devices that
/// were heard, shows them and asks for one, connects to the one picked,
/// says so, and has discovery stopped.
pub fn connect(args: &ConnectArgs) -> (command: Connect)
    ensures
        command@ == begin(*args),
{
    match &args.alias {
        Some(alias) => Connect::AwaitConnect { alias: alias.clone(), scanned: false },
        None => {
            let duration: u64 = match args.duration {
                Some(seconds) => seconds as u64,
                None => 5,
            };
            let contains_name = match &args.contains_name {
                Some(name) => Some(name.clone()),
                None => None,
            };
            Connect::AwaitStart { duration, contains_name }
        },
    }
}

impl Connect {
    /// What the command waits for; nothing once it has finished.
    pub fn pending(&self) -> (request: Option<Request>)
        ensures
            request.deep_view() == self@.pending(),
    {
        match self {
            Connect::AwaitStart { .. } => Some(Request::Bluez(Call::StartDiscovery)),
            Connect::AwaitSleep { duration, .. } => Some(Request::Sleep(*duration)),
            Connect::AwaitScanned { .. } => Some(Request::Bluez(Call::ScannedDevices)),
            Connect::AwaitPrompt { text, .. } => Some(Request::Write(text.clone())),
            Connect::AwaitFlush { .. } => Some(Request::Flush),
            Connect::AwaitLine { .. } => Some(Request::ReadLine),
            Connect::AwaitConnect { alias, .. } => Some(
                Request::Bluez(Call::Connect(alias.clone())),
            ),
            Connect::AwaitWrite { text, .. } => Some(Request::Write(text.clone())),
            Connect::AwaitStop => Some(Request::Bluez(Call::StopDiscovery)),
            Connect::Finished(_) => None,
        }
    }

    /// Takes the reply to what the command waited for.
    pub fn step(self, reply: Reply) -> (command: Connect)
        ensures
            command@ == self@.next(reply@),
    {
        match (self, reply) {
            (Connect::AwaitStart { duration, contains_name }, Reply::Done) => Connect::AwaitSleep {
                duration,
                contains_name,
            },
            (Connect::AwaitStart { .. }, Reply::BluezFailed(error)) => Connect::Finished(
                Err(Error::StartDiscovery(error)),
            ),
            (Connect::AwaitSleep { contains_name, .. }, Reply::Done) => Connect::AwaitScanned {
                contains_name,
            },
            (Connect::AwaitScanned { contains_name }, Reply::Devices(scanned)) => {
                let devices = scan_devices(scanned, &contains_name);
                let text = render_prompt(&devices);
                Connect::AwaitPrompt { devices, text }
            },
            (Connect::AwaitScanned { .. }, Reply::BluezFailed(error)) => Connect::Finished(
                Err(Error::DiscoveredDevices(error)),
            ),
            (Connect::AwaitPrompt { devices, .. }, Reply::Done) => Connect::AwaitFlush { devices },
            (Connect::AwaitFlush { devices }, Reply::Done) => Connect::AwaitLine { devices },
            (Connect::AwaitLine { devices }, Reply::Line(line)) => {
                match read_device_alias(line.as_str(), &devices) {
                    Ok(alias) => Connect::AwaitConnect { alias, scanned: true },
                    Err(error) => Connect::Finished(Err(error)),
                }
            },
            (Connect::AwaitPrompt { .. }, Reply::IoFailed(fault)) => Connect::Finished(
                Err(Error::Io(fault)),
            ),
            (Connect::AwaitFlush { .. }, Reply::IoFailed(fault)) => Connect::Finished(
                Err(Error::Io(fault)),
            ),
            (Connect::AwaitLine { .. }, Reply::IoFailed(fault)) => Connect::Finished(
                Err(Error::Io(fault)),
            ),
            (Connect::AwaitWrite { .. }, Reply::IoFailed(fault)) => Connect::Finished(
                Err(Error::Io(fault)),
            ),
            (Connect::AwaitConnect { alias, scanned }, Reply::Done) => {
                let mut text = String::from_str("connected to device: ");
                text.append(alias.as_str());
                Connect::AwaitWrite { text, scanned }
            },
            (Connect::AwaitConnect { .. }, Reply::BluezFailed(error)) => Connect::Finished(
                Err(Error::Connect(error)),
            ),
            (Connect::AwaitWrite { scanned, .. }, Reply::Done) => {
                if scanned {
                    Connect::AwaitStop
                } else {
                    Connect::Finished(Ok(()))
                }
            },
            (Connect::AwaitStop, Reply::Done) => Connect::Finished(Ok(())),
            (Connect::AwaitStop, Reply::BluezFailed(error)) => Connect::Finished(
                Err(Error::StopDiscovery(error)),
            ),
            (command, _) => command,
        }
    }

    /// How the command ended; nothing while it still waits.
    pub fn outcome(self) -> (outcome: Option<Result<(), Error>>)
        ensures
            match (outcome, self@) {
                (Some(Ok(())), ConnectView::Finished(Ok(()))) => true,
                (Some(Err(error)), ConnectView::Finished(Err(view))) => error@ == view,
                (None, view) => !(view is Finished),
                _ => false,
            },
    {
        match self {
            Connect::Finished(outcome) => Some(outcome),
            _ => None,
        }
    }
}

/// Only an answer counts: a reply that does not answer what the command
/// waits for leaves the command where it is, a reply that does moves it
/// on, and a command that has finished stays as it is.
pub proof fn lemma_only_answers_count(command: ConnectView, reply: ReplyView)
    ensures
        match command.pending() {
            Some(request) => answers(request, reply) <==> command.next(reply) != command,
            None => command.next(reply) == command,
        },
{
}

/// The index under which a device is shown picks that device: the line
/// entered for it makes the command ask for the connection to the device
/// of that index.
pub proof fn lemma_shown_index_picks(devices: Seq<DeviceView>, index: u8)
    requires
        index < devices.len(),
    ensures
        selected(entered(index), devices) == Some(devices[index as int].alias),
        (ConnectView::AwaitLine { devices }).next(ReplyView::Line(entered(index))).pending()
            == Some(RequestView::Bluez(CallView::Connect(devices[index as int].alias))),
{
    lemma_entered_reads_back(index);
}

/// With an alias named, `connect` asks for nothing but the connection to
/// that alias and the line that tells of it: it starts no discovery and
/// reads no answer, whatever it is told.
pub proof fn lemma_named_alias_needs_no_discovery(args: ConnectArgs, replies: Seq<ReplyView>)
    requires
        args.alias is Some,
    ensures
        match begin(args).run(replies) {
            ConnectView::AwaitConnect { alias, scanned } => alias == args.alias->0@ && !scanned,
            ConnectView::AwaitWrite { text, scanned } => text == connected_text(args.alias->0@)
                && !scanned,
            ConnectView::Finished(_) => true,
            _ => false,
        },
    decreases replies.len(),
{
    if replies.len() > 0 {
        lemma_named_alias_needs_no_discovery(args, replies.drop_last());
    }
}

/// Whether the command has discovery running and has not come to its end.
pub open spec fn discovering(command: ConnectView) -> bool {
    match command {
        ConnectView::AwaitStart { .. } => false,
        ConnectView::AwaitConnect { scanned, .. } => scanned,
        ConnectView::AwaitWrite { scanned, .. } => scanned,
        ConnectView::Finished(_) => false,
        _ => true,
    }
}

/// Without an alias named, `connect` ends well only through the call that
/// stops the discovery that it started.
pub proof fn lemma_discovery_is_stopped(args: ConnectArgs, replies: Seq<ReplyView>)
    requires
        args.alias is None,
        replies.len() > 0,
        begin(args).run(replies) == ConnectView::Finished(Ok(())),
        begin(args).run(replies.drop_last()) != ConnectView::Finished(Ok(())),
    ensures
        begin(args).run(replies.drop_last()) == ConnectView::AwaitStop,
{
    lemma_scanning_run(args, replies.drop_last());
}

/// Without an alias named, `connect` stands before its discovery, in it,
/// at the call that stops it, or at its end.
pub proof fn lemma_scanning_run(args: ConnectArgs, replies: Seq<ReplyView>)
    requires
        args.alias is None,
    ensures
        ({
            let command = begin(args).run(replies);
            command is AwaitStart || discovering(command) || command is Finished
        }),
    decreases replies.len(),
{
    if replies.len() > 0 {
        lemma_scanning_run(args, replies.drop_last());
    }
}

} // verus!
