//! The `scan` command: lets the adapter discover for a while and lists the
//! devices that it heard.

use crate::bluez;
use crate::bluez::{BluezDevice, DeviceView};
use crate::format::{
    copy_of, grid, listing_text, rows_of, titles, to_listing, Shape, TableColumn, TableFormattable,
};
use crate::session::{
    answers, Call, CallView, IoFault, Reply, ReplyView, Request, RequestView,
};
use crate::text::{decimal, decimal_string};
use vstd::prelude::*;

verus! {

/// A failure of `scan` as the contracts see it.
pub enum ErrorView {
    Start(bluez::ErrorView),
    Stop(bluez::ErrorView),
    DiscoveredDevices(bluez::ErrorView),
    Io(Seq<char>),
}

impl ErrorView {
    /// The line that describes the failure.
    pub open spec fn message(self) -> Seq<char> {
        match self {
            ErrorView::Start(error) => "unable to start device discovery: "@ + error.message(),
            ErrorView::Stop(error) => "unable to stop device discovery: "@ + error.message(),
            ErrorView::DiscoveredDevices(error) => "unable to get discovered devices: "@
                + error.message(),
            ErrorView::Io(fault) => "io error: "@ + fault,
        }
    }
}

/// How `scan` fails.
#[derive(Debug)]
pub enum Error {
    /// Discovery could not be started.
    Start(bluez::Error),
    /// Discovery could not be stopped.
    Stop(bluez::Error),
    /// The discovered devices could not be read.
    DiscoveredDevices(bluez::Error),
    /// The listing could not be written.
    Io(IoFault),
}

impl View for Error {
    type V = ErrorView;

    open spec fn view(&self) -> ErrorView {
        match self {
            Error::Start(error) => ErrorView::Start(error@),
            Error::Stop(error) => ErrorView::Stop(error@),
            Error::DiscoveredDevices(error) => ErrorView::DiscoveredDevices(error@),
            Error::Io(fault) => ErrorView::Io(fault@),
        }
    }
}

impl Error {
    /// The line that describes the failure.
    pub fn to_string(&self) -> (text: String)
        ensures
            text@ == self@.message(),
    {
        match self {
            Error::Start(error) => {
                let mut text = String::from_str("unable to start device discovery: ");
                text.append(error.to_string().as_str());
                text
            },
            Error::Stop(error) => {
                let mut text = String::from_str("unable to stop device discovery: ");
                text.append(error.to_string().as_str());
                text
            },
            Error::DiscoveredDevices(error) => {
                let mut text = String::from_str("unable to get discovered devices: ");
                text.append(error.to_string().as_str());
                text
            },
            Error::Io(fault) => {
                let mut text = String::from_str("io error: ");
                text.append(fault.message());
                text
            },
        }
    }
}

/// A column of the listing.
#[derive(Debug, Clone, Copy, PartialEq, Eq, Structural)]
pub enum ScanColumn {
    Alias,
    Address,
    Rssi,
}

/// What `scan` is asked for.
#[derive(Debug)]
pub struct ScanArgs {
    /// For how many seconds to discover.
    pub duration: u8,
    /// The columns of the table.
    pub columns: Option<Vec<ScanColumn>>,
    /// The columns of the terse listing.
    pub values: Option<Vec<ScanColumn>>,
}

/// The heading of a column.
pub open spec fn column_title(column: ScanColumn) -> Seq<char> {
    match column {
        ScanColumn::Alias => "ALIAS"@,
        ScanColumn::Address => "ADDRESS"@,
        ScanColumn::Rssi => "RSSI"@,
    }
}

/// What a device shows in a column. A device without a signal strength
/// shows 0 for it.
pub open spec fn column_cell(device: DeviceView, column: ScanColumn) -> Seq<char> {
    match column {
        ScanColumn::Alias => device.alias,
        ScanColumn::Address => device.address,
        ScanColumn::Rssi => decimal(
            match device.rssi {
                Some(strength) => strength as int,
                None => 0,
            },
        ),
    }
}

/// The three columns, in the order in which the listing shows them when
/// none is asked for.
pub open spec fn default_columns() -> Seq<ScanColumn> {
    seq![ScanColumn::Alias, ScanColumn::Address, ScanColumn::Rssi]
}

/// The shape asked for: terse where only terse values are named, a table in
/// every other case.
pub open spec fn shape_of(args: ScanArgs) -> Shape {
    if args.columns is None && args.values is Some {
        Shape::Terse
    } else {
        Shape::Pretty
    }
}

/// The columns that are named: those of the table where there are any,
/// else those of the terse listing.
pub open spec fn named_keys(args: ScanArgs) -> Option<Seq<ScanColumn>> {
    match (args.columns, args.values) {
        (Some(columns), _) => Some(columns@),
        (None, Some(values)) => Some(values@),
        (None, None) => None,
    }
}

/// The columns of the listing: the named ones, and the default ones where
/// none is named or the named list is empty.
pub open spec fn keys_of(args: ScanArgs) -> Seq<ScanColumn> {
    match named_keys(args) {
        Some(keys) if keys.len() > 0 => keys,
        _ => default_columns(),
    }
}

/// The cells of the devices in the columns.
pub open spec fn listing_rows(devices: Seq<DeviceView>, keys: Seq<ScanColumn>) -> Seq<
    Seq<Seq<char>>,
> {
    rows_of(devices, keys, |device: DeviceView, column: ScanColumn| column_cell(device, column))
}

/// What `scan` prints for the devices that were discovered.
pub open spec fn listing(shape: Shape, keys: Seq<ScanColumn>, devices: Seq<DeviceView>) -> Seq<
    char,
> {
    listing_text(shape, titles(keys), listing_rows(devices, keys))
}

impl TableColumn for ScanColumn {
    open spec fn title(&self) -> Seq<char> {
        column_title(*self)
    }

    fn to_title(&self) -> (title: String) {
        match self {
            ScanColumn::Alias => String::from_str("ALIAS"),
            ScanColumn::Address => String::from_str("ADDRESS"),
            ScanColumn::Rssi => String::from_str("RSSI"),
        }
    }
}

impl TableFormattable<ScanColumn> for BluezDevice {
    open spec fn cell(&self, column: &ScanColumn) -> Seq<char> {
        column_cell(self@, *column)
    }

    fn get_cell_value_by_column(&self, column: &ScanColumn) -> (value: String) {
        match column {
            ScanColumn::Alias => String::from_str(self.alias()),
            ScanColumn::Address => String::from_str(self.address()),
            ScanColumn::Rssi => {
                let strength: i16 = match self.rssi() {
                    Some(strength) => *strength,
                    None => 0,
                };
                decimal_string(strength as i128)
            },
        }
    }
}

/// The three default columns.
pub fn default_listing_keys() -> (columns: Vec<ScanColumn>)
    ensures
        columns@ == default_columns(),
{
    let mut columns: Vec<ScanColumn> = Vec::new();
    columns.push(ScanColumn::Alias);
    columns.push(ScanColumn::Address);
    columns.push(ScanColumn::Rssi);
    columns
}

/// The named columns, or the default ones where the list is empty.
fn keys_or_default(named: &Vec<ScanColumn>) -> (keys: Vec<ScanColumn>)
    ensures
        keys@ == (if named@.len() > 0 {
            named@
        } else {
            default_columns()
        }),
{
    if named.len() == 0 {
        default_listing_keys()
    } else {
        copy_of(named)
    }
}

/// Writes out what `scan` prints.
pub fn render(shape: Shape, keys: &Vec<ScanColumn>, devices: &Vec<BluezDevice>) -> (text: String)
    ensures
        text@ == listing(shape, keys@, devices.deep_view()),
{
    proof {
        assert(grid(devices@, keys@) =~~= listing_rows(devices.deep_view(), keys@));
    }
    to_listing(devices, keys.as_slice(), shape)
}

/// Where `scan` stands, as the contracts see it.
pub enum ScanView {
    AwaitStart { duration: u8, shape: Shape, keys: Seq<ScanColumn> },
    AwaitSleep { duration: u8, shape: Shape, keys: Seq<ScanColumn> },
    AwaitDevices { shape: Shape, keys: Seq<ScanColumn> },
    AwaitWrite(Seq<char>),
    AwaitStop,
    Finished(Result<(), ErrorView>),
}

impl ScanView {
    /// What the command waits for; nothing once it has finished.
    pub open spec fn pending(self) -> Option<RequestView> {
        match self {
            ScanView::AwaitStart { .. } => Some(RequestView::Bluez(CallView::StartDiscovery)),
            ScanView::AwaitSleep { duration, .. } => Some(RequestView::Sleep(duration as u64)),
            ScanView::AwaitDevices { .. } => Some(RequestView::Bluez(CallView::ScannedDevices)),
            ScanView::AwaitWrite(text) => Some(RequestView::Write(text)),
            ScanView::AwaitStop => Some(RequestView::Bluez(CallView::StopDiscovery)),
            ScanView::Finished(_) => None,
        }
    }

    /// Where the command stands after the reply. A reply that does not
    /// answer what the command waits for leaves it where it is. Discovery
    /// is stopped only after the listing was written: a failure before
    /// that ends the command with discovery still on, and a failure to
    /// stop it fails the command although the listing is out.
    pub open spec fn next(self, reply: ReplyView) -> ScanView {
        match (self, reply) {
            (ScanView::AwaitStart { duration, shape, keys }, ReplyView::Done) => {
                ScanView::AwaitSleep { duration, shape, keys }
            },
            (ScanView::AwaitStart { .. }, ReplyView::BluezFailed(error)) => ScanView::Finished(
                Err(ErrorView::Start(error)),
            ),
            (ScanView::AwaitSleep { shape, keys, .. }, ReplyView::Done) => ScanView::AwaitDevices {
                shape,
                keys,
            },
            (ScanView::AwaitDevices { shape, keys }, ReplyView::Devices(devices)) => {
                ScanView::AwaitWrite(listing(shape, keys, devices))
            },
            (ScanView::AwaitDevices { .. }, ReplyView::BluezFailed(error)) => ScanView::Finished(
                Err(ErrorView::DiscoveredDevices(error)),
            ),
            (ScanView::AwaitWrite(_), ReplyView::Done) => ScanView::AwaitStop,
            (ScanView::AwaitWrite(_), ReplyView::IoFailed(fault)) => ScanView::Finished(
                Err(ErrorView::Io(fault)),
            ),
            (ScanView::AwaitStop, ReplyView::Done) => ScanView::Finished(Ok(())),
            (ScanView::AwaitStop, ReplyView::BluezFailed(error)) => ScanView::Finished(
                Err(ErrorView::Stop(error)),
            ),
            _ => self,
        }
    }

    /// Where the command stands after the replies, taken one after the
    /// other.
    pub open spec fn run(self, replies: Seq<ReplyView>) -> ScanView
        decreases replies.len(),
    {
        if replies.len() == 0 {
            self
        } else {
            self.run(replies.drop_last()).next(replies.last())
        }
    }
}

/// Where `scan` stands: what it waits for, or how it ended.
#[derive(Debug)]
pub enum Scan {
    AwaitStart { duration: u8, shape: Shape, keys: Vec<ScanColumn> },
    AwaitSleep { duration: u8, shape: Shape, keys: Vec<ScanColumn> },
    AwaitDevices { shape: Shape, keys: Vec<ScanColumn> },
    AwaitWrite(String),
    AwaitStop,
    Finished(Result<(), Error>),
}

impl View for Scan {
    type V = ScanView;

    open spec fn view(&self) -> ScanView {
        match self {
            Scan::AwaitStart { duration, shape, keys } => ScanView::AwaitStart {
                duration: *duration,
                shape: *shape,
                keys: keys@,
            },
            Scan::AwaitSleep { duration, shape, keys } => ScanView::AwaitSleep {
                duration: *duration,
                shape: *shape,
                keys: keys@,
            },
            Scan::AwaitDevices { shape, keys } => ScanView::AwaitDevices {
                shape: *shape,
                keys: keys@,
            },
            Scan::AwaitWrite(text) => ScanView::AwaitWrite(text@),
            Scan::AwaitStop => ScanView::AwaitStop,
            Scan::Finished(Ok(())) => ScanView::Finished(Ok(())),
            Scan::Finished(Err(error)) => ScanView::Finished(Err(error@)),
        }
    }
}

/// Begins `scan`: it has discovery started, waits for the given time, reads
/// the devices that were discovered, writes them in the shape and the
/// columns asked for, and has discovery stopped.
pub fn scan(args: &ScanArgs) -> (command: Scan)
    ensures
        command@ == (ScanView::AwaitStart {
            duration: args.duration,
            shape: shape_of(*args),
            keys: keys_of(*args),
        }),
{
    let (shape, keys) = match (&args.columns, &args.values) {
        (None, None) => (Shape::Pretty, default_listing_keys()),
        (None, Some(values)) => (Shape::Terse, keys_or_default(values)),
        (Some(columns), _) => (Shape::Pretty, keys_or_default(columns)),
    };
    Scan::AwaitStart { duration: args.duration, shape, keys }
}

impl Scan {
    /// What the command waits for; nothing once it has finished.
    pub fn pending(&self) -> (request: Option<Request>)
        ensures
            request.deep_view() == self@.pending(),
    {
        match self {
            Scan::AwaitStart { .. } => Some(Request::Bluez(Call::StartDiscovery)),
            Scan::AwaitSleep { duration, .. } => Some(Request::Sleep(*duration as u64)),
            Scan::AwaitDevices { .. } => Some(Request::Bluez(Call::ScannedDevices)),
            Scan::AwaitWrite(text) => Some(Request::Write(text.clone())),
            Scan::AwaitStop => Some(Request::Bluez(Call::StopDiscovery)),
            Scan::Finished(_) => None,
        }
    }

    /// Takes the reply to what the command waited for.
    pub fn step(self, reply: Reply) -> (command: Scan)
        ensures
            command@ == self@.next(reply@),
    {
        match (self, reply) {
            (Scan::AwaitStart { duration, shape, keys }, Reply::Done) => Scan::AwaitSleep {
                duration,
                shape,
                keys,
            },
            (Scan::AwaitStart { .. }, Reply::BluezFailed(error)) => Scan::Finished(
                Err(Error::Start(error)),
            ),
            (Scan::AwaitSleep { shape, keys, .. }, Reply::Done) => Scan::AwaitDevices {
                shape,
                keys,
            },
            (Scan::AwaitDevices { shape, keys }, Reply::Devices(devices)) => Scan::AwaitWrite(
                render(shape, &keys, &devices),
            ),
            (Scan::AwaitDevices { .. }, Reply::BluezFailed(error)) => Scan::Finished(
                Err(Error::DiscoveredDevices(error)),
            ),
            (Scan::AwaitWrite(_), Reply::Done) => Scan::AwaitStop,
            (Scan::AwaitWrite(_), Reply::IoFailed(fault)) => Scan::Finished(Err(Error::Io(fault))),
            (Scan::AwaitStop, Reply::Done) => Scan::Finished(Ok(())),
            (Scan::AwaitStop, Reply::BluezFailed(error)) => Scan::Finished(
                Err(Error::Stop(error)),
            ),
            (command, _) => command,
        }
    }

    /// How the command ended; nothing while it still waits.
    pub fn outcome(self) -> (outcome: Option<Result<(), Error>>)
        ensures
            match (outcome, self@) {
                (Some(Ok(())), ScanView::Finished(Ok(()))) => true,
                (Some(Err(error)), ScanView::Finished(Err(view))) => error@ == view,
                (None, view) => !(view is Finished),
                _ => false,
            },
    {
        match self {
            Scan::Finished(outcome) => Some(outcome),
            _ => None,
        }
    }
}

/// Where keys are named and their list is not empty, the listing has one
/// column for each of them, in the order asked for: the heading holds the
/// keys' titles, and every line the device's cells for them.
pub proof fn lemma_columns_as_asked(args: ScanArgs, devices: Seq<DeviceView>)
    requires
        named_keys(args) is Some,
        named_keys(args)->0.len() > 0,
    ensures
        keys_of(args) == named_keys(args)->0,
        titles(keys_of(args)).len() == keys_of(args).len(),
        forall|j: int|
            0 <= j < keys_of(args).len() ==> #[trigger] titles(keys_of(args))[j] == column_title(
                keys_of(args)[j],
            ),
        listing_rows(devices, keys_of(args)).len() == devices.len(),
        forall|i: int|
            0 <= i < devices.len() ==> (#[trigger] listing_rows(devices, keys_of(args))[i]).len()
                == keys_of(args).len(),
        forall|i: int, j: int|
            0 <= i < devices.len() && 0 <= j < keys_of(args).len() ==> #[trigger] listing_rows(
                devices,
                keys_of(args),
            )[i][j] == column_cell(devices[i], keys_of(args)[j]),
{
}

/// Only an answer counts: a reply that does not answer what the command
/// waits for leaves the command where it is, a reply that does moves it
/// on, and a command that has finished stays as it is.
pub proof fn lemma_only_answers_count(command: ScanView, reply: ReplyView)
    ensures
        match command.pending() {
            Some(request) => answers(request, reply) <==> command.next(reply) != command,
            None => command.next(reply) == command,
        },
{
}

/// Where `scan` begins for the arguments.
pub open spec fn begin(args: ScanArgs) -> ScanView {
    ScanView::AwaitStart { duration: args.duration, shape: shape_of(args), keys: keys_of(args) }
}

/// While nothing fails, `scan` has discovery started, sleeps for the time
/// asked for, reads the discovered devices, writes their listing, and has
/// discovery stopped. Where that last call fails, the command fails on it
/// although the listing is written.
pub proof fn lemma_scan_in_order(args: ScanArgs, devices: Seq<DeviceView>, error: bluez::ErrorView)
    ensures
        begin(args).pending() == Some(RequestView::Bluez(CallView::StartDiscovery)),
        begin(args).run(seq![ReplyView::Done]).pending() == Some(
            RequestView::Sleep(args.duration as u64),
        ),
        begin(args).run(seq![ReplyView::Done, ReplyView::Done]).pending() == Some(
            RequestView::Bluez(CallView::ScannedDevices),
        ),
        begin(args).run(
            seq![ReplyView::Done, ReplyView::Done, ReplyView::Devices(devices)],
        ).pending() == Some(
            RequestView::Write(listing(shape_of(args), keys_of(args), devices)),
        ),
        begin(args).run(
            seq![ReplyView::Done, ReplyView::Done, ReplyView::Devices(devices), ReplyView::Done],
        ).pending() == Some(RequestView::Bluez(CallView::StopDiscovery)),
        begin(args).run(
            seq![
                ReplyView::Done,
                ReplyView::Done,
                ReplyView::Devices(devices),
                ReplyView::Done,
                ReplyView::Done,
            ],
        ) == ScanView::Finished(Ok(())),
        begin(args).run(
            seq![
                ReplyView::Done,
                ReplyView::Done,
                ReplyView::Devices(devices),
                ReplyView::Done,
                ReplyView::BluezFailed(error),
            ],
        ) == ScanView::Finished(Err(ErrorView::Stop(error))),
{
    let start = begin(args);
    let one = seq![ReplyView::Done];
    let two = seq![ReplyView::Done, ReplyView::Done];
    let three = seq![ReplyView::Done, ReplyView::Done, ReplyView::Devices(devices)];
    let four = seq![ReplyView::Done, ReplyView::Done, ReplyView::Devices(devices), ReplyView::Done];
    let stopped = four.push(ReplyView::Done);
    let failed = four.push(ReplyView::BluezFailed(error));
    assert(start.run(one.drop_last()) == start);
    assert(two.drop_last() =~= one);
    assert(three.drop_last() =~= two);
    assert(four.drop_last() =~= three);
    assert(stopped.drop_last() =~= four);
    assert(failed.drop_last() =~= four);
    assert(stopped =~= seq![
        ReplyView::Done,
        ReplyView::Done,
        ReplyView::Devices(devices),
        ReplyView::Done,
        ReplyView::Done,
    ]);
    assert(failed =~= seq![
        ReplyView::Done,
        ReplyView::Done,
        ReplyView::Devices(devices),
        ReplyView::Done,
        ReplyView::BluezFailed(error),
    ]);
}

} // verus!
