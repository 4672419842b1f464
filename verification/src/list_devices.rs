//! The `list-devices` command: the devices that the service knows, as a
//! table or in the terse shape, all of them or those of one status.

use crate::bluez;
use crate::bluez::{BluezDevice, DeviceView};
use crate::format::{
    copy_of, grid, listing_text, rows_of, titles, to_listing, Shape, TableColumn, TableFormattable,
};
use crate::session::{
    answers, Call, CallView, IoFault, Reply, ReplyView, Request, RequestView,
};
use crate::text::{truth, truth_string};
use vstd::prelude::*;

verus! {

/// A failure of `list-devices` as the contracts see it.
pub enum ErrorView {
    Bluez(bluez::ErrorView),
    Io(Seq<char>),
}

impl ErrorView {
    /// The line that describes the failure.
    pub open spec fn message(self) -> Seq<char> {
        match self {
            ErrorView::Bluez(error) => "list-devices: bluez error: "@ + error.message(),
            ErrorView::Io(fault) => "list-devices: io error: "@ + fault,
        }
    }
}

/// How `list-devices` fails.
#[derive(Debug)]
pub enum Error {
    /// The client could not give the devices.
    Bluez(bluez::Error),
    /// The listing could not be written.
    Io(IoFault),
}

impl View for Error {
    type V = ErrorView;

    open spec fn view(&self) -> ErrorView {
        match self {
            Error::Bluez(error) => ErrorView::Bluez(error@),
            Error::Io(fault) => ErrorView::Io(fault@),
        }
    }
}

impl Error {
    /// The line that describes the failure.
    pub fn to_string(&self) -> (text: String)
        ensures
            text@ == self@.message(),
    {
        match self {
            Error::Bluez(error) => {
                let mut text = String::from_str("list-devices: bluez error: ");
                text.append(error.to_string().as_str());
                text
            },
            Error::Io(fault) => {
                let mut text = String::from_str("list-devices: io error: ");
                text.append(fault.message());
                text
            },
        }
    }
}

/// A column of the listing.
#[derive(Debug, Clone, Copy, PartialEq, Eq, Structural)]
pub enum ListDevicesColumn {
    Alias,
    Address,
    Connected,
    Trusted,
    Bonded,
    Paired,
}

/// A status by which the devices can be picked.
#[derive(Debug, Clone, Copy, PartialEq, Eq, Structural)]
pub enum DeviceStatus {
    Connected,
    Trusted,
    Bonded,
    Paired,
}

/// What `list-devices` is asked for.
#[derive(Debug)]
pub struct ListDevicesArgs {
    /// The columns of the table.
    pub columns: Option<Vec<ListDevicesColumn>>,
    /// The columns of the terse listing.
    pub values: Option<Vec<ListDevicesColumn>>,
    /// The status that a device must have to be listed.
    pub status: Option<DeviceStatus>,
}

/// The heading of a column.
pub open spec fn column_title(column: ListDevicesColumn) -> Seq<char> {
    match column {
        ListDevicesColumn::Alias => "ALIAS"@,
        ListDevicesColumn::Address => "ADDRESS"@,
        ListDevicesColumn::Connected => "CONNECTED"@,
        ListDevicesColumn::Trusted => "TRUSTED"@,
        ListDevicesColumn::Bonded => "BONDED"@,
        ListDevicesColumn::Paired => "PAIRED"@,
    }
}

/// What a device shows in a column.
pub open spec fn column_cell(device: DeviceView, column: ListDevicesColumn) -> Seq<char> {
    match column {
        ListDevicesColumn::Alias => device.alias,
        ListDevicesColumn::Address => device.address,
        ListDevicesColumn::Connected => truth(device.connected),
        ListDevicesColumn::Trusted => truth(device.trusted),
        ListDevicesColumn::Bonded => truth(device.bonded),
        ListDevicesColumn::Paired => truth(device.paired),
    }
}

/// Whether a device has the status.
pub open spec fn status_holds(device: DeviceView, status: DeviceStatus) -> bool {
    match status {
        DeviceStatus::Connected => device.connected,
        DeviceStatus::Trusted => device.trusted,
        DeviceStatus::Bonded => device.bonded,
        DeviceStatus::Paired => device.paired,
    }
}

/// Whether a device is listed: without a status every device is.
pub open spec fn is_listed(device: DeviceView, status: Option<DeviceStatus>) -> bool {
    match status {
        Some(status) => status_holds(device, status),
        None => true,
    }
}

/// The devices that are listed, in the order in which they came.
pub open spec fn listed(devices: Seq<DeviceView>, status: Option<DeviceStatus>) -> Seq<
    DeviceView,
> {
    devices.filter(|device: DeviceView| is_listed(device, status))
}

/// The six columns, in the order in which the table shows them when none
/// is asked for.
pub open spec fn default_columns() -> Seq<ListDevicesColumn> {
    seq![
        ListDevicesColumn::Alias,
        ListDevicesColumn::Address,
        ListDevicesColumn::Connected,
        ListDevicesColumn::Trusted,
        ListDevicesColumn::Bonded,
        ListDevicesColumn::Paired,
    ]
}

/// The shape asked for: terse where only terse values are named, a table in
/// every other case.
pub open spec fn shape_of(args: ListDevicesArgs) -> Shape {
    if args.columns is None && args.values is Some {
        Shape::Terse
    } else {
        Shape::Pretty
    }
}

/// The columns asked for: those of the table where they are named, else
/// those of the terse listing, else the default ones.
pub open spec fn keys_of(args: ListDevicesArgs) -> Seq<ListDevicesColumn> {
    match (args.columns, args.values) {
        (Some(columns), _) => columns@,
        (None, Some(values)) => values@,
        (None, None) => default_columns(),
    }
}

/// The cells of the devices in the columns.
pub open spec fn listing_rows(devices: Seq<DeviceView>, keys: Seq<ListDevicesColumn>) -> Seq<
    Seq<Seq<char>>,
> {
    rows_of(devices, keys, |device: DeviceView, column: ListDevicesColumn| column_cell(device, column))
}

/// What `list-devices` prints for the devices that the client gave.
pub open spec fn listing(
    shape: Shape,
    keys: Seq<ListDevicesColumn>,
    status: Option<DeviceStatus>,
    devices: Seq<DeviceView>,
) -> Seq<char> {
    listing_text(shape, titles(keys), listing_rows(listed(devices, status), keys))
}

impl TableColumn for ListDevicesColumn {
    open spec fn title(&self) -> Seq<char> {
        column_title(*self)
    }

    fn to_title(&self) -> (title: String) {
        match self {
            ListDevicesColumn::Alias => String::from_str("ALIAS"),
            ListDevicesColumn::Address => String::from_str("ADDRESS"),
            ListDevicesColumn::Connected => String::from_str("CONNECTED"),
            ListDevicesColumn::Trusted => String::from_str("TRUSTED"),
            ListDevicesColumn::Bonded => String::from_str("BONDED"),
            ListDevicesColumn::Paired => String::from_str("PAIRED"),
        }
    }
}

impl TableFormattable<ListDevicesColumn> for BluezDevice {
    open spec fn cell(&self, column: &ListDevicesColumn) -> Seq<char> {
        column_cell(self@, *column)
    }

    fn get_cell_value_by_column(&self, column: &ListDevicesColumn) -> (value: String) {
        match column {
            ListDevicesColumn::Alias => String::from_str(self.alias()),
            ListDevicesColumn::Address => String::from_str(self.address()),
            ListDevicesColumn::Connected => truth_string(self.connected()),
            ListDevicesColumn::Trusted => truth_string(self.trusted()),
            ListDevicesColumn::Bonded => truth_string(self.bonded()),
            ListDevicesColumn::Paired => truth_string(self.paired()),
        }
    }
}

/// A record that can be asked whether it has a status.
pub trait TableCellFilter {
    /// Whether the record has the status.
    spec fn has_status(&self, key: &DeviceStatus) -> bool;

    /// Whether the record has the status.
    fn filter_cell_value_by_status(&self, key: &DeviceStatus) -> (keep: bool)
        ensures
            keep == self.has_status(key),
    ;
}

impl TableCellFilter for BluezDevice {
    open spec fn has_status(&self, key: &DeviceStatus) -> bool {
        status_holds(self@, *key)
    }

    fn filter_cell_value_by_status(&self, key: &DeviceStatus) -> (keep: bool) {
        match key {
            DeviceStatus::Connected => self.connected(),
            DeviceStatus::Trusted => self.trusted(),
            DeviceStatus::Bonded => self.bonded(),
            DeviceStatus::Paired => self.paired(),
        }
    }
}

/// The six default columns.
pub fn default_listing_columns() -> (columns: Vec<ListDevicesColumn>)
    ensures
        columns@ == default_columns(),
{
    let mut columns: Vec<ListDevicesColumn> = Vec::new();
    columns.push(ListDevicesColumn::Alias);
    columns.push(ListDevicesColumn::Address);
    columns.push(ListDevicesColumn::Connected);
    columns.push(ListDevicesColumn::Trusted);
    columns.push(ListDevicesColumn::Bonded);
    columns.push(ListDevicesColumn::Paired);
    columns
}

/// The devices that are listed under the status.
pub fn pick(devices: &Vec<BluezDevice>, status: &Option<DeviceStatus>) -> (picked: Vec<
    BluezDevice,
>)
    ensures
        picked.deep_view() == listed(devices.deep_view(), *status),
{
    let ghost keep = |device: DeviceView| is_listed(device, *status);
    let mut picked: Vec<BluezDevice> = Vec::new();
    let mut i: usize = 0;
    proof {
        reveal(Seq::filter);
    }
    while i < devices.len()
        invariant
            i <= devices.len(),
            keep == |device: DeviceView| is_listed(device, *status),
            picked.deep_view() == devices.deep_view().take(i as int).filter(keep),
        decreases devices.len() - i,
    {
        let device = &devices[i];
        let listed = match status {
            Some(status) => device.filter_cell_value_by_status(status),
            None => true,
        };
        proof {
            reveal(Seq::filter);
            let next = devices.deep_view().take(i as int + 1);
            assert(next.drop_last() =~= devices.deep_view().take(i as int));
        }
        if listed {
            picked.push(device.clone());
        }
        i = i + 1;
    }
    proof {
        assert(devices.deep_view().take(devices.len() as int) =~= devices.deep_view());
    }
    picked
}

/// Writes out what `list-devices` prints.
pub fn render(
    shape: Shape,
    keys: &Vec<ListDevicesColumn>,
    status: &Option<DeviceStatus>,
    devices: &Vec<BluezDevice>,
) -> (text: String)
    ensures
        text@ == listing(shape, keys@, *status, devices.deep_view()),
{
    let picked = pick(devices, status);
    proof {
        assert(grid(picked@, keys@) =~~= listing_rows(picked.deep_view(), keys@));
    }
    to_listing(&picked, keys.as_slice(), shape)
}

/// Where `list-devices` stands, as the contracts see it.
pub enum ListDevicesView {
    AwaitDevices { shape: Shape, keys: Seq<ListDevicesColumn>, status: Option<DeviceStatus> },
    AwaitWrite(Seq<char>),
    Finished(Result<(), ErrorView>),
}

impl ListDevicesView {
    /// What the command waits for; nothing once it has finished.
    pub open spec fn pending(self) -> Option<RequestView> {
        match self {
            ListDevicesView::AwaitDevices { .. } => Some(RequestView::Bluez(CallView::Devices)),
            ListDevicesView::AwaitWrite(text) => Some(RequestView::Write(text)),
            ListDevicesView::Finished(_) => None,
        }
    }

    /// Where the command stands after the reply. A reply that does not
    /// answer what the command waits for leaves it where it is.
    pub open spec fn next(self, reply: ReplyView) -> ListDevicesView {
        match (self, reply) {
            (ListDevicesView::AwaitDevices { shape, keys, status }, ReplyView::Devices(devices)) => {
                ListDevicesView::AwaitWrite(listing(shape, keys, status, devices))
            },
            (ListDevicesView::AwaitDevices { .. }, ReplyView::BluezFailed(error)) => {
                ListDevicesView::Finished(Err(ErrorView::Bluez(error)))
            },
            (ListDevicesView::AwaitWrite(_), ReplyView::Done) => ListDevicesView::Finished(Ok(())),
            (ListDevicesView::AwaitWrite(_), ReplyView::IoFailed(fault)) => {
                ListDevicesView::Finished(Err(ErrorView::Io(fault)))
            },
            _ => self,
        }
    }
}

/// Where `list-devices` stands: what it waits for, or how it ended.
#[derive(Debug)]
pub enum ListDevices {
    AwaitDevices { shape: Shape, keys: Vec<ListDevicesColumn>, status: Option<DeviceStatus> },
    AwaitWrite(String),
    Finished(Result<(), Error>),
}

impl View for ListDevices {
    type V = ListDevicesView;

    open spec fn view(&self) -> ListDevicesView {
        match self {
            ListDevices::AwaitDevices { shape, keys, status } => ListDevicesView::AwaitDevices {
                shape: *shape,
                keys: keys@,
                status: *status,
            },
            ListDevices::AwaitWrite(text) => ListDevicesView::AwaitWrite(text@),
            ListDevices::Finished(Ok(())) => ListDevicesView::Finished(Ok(())),
            ListDevices::Finished(Err(error)) => ListDevicesView::Finished(Err(error@)),
        }
    }
}

/// Begins `list-devices`: it asks for the known devices and then writes
/// those of the wanted status in the shape and the columns asked for.
pub fn list_devices(args: &ListDevicesArgs) -> (command: ListDevices)
    ensures
        command@ == (ListDevicesView::AwaitDevices {
            shape: shape_of(*args),
            keys: keys_of(*args),
            status: args.status,
        }),
{
    let (shape, keys) = match (&args.columns, &args.values) {
        (None, None) => (Shape::Pretty, default_listing_columns()),
        (None, Some(values)) => (Shape::Terse, copy_of(values)),
        (Some(columns), _) => (Shape::Pretty, copy_of(columns)),
    };
    ListDevices::AwaitDevices { shape, keys, status: args.status }
}

impl ListDevices {
    /// What the command waits for; nothing once it has finished.
    pub fn pending(&self) -> (request: Option<Request>)
        ensures
            request.deep_view() == self@.pending(),
    {
        match self {
            ListDevices::AwaitDevices { .. } => Some(Request::Bluez(Call::Devices)),
            ListDevices::AwaitWrite(text) => Some(Request::Write(text.clone())),
            ListDevices::Finished(_) => None,
        }
    }

    /// Takes the reply to what the command waited for.
    pub fn step(self, reply: Reply) -> (command: ListDevices)
        ensures
            command@ == self@.next(reply@),
    {
        match (self, reply) {
            (ListDevices::AwaitDevices { shape, keys, status }, Reply::Devices(devices)) => {
                ListDevices::AwaitWrite(render(shape, &keys, &status, &devices))
            },
            (ListDevices::AwaitDevices { .. }, Reply::BluezFailed(error)) => ListDevices::Finished(
                Err(Error::Bluez(error)),
            ),
            (ListDevices::AwaitWrite(_), Reply::Done) => ListDevices::Finished(Ok(())),
            (ListDevices::AwaitWrite(_), Reply::IoFailed(fault)) => ListDevices::Finished(
                Err(Error::Io(fault)),
            ),
            (command, _) => command,
        }
    }

    /// How the command ended; nothing while it still waits.
    pub fn outcome(self) -> (outcome: Option<Result<(), Error>>)
        ensures
            match (outcome, self@) {
                (Some(Ok(())), ListDevicesView::Finished(Ok(()))) => true,
                (Some(Err(error)), ListDevicesView::Finished(Err(view))) => error@ == view,
                (None, view) => !(view is Finished),
                _ => false,
            },
    {
        match self {
            ListDevices::Finished(outcome) => Some(outcome),
            _ => None,
        }
    }
}

/// Every device that is listed under a status has that status, the listed
/// devices are never more than the devices given, and without a status all
/// of them are listed.
pub proof fn lemma_listed_have_status(devices: Seq<DeviceView>, status: Option<DeviceStatus>)
    ensures
        forall|i: int|
            0 <= i < listed(devices, status).len() ==> is_listed(
                #[trigger] listed(devices, status)[i],
                status,
            ),
        listed(devices, status).len() <= devices.len(),
        status is None ==> listed(devices, status) == devices,
    decreases devices.len(),
{
    reveal(Seq::filter);
    if devices.len() > 0 {
        lemma_listed_have_status(devices.drop_last(), status);
    }
}

/// In the terse shape the listing under a status is never longer than the
/// listing of all the devices.
pub proof fn lemma_terse_listing_shrinks(
    keys: Seq<ListDevicesColumn>,
    status: Option<DeviceStatus>,
    devices: Seq<DeviceView>,
)
    ensures
        listing(Shape::Terse, keys, status, devices).len() <= listing(
            Shape::Terse,
            keys,
            None,
            devices,
        ).len(),
{
    let cell = |device: DeviceView, column: ListDevicesColumn| column_cell(device, column);
    lemma_listed_have_status(devices, None);
    crate::format::lemma_terse_text_of_fewer(
        devices,
        |device: DeviceView| is_listed(device, status),
        keys,
        cell,
    );
}

/// The listing has one column for each key asked for, in the order asked
/// for: the heading holds the keys' titles, and every line the device's
/// cells for them.
pub proof fn lemma_columns_as_asked(args: ListDevicesArgs, devices: Seq<DeviceView>)
    ensures
        args.columns is Some ==> keys_of(args) == args.columns->0@,
        args.columns is None && args.values is Some ==> keys_of(args) == args.values->0@,
        titles(keys_of(args)).len() == keys_of(args).len(),
        forall|j: int|
            0 <= j < keys_of(args).len() ==> #[trigger] titles(keys_of(args))[j] == column_title(
                keys_of(args)[j],
            ),
        listing_rows(devices, keys_of(args)).len() == devices.len(),
        forall|i: int|
            0 <= i < devices.len() ==> (#[trigger] listing_rows(devices, keys_of(args))[i]).len()
                == keys_of(args).len(),
        forall|i: int, j: int|
            0 <= i < devices.len() && 0 <= j < keys_of(args).len() ==> #[trigger] listing_rows(
                devices,
                keys_of(args),
            )[i][j] == column_cell(devices[i], keys_of(args)[j]),
{
}

/// Only an answer counts: a reply that does not answer what the command
/// waits for leaves the command where it is, a reply that does moves it
/// on, and a command that has finished stays as it is.
pub proof fn lemma_only_answers_count(command: ListDevicesView, reply: ReplyView)
    ensures
        match command.pending() {
            Some(request) => answers(request, reply) <==> command.next(reply) != command,
            None => command.next(reply) == command,
        },
{
}

} // verus!
