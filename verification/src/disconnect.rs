//! The `disconnect` command: disconnects the devices that are named, or
//! lets the user pick among the connected ones. With `force` it removes
//! them from the known devices instead.

use crate::bluez;
use crate::bluez::{BluezDevice, DeviceView};
use crate::format::{grid, pretty_text, titles, PrettyFormatter, TableColumn, TableFormattable};
use crate::session::{
    answers, Call, CallView, IoFault, Reply, ReplyView, Request, RequestView,
};
use crate::text::{
    decimal, decimal_string, entered, lemma_entered_reads_back, lemma_split_without_separator,
    parse_u8, parsed_u8, split, split_on, trim, trimmed,
};
use vstd::prelude::*;

verus! {

/// A failure of `disconnect` as the contracts see it.
pub enum ErrorView {
    Bluez(bluez::ErrorView),
    InvalidAlias,
    NoConnectedDevices,
    Io(Seq<char>),
}

impl ErrorView {
    /// The line that describes the failure.
    pub open spec fn message(self) -> Seq<char> {
        match self {
            ErrorView::InvalidAlias => "disconnect: the provided alias is invalid"@,
            ErrorView::Io(fault) => "disconnect: io error: "@ + fault,
            ErrorView::NoConnectedDevices => "disconnect: there are no connected devices to disconnect"@,
            ErrorView::Bluez(error) => "disconnect: bluez error: "@ + error.message(),
        }
    }
}

/// How `disconnect` fails.
#[derive(Debug)]
pub enum Error {
    /// The client failed.
    Bluez(bluez::Error),
    /// The user's answer does not name devices shown, each once.
    InvalidAlias,
    /// No device is connected, so there is none to pick.
    NoConnectedDevices,
    /// A stream failed.
    Io(IoFault),
}

impl View for Error {
    type V = ErrorView;

    open spec fn view(&self) -> ErrorView {
        match self {
            Error::Bluez(error) => ErrorView::Bluez(error@),
            Error::InvalidAlias => ErrorView::InvalidAlias,
            Error::NoConnectedDevices => ErrorView::NoConnectedDevices,
            Error::Io(fault) => ErrorView::Io(fault@),
        }
    }
}

impl Error {
    /// The line that describes the failure.
    pub fn to_string(&self) -> (text: String)
        ensures
            text@ == self@.message(),
    {
        match self {
            Error::InvalidAlias => String::from_str("disconnect: the provided alias is invalid"),
            Error::Io(fault) => {
                let mut text = String::from_str("disconnect: io error: ");
                text.append(fault.message());
                text
            },
            Error::NoConnectedDevices => String::from_str(
                "disconnect: there are no connected devices to disconnect",
            ),
            Error::Bluez(error) => {
                let mut text = String::from_str("disconnect: bluez error: ");
                text.append(error.to_string().as_str());
                text
            },
        }
    }
}

/// A column of the table from which the user picks.
#[derive(Debug, Clone, Copy, PartialEq, Eq, Structural)]
pub enum DisconnectColumn {
    Idx,
    Alias,
    Address,
}

/// The heading of a column.
pub open spec fn column_title(column: DisconnectColumn) -> Seq<char> {
    match column {
        DisconnectColumn::Idx => "IDX"@,
        DisconnectColumn::Alias => "ALIAS"@,
        DisconnectColumn::Address => "ADDRESS"@,
    }
}

/// What the device with the given index shows in a column.
pub open spec fn column_cell(index: int, device: DeviceView, column: DisconnectColumn) -> Seq<
    char,
> {
    match column {
        DisconnectColumn::Idx => decimal(index),
        DisconnectColumn::Alias => device.alias,
        DisconnectColumn::Address => device.address,
    }
}

/// The three columns of the table, in their order.
pub open spec fn selection_columns() -> Seq<DisconnectColumn> {
    seq![DisconnectColumn::Idx, DisconnectColumn::Alias, DisconnectColumn::Address]
}

/// The lines of the table: the devices in their order, each under its
/// index, counted from 0.
pub open spec fn selection_rows(devices: Seq<DeviceView>) -> Seq<Seq<Seq<char>>> {
    Seq::new(
        devices.len(),
        |i: int|
            Seq::new(
                selection_columns().len(),
                |j: int| column_cell(i, devices[i], selection_columns()[j]),
            ),
    )
}

/// What the user is shown: the table of the devices, and below it the
/// question.
pub open spec fn prompt(devices: Seq<DeviceView>) -> Seq<char> {
    pretty_text(titles(selection_columns()), selection_rows(devices)) + "\n"@
        + "Select the device(s) you wish to disconnect: "@
}

/// The indices that the pieces of an answer name, in their order. Every
/// piece, without the white space around it, must be the index of one of
/// `count` devices, and no index may come twice: else the pieces name
/// nothing.
pub open spec fn chosen(pieces: Seq<Seq<char>>, count: nat) -> Option<Seq<int>>
    decreases pieces.len(),
{
    if pieces.len() == 0 {
        Some(Seq::<int>::empty())
    } else {
        match (chosen(pieces.drop_last(), count), parsed_u8(trimmed(pieces.last()))) {
            (Some(before), Some(index)) if index < count && !before.contains(index as int) => Some(
                before.push(index as int),
            ),
            _ => None,
        }
    }
}

/// The aliases of the devices with the given indices.
pub open spec fn aliases_at(indices: Seq<int>, devices: Seq<DeviceView>) -> Seq<Seq<char>> {
    Seq::new(indices.len(), |k: int| devices[indices[k]].alias)
}

/// The aliases that the user's answer picks among the devices shown. The
/// answer is a list of indices with commas between them.
pub open spec fn answer_of(line: Seq<char>, devices: Seq<DeviceView>) -> Result<
    Seq<Seq<char>>,
    ErrorView,
> {
    if devices.len() == 0 {
        Err(ErrorView::NoConnectedDevices)
    } else {
        match chosen(split_on(line, ','), devices.len()) {
            Some(indices) => Ok(aliases_at(indices, devices)),
            None => Err(ErrorView::InvalidAlias),
        }
    }
}

/// The call that acts on a device: with `force` its removal, else its
/// disconnection.
pub open spec fn action(force: bool, alias: Seq<char>) -> CallView {
    if force {
        CallView::Remove(alias)
    } else {
        CallView::Disconnect(alias)
    }
}

/// What `disconnect` prints once a device was acted on.
pub open spec fn done_text(force: bool, alias: Seq<char>) -> Seq<char> {
    if force {
        "removed device "@ + alias + " (forced)\n"@
    } else {
        "disconnected from device "@ + alias + "\n"@
    }
}

impl TableColumn for DisconnectColumn {
    open spec fn title(&self) -> Seq<char> {
        column_title(*self)
    }

    fn to_title(&self) -> (title: String) {
        match self {
            DisconnectColumn::Idx => String::from_str("IDX"),
            DisconnectColumn::Alias => String::from_str("ALIAS"),
            DisconnectColumn::Address => String::from_str("ADDRESS"),
        }
    }
}

impl TableFormattable<DisconnectColumn> for (usize, BluezDevice) {
    open spec fn cell(&self, column: &DisconnectColumn) -> Seq<char> {
        column_cell(self.0 as int, self.1@, *column)
    }

    fn get_cell_value_by_column(&self, column: &DisconnectColumn) -> (value: String) {
        match column {
            DisconnectColumn::Idx => decimal_string(self.0 as i128),
            DisconnectColumn::Alias => String::from_str(self.1.alias()),
            DisconnectColumn::Address => String::from_str(self.1.address()),
        }
    }
}

/// Writes out what the user is shown.
pub fn render_prompt(devices: &Vec<BluezDevice>) -> (text: String)
    ensures
        text@ == prompt(devices.deep_view()),
{
    let mut columns: Vec<DisconnectColumn> = Vec::new();
    columns.push(DisconnectColumn::Idx);
    columns.push(DisconnectColumn::Alias);
    columns.push(DisconnectColumn::Address);
    let mut numbered: Vec<(usize, BluezDevice)> = Vec::new();
    let mut i: usize = 0;
    while i < devices.len()
        invariant
            i <= devices.len(),
            numbered.len() == i,
            forall|k: int|
                0 <= k < i ==> (#[trigger] numbered[k]).0 == k && numbered[k].1@
                    == devices.deep_view()[k],
        decreases devices.len() - i,
    {
        numbered.push((i, devices[i].clone()));
        i = i + 1;
    }
    proof {
        assert(columns@ =~= selection_columns());
        assert(grid(numbered@, columns@) =~~= selection_rows(devices.deep_view()));
    }
    let mut text = numbered.to_pretty(columns.as_slice());
    text.append("\n");
    text.append("Select the device(s) you wish to disconnect: ");
    text
}

/// Once the first pieces of an answer name nothing, the whole answer names
/// nothing.
pub proof fn lemma_chosen_stays_none(pieces: Seq<Seq<char>>, count: nat, k: int)
    requires
        0 <= k <= pieces.len(),
        chosen(pieces.take(k), count) is None,
    ensures
        chosen(pieces, count) is None,
    decreases pieces.len() - k,
{
    if k < pieces.len() {
        assert(pieces.take(k + 1).drop_last() =~= pieces.take(k));
        lemma_chosen_stays_none(pieces, count, k + 1);
    } else {
        assert(pieces.take(k) =~= pieces);
    }
}

/// The aliases of the devices that the user's answer picks.
pub fn get_aliases_from_user(line: &str, devices: &Vec<BluezDevice>) -> (aliases: Result<
    Vec<String>,
    Error,
>)
    ensures
        match aliases {
            Ok(aliases) => answer_of(line@, devices.deep_view()) == Ok::<Seq<Seq<char>>, ErrorView>(
                aliases.deep_view(),
            ),
            Err(error) => answer_of(line@, devices.deep_view()) == Err::<Seq<Seq<char>>, ErrorView>(
                error@,
            ),
        },
{
    let count: usize = devices.len();
    if count == 0 {
        return Err(Error::NoConnectedDevices);
    }
    let pieces = split(line, ',');
    let mut taken: Vec<bool> = Vec::new();
    let mut t: usize = 0;
    while t < count
        invariant
            t <= count,
            taken.len() == t,
            forall|i: int| 0 <= i < t ==> !(#[trigger] taken[i]),
        decreases count - t,
    {
        taken.push(false);
        t = t + 1;
    }
    let mut aliases: Vec<String> = Vec::new();
    let ghost mut indices: Seq<int> = Seq::<int>::empty();
    let mut k: usize = 0;
    while k < pieces.len()
        invariant
            k <= pieces.len(),
            count == devices.len(),
            count > 0,
            pieces.deep_view() == split_on(line@, ','),
            taken.len() == count,
            chosen(pieces.deep_view().take(k as int), count as nat) == Some(indices),
            forall|i: int| 0 <= i < count ==> (#[trigger] taken[i]) == indices.contains(i),
            aliases.deep_view() == aliases_at(indices, devices.deep_view()),
        decreases pieces.len() - k,
    {
        proof {
            let next = pieces.deep_view().take(k as int + 1);
            assert(next.drop_last() =~= pieces.deep_view().take(k as int));
        }
        let parsed = parse_u8(trim(pieces[k].as_str()));
        let valid = match parsed {
            Some(index) => (index as usize) < count && !taken[index as usize],
            None => false,
        };
        if !valid {
            proof {
                lemma_chosen_stays_none(pieces.deep_view(), count as nat, k as int + 1);
            }
            return Err(Error::InvalidAlias);
        }
        let index: usize = match parsed {
            Some(index) => index as usize,
            None => 0,
        };
        let ghost before = aliases.deep_view();
        let ghost so_far = indices;
        taken.set(index, true);
        aliases.push(String::from_str(devices[index].alias()));
        proof {
            indices = so_far.push(index as int);
            assert(aliases.deep_view() =~= before.push(devices.deep_view()[index as int].alias));
            assert forall|i: int| 0 <= i < count implies (#[trigger] taken[i]) == indices.contains(
                i,
            ) by {
                if i == index {
                    assert(indices[so_far.len() as int] == i);
                } else if so_far.contains(i) {
                    let at = choose|at: int| 0 <= at < so_far.len() && so_far[at] == i;
                    assert(indices[at] == i);
                }
            }
        }
        k = k + 1;
    }
    proof {
        assert(pieces.deep_view().take(pieces.len() as int) =~= pieces.deep_view());
    }
    Ok(aliases)
}

/// Where `disconnect` stands, as the contracts see it.
pub enum DisconnectView {
    AwaitDevices { force: bool },
    AwaitPrompt { force: bool, devices: Seq<DeviceView>, text: Seq<char> },
    AwaitFlush { force: bool, devices: Seq<DeviceView> },
    AwaitLine { force: bool, devices: Seq<DeviceView> },
    AwaitAction { force: bool, current: Seq<char>, rest: Seq<Seq<char>> },
    AwaitWrite { force: bool, text: Seq<char>, rest: Seq<Seq<char>> },
    Finished(Result<(), ErrorView>),
}

/// Where `disconnect` stands when it turns to the given aliases: at the
/// first of them, or at its end where there is none.
pub open spec fn act_on(force: bool, aliases: Seq<Seq<char>>) -> DisconnectView {
    if aliases.len() == 0 {
        DisconnectView::Finished(Ok(()))
    } else {
        DisconnectView::AwaitAction { force, current: aliases[0], rest: aliases.drop_first() }
    }
}

/// Where `disconnect` begins: with the aliases where they are named, else
/// with the connected devices.
pub open spec fn begin(force: bool, aliases: Option<Seq<Seq<char>>>) -> DisconnectView {
    match aliases {
        Some(aliases) => act_on(force, aliases),
        None => DisconnectView::AwaitDevices { force },
    }
}

impl DisconnectView {
    /// What the command waits for; nothing once it has finished. A device
    /// is named to the client by its alias without the white space around
    /// it.
    pub open spec fn pending(self) -> Option<RequestView> {
        match self {
            DisconnectView::AwaitDevices { .. } => Some(
                RequestView::Bluez(CallView::ConnectedDevices),
            ),
            DisconnectView::AwaitPrompt { text, .. } => Some(RequestView::Write(text)),
            DisconnectView::AwaitFlush { .. } => Some(RequestView::Flush),
            DisconnectView::AwaitLine { .. } => Some(RequestView::ReadLine),
            DisconnectView::AwaitAction { force, current, .. } => Some(
                RequestView::Bluez(action(force, trimmed(current))),
            ),
            DisconnectView::AwaitWrite { text, .. } => Some(RequestView::Write(text)),
            DisconnectView::Finished(_) => None,
        }
    }

    /// Where the command stands after the reply. A reply that does not
    /// answer what the command waits for leaves it where it is. The
    /// devices are acted on one after the other, each followed by its
    /// line of output; the first failure ends the command.
    pub open spec fn next(self, reply: ReplyView) -> DisconnectView {
        match (self, reply) {
            (DisconnectView::AwaitDevices { force }, ReplyView::Devices(devices)) => {
                if devices.len() == 0 {
                    DisconnectView::Finished(Err(ErrorView::NoConnectedDevices))
                } else {
                    DisconnectView::AwaitPrompt { force, devices, text: prompt(devices) }
                }
            },
            (DisconnectView::AwaitPrompt { force, devices, .. }, ReplyView::Done) => {
                DisconnectView::AwaitFlush { force, devices }
            },
            (DisconnectView::AwaitFlush { force, devices }, ReplyView::Done) => {
                DisconnectView::AwaitLine { force, devices }
            },
            (DisconnectView::AwaitLine { force, devices }, ReplyView::Line(line)) => {
                match answer_of(line, devices) {
                    Ok(aliases) => act_on(force, aliases),
                    Err(error) => DisconnectView::Finished(Err(error)),
                }
            },
            (DisconnectView::AwaitAction { force, current, rest }, ReplyView::Done) => {
                DisconnectView::AwaitWrite { force, text: done_text(force, trimmed(current)), rest }
            },
            (DisconnectView::AwaitWrite { force, rest, .. }, ReplyView::Done) => act_on(force, rest),
            (DisconnectView::AwaitDevices { .. }, ReplyView::BluezFailed(error))
            | (DisconnectView::AwaitAction { .. }, ReplyView::BluezFailed(error)) => {
                DisconnectView::Finished(Err(ErrorView::Bluez(error)))
            },
            (DisconnectView::AwaitPrompt { .. }, ReplyView::IoFailed(fault))
            | (DisconnectView::AwaitFlush { .. }, ReplyView::IoFailed(fault))
            | (DisconnectView::AwaitLine { .. }, ReplyView::IoFailed(fault))
            | (DisconnectView::AwaitWrite { .. }, ReplyView::IoFailed(fault)) => {
                DisconnectView::Finished(Err(ErrorView::Io(fault)))
            },
            _ => self,
        }
    }

    /// Whether the command waits for the client to disconnect or remove a
    /// device.
    pub open spec fn acts(self) -> bool {
        match self.pending() {
            Some(RequestView::Bluez(CallView::Disconnect(_))) => true,
            Some(RequestView::Bluez(CallView::Remove(_))) => true,
            _ => false,
        }
    }

    /// Where the command stands after the replies, taken one after the
    /// other.
    pub open spec fn run(self, replies: Seq<ReplyView>) -> DisconnectView
        decreases replies.len(),
    {
        if replies.len() == 0 {
            self
        } else {
            self.run(replies.drop_last()).next(replies.last())
        }
    }
}

/// Where `disconnect` stands: what it waits for, or how it ended.
#[derive(Debug)]
pub enum Disconnect {
    AwaitDevices { force: bool },
    AwaitPrompt { force: bool, devices: Vec<BluezDevice>, text: String },
    AwaitFlush { force: bool, devices: Vec<BluezDevice> },
    AwaitLine { force: bool, devices: Vec<BluezDevice> },
    AwaitAction { force: bool, current: String, rest: Vec<String> },
    AwaitWrite { force: bool, text: String, rest: Vec<String> },
    Finished(Result<(), Error>),
}

impl View for Disconnect {
    type V = DisconnectView;

    open spec fn view(&self) -> DisconnectView {
        match self {
            Disconnect::AwaitDevices { force } => DisconnectView::AwaitDevices { force: *force },
            Disconnect::AwaitPrompt { force, devices, text } => DisconnectView::AwaitPrompt {
                force: *force,
                devices: devices.deep_view(),
                text: text@,
            },
            Disconnect::AwaitFlush { force, devices } => DisconnectView::AwaitFlush {
                force: *force,
                devices: devices.deep_view(),
            },
            Disconnect::AwaitLine { force, devices } => DisconnectView::AwaitLine {
                force: *force,
                devices: devices.deep_view(),
            },
            Disconnect::AwaitAction { force, current, rest } => DisconnectView::AwaitAction {
                force: *force,
                current: current@,
                rest: rest.deep_view(),
            },
            Disconnect::AwaitWrite { force, text, rest } => DisconnectView::AwaitWrite {
                force: *force,
                text: text@,
                rest: rest.deep_view(),
            },
            Disconnect::Finished(Ok(())) => DisconnectView::Finished(Ok(())),
            Disconnect::Finished(Err(error)) => DisconnectView::Finished(Err(error@)),
        }
    }
}

/// Turns to the aliases: to the first of them, or to the end.
fn turn_to(force: bool, aliases: Vec<String>) -> (command: Disconnect)
    ensures
        command@ == act_on(force, aliases.deep_view()),
{
    let mut rest = aliases;
    if rest.len() == 0 {
        Disconnect::Finished(Ok(()))
    } else {
        let ghost all = rest.deep_view();
        let current = rest.remove(0);
        proof {
            assert(rest.deep_view() =~= all.drop_first());
        }
        Disconnect::AwaitAction { force, current, rest }
    }
}

/// A copy of the aliases.
fn copy_aliases(aliases: &Vec<String>) -> (copy: Vec<String>)
    ensures
        copy.deep_view() == aliases.deep_view(),
{
    let mut copy: Vec<String> = Vec::new();
    let mut i: usize = 0;
    while i < aliases.len()
        invariant
            i <= aliases.len(),
            copy.len() == i,
            forall|k: int| 0 <= k < i ==> (#[trigger] copy[k])@ == aliases[k]@,
        decreases aliases.len() - i,
    {
        copy.push(aliases[i].clone());
        i = i + 1;
    }
    copy
}

/// Begins `disconnect`. With aliases it acts on each of them in turn and
/// says so. Without them it reads the connected devices, shows them, asks
/// which ones are meant, and then acts on those. To act on a device is to
/// disconnect it, and with `force` to remove it.
pub fn disconnect(force: &bool, aliases: &Option<Vec<String>>) -> (command: Disconnect)
    ensures
        command@ == begin(*force, aliases.deep_view()),
{
    match aliases {
        Some(aliases) => turn_to(*force, copy_aliases(aliases)),
        None => Disconnect::AwaitDevices { force: *force },
    }
}

impl Disconnect {
    /// What the command waits for; nothing once it has finished.
    pub fn pending(&self) -> (request: Option<Request>)
        ensures
            request.deep_view() == self@.pending(),
    {
        match self {
            Disconnect::AwaitDevices { .. } => Some(Request::Bluez(Call::ConnectedDevices)),
            Disconnect::AwaitPrompt { text, .. } => Some(Request::Write(text.clone())),
            Disconnect::AwaitFlush { .. } => Some(Request::Flush),
            Disconnect::AwaitLine { .. } => Some(Request::ReadLine),
            Disconnect::AwaitAction { force, current, .. } => {
                let alias = String::from_str(trim(current.as_str()));
                if *force {
                    Some(Request::Bluez(Call::Remove(alias)))
                } else {
                    Some(Request::Bluez(Call::Disconnect(alias)))
                }
            },
            Disconnect::AwaitWrite { text, .. } => Some(Request::Write(text.clone())),
            Disconnect::Finished(_) => None,
        }
    }

    /// Takes the reply to what the command waited for.
    pub fn step(self, reply: Reply) -> (command: Disconnect)
        ensures
            command@ == self@.next(reply@),
    {
        match (self, reply) {
            (Disconnect::AwaitDevices { force }, Reply::Devices(devices)) => {
                if devices.len() == 0 {
                    Disconnect::Finished(Err(Error::NoConnectedDevices))
                } else {
                    let text = render_prompt(&devices);
                    Disconnect::AwaitPrompt { force, devices, text }
                }
            },
            (Disconnect::AwaitPrompt { force, devices, .. }, Reply::Done) => {
                Disconnect::AwaitFlush { force, devices }
            },
            (Disconnect::AwaitFlush { force, devices }, Reply::Done) => Disconnect::AwaitLine {
                force,
                devices,
            },
            (Disconnect::AwaitLine { force, devices }, Reply::Line(line)) => {
                match get_aliases_from_user(line.as_str(), &devices) {
                    Ok(aliases) => turn_to(force, aliases),
                    Err(error) => Disconnect::Finished(Err(error)),
                }
            },
            (Disconnect::AwaitAction { force, current, rest }, Reply::Done) => {
                let alias = trim(current.as_str());
                let mut text = String::new();
                if force {
                    text.append("removed device ");
                    text.append(alias);
                    text.append(" (forced)\n");
                } else {
                    text.append("disconnected from device ");
                    text.append(alias);
                    text.append("\n");
                }
                Disconnect::AwaitWrite { force, text, rest }
            },
            (Disconnect::AwaitWrite { force, rest, .. }, Reply::Done) => turn_to(force, rest),
            (Disconnect::AwaitDevices { .. }, Reply::BluezFailed(error)) => Disconnect::Finished(
                Err(Error::Bluez(error)),
            ),
            (Disconnect::AwaitAction { .. }, Reply::BluezFailed(error)) => Disconnect::Finished(
                Err(Error::Bluez(error)),
            ),
            (Disconnect::AwaitPrompt { .. }, Reply::IoFailed(fault)) => Disconnect::Finished(
                Err(Error::Io(fault)),
            ),
            (Disconnect::AwaitFlush { .. }, Reply::IoFailed(fault)) => Disconnect::Finished(
                Err(Error::Io(fault)),
            ),
            (Disconnect::AwaitLine { .. }, Reply::IoFailed(fault)) => Disconnect::Finished(
                Err(Error::Io(fault)),
            ),
            (Disconnect::AwaitWrite { .. }, Reply::IoFailed(fault)) => Disconnect::Finished(
                Err(Error::Io(fault)),
            ),
            (command, _) => command,
        }
    }

    /// How the command ended; nothing while it still waits.
    pub fn outcome(self) -> (outcome: Option<Result<(), Error>>)
        ensures
            match (outcome, self@) {
                (Some(Ok(())), DisconnectView::Finished(Ok(()))) => true,
                (Some(Err(error)), DisconnectView::Finished(Err(view))) => error@ == view,
                (None, view) => !(view is Finished),
                _ => false,
            },
    {
        match self {
            Disconnect::Finished(outcome) => Some(outcome),
            _ => None,
        }
    }
}

/// Taking replies in two batches is taking them all.
pub proof fn lemma_run_in_parts(
    start: DisconnectView,
    first: Seq<ReplyView>,
    second: Seq<ReplyView>,
)
    ensures
        start.run(first + second) == start.run(first).run(second),
    decreases second.len(),
{
    if second.len() > 0 {
        assert((first + second).drop_last() =~= first + second.drop_last());
        lemma_run_in_parts(start, first, second.drop_last());
    }
}

/// Whether the command is set to remove: it has finished, or it carries
/// `force`.
pub open spec fn removes(command: DisconnectView) -> bool {
    match command {
        DisconnectView::AwaitDevices { force } => force,
        DisconnectView::AwaitPrompt { force, .. } => force,
        DisconnectView::AwaitFlush { force, .. } => force,
        DisconnectView::AwaitLine { force, .. } => force,
        DisconnectView::AwaitAction { force, .. } => force,
        DisconnectView::AwaitWrite { force, .. } => force,
        DisconnectView::Finished(_) => true,
    }
}

/// Whether the command is set to disconnect: it has finished, or it does
/// not carry `force`.
pub open spec fn disconnects(command: DisconnectView) -> bool {
    match command {
        DisconnectView::AwaitDevices { force } => !force,
        DisconnectView::AwaitPrompt { force, .. } => !force,
        DisconnectView::AwaitFlush { force, .. } => !force,
        DisconnectView::AwaitLine { force, .. } => !force,
        DisconnectView::AwaitAction { force, .. } => !force,
        DisconnectView::AwaitWrite { force, .. } => !force,
        DisconnectView::Finished(_) => true,
    }
}

/// With `force` the command asks for removals only, and without it for
/// disconnections only, whatever it is told and whether the aliases were
/// named or picked.
pub proof fn lemma_force_decides_the_call(
    force: bool,
    aliases: Option<Seq<Seq<char>>>,
    replies: Seq<ReplyView>,
)
    ensures
        force ==> removes(begin(force, aliases).run(replies)),
        !force ==> disconnects(begin(force, aliases).run(replies)),
        match begin(force, aliases).run(replies).pending() {
            Some(RequestView::Bluez(CallView::Disconnect(_))) => !force,
            Some(RequestView::Bluez(CallView::Remove(_))) => force,
            _ => true,
        },
    decreases replies.len(),
{
    if replies.len() > 0 {
        lemma_force_decides_the_call(force, aliases, replies.drop_last());
    }
}

/// So many replies that tell of success.
pub open spec fn successes(count: nat) -> Seq<ReplyView> {
    Seq::new(count, |i: int| ReplyView::Done)
}

/// While nothing fails, the command acts on every alias in turn: after the
/// call and the line of output for each of the first `k` aliases, it asks
/// for the call on the next one. What it names to the client is the alias
/// without the white space around it.
pub proof fn lemma_acts_on_every_alias(force: bool, aliases: Seq<Seq<char>>, k: nat)
    requires
        k < aliases.len(),
    ensures
        act_on(force, aliases).run(successes(2 * k)) == act_on(force, aliases.skip(k as int)),
        act_on(force, aliases).run(successes(2 * k)).pending() == Some(
            RequestView::Bluez(action(force, trimmed(aliases[k as int]))),
        ),
    decreases k,
{
    let start = act_on(force, aliases);
    if k == 0 {
        assert(aliases.skip(0) =~= aliases);
    } else {
        let before = (k - 1) as nat;
        lemma_acts_on_every_alias(force, aliases, before);
        let first = start.run(successes(2 * before));
        let second = start.run(successes(2 * before + 1));
        let third = start.run(successes(2 * k));
        assert(successes(2 * before + 1).drop_last() =~= successes(2 * before));
        assert(successes(2 * before + 1).last() == ReplyView::Done);
        assert(second == first.next(ReplyView::Done));
        assert(successes(2 * k).drop_last() =~= successes(2 * before + 1));
        assert(successes(2 * k).last() == ReplyView::Done);
        assert(third == second.next(ReplyView::Done));
        let left = aliases.skip(before as int);
        assert(left.drop_first() =~= aliases.skip(k as int));
        assert(first == DisconnectView::AwaitAction {
            force,
            current: aliases[before as int],
            rest: aliases.skip(k as int),
        });
        assert(third == act_on(force, aliases.skip(k as int)));
    }
}

/// An answer with a piece that is no index of a device shown picks
/// nothing: the piece may be no number at all, or a number beyond the
/// last device.
pub proof fn lemma_bad_index_is_invalid(line: Seq<char>, devices: Seq<DeviceView>, k: int)
    requires
        devices.len() > 0,
        0 <= k < split_on(line, ',').len(),
        match parsed_u8(trimmed(split_on(line, ',')[k])) {
            Some(index) => index >= devices.len(),
            None => true,
        },
    ensures
        answer_of(line, devices) == Err::<Seq<Seq<char>>, ErrorView>(ErrorView::InvalidAlias),
{
    let pieces = split_on(line, ',');
    lemma_chosen_stays_none(pieces, devices.len(), k + 1);
}

/// Whether the command has turned to the devices or ended in another way
/// than on an invalid selection.
pub open spec fn committed(command: DisconnectView) -> bool {
    match command {
        DisconnectView::AwaitAction { .. } => true,
        DisconnectView::AwaitWrite { .. } => true,
        DisconnectView::Finished(outcome) => outcome != Err::<(), ErrorView>(ErrorView::InvalidAlias),
        _ => false,
    }
}

/// A command that has turned to the devices does not end on an invalid
/// selection any more.
pub proof fn lemma_committed_stays(command: DisconnectView, replies: Seq<ReplyView>)
    requires
        committed(command),
    ensures
        committed(command.run(replies)),
    decreases replies.len(),
{
    if replies.len() > 0 {
        lemma_committed_stays(command, replies.drop_last());
    }
}

/// A run that ends on an invalid selection has at no point asked the
/// client to disconnect or remove a device.
pub proof fn lemma_invalid_selection_acts_on_nothing(
    force: bool,
    aliases: Option<Seq<Seq<char>>>,
    replies: Seq<ReplyView>,
    i: int,
)
    requires
        0 <= i <= replies.len(),
        begin(force, aliases).run(replies) == DisconnectView::Finished(
            Err(ErrorView::InvalidAlias),
        ),
    ensures
        !begin(force, aliases).run(replies.take(i)).acts(),
{
    let start = begin(force, aliases);
    let midway = start.run(replies.take(i));
    assert(replies.take(i) + replies.skip(i) =~= replies);
    lemma_run_in_parts(start, replies.take(i), replies.skip(i));
    if midway.acts() {
        lemma_committed_stays(midway, replies.skip(i));
    }
}

/// Only an answer counts: a reply that does not answer what the command
/// waits for leaves the command where it is, a reply that does moves it
/// on, and a command that has finished stays as it is.
pub proof fn lemma_only_answers_count(command: DisconnectView, reply: ReplyView)
    ensures
        match command.pending() {
            Some(request) => answers(request, reply) <==> command.next(reply) != command,
            None => command.next(reply) == command,
        },
{
}

/// The index under which a device is shown picks that device: the line
/// entered for it makes the command act on the device of that index.
pub proof fn lemma_shown_index_picks(force: bool, devices: Seq<DeviceView>, index: u8)
    requires
        index < devices.len(),
    ensures
        answer_of(entered(index), devices) == Ok::<Seq<Seq<char>>, ErrorView>(
            seq![devices[index as int].alias],
        ),
        (DisconnectView::AwaitLine { force, devices }).next(
            ReplyView::Line(entered(index)),
        ).pending() == Some(
            RequestView::Bluez(action(force, trimmed(devices[index as int].alias))),
        ),
{
    let line = entered(index);
    lemma_entered_reads_back(index);
    lemma_split_without_separator(line, ',');
    let pieces = seq![line];
    assert(chosen(pieces.drop_last(), devices.len()) == Some(Seq::<int>::empty()));
    let none = Seq::<int>::empty();
    assert(aliases_at(none.push(index as int), devices) =~= seq![devices[index as int].alias]);
}

} // verus!
