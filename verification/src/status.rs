//! The `status` command: the adapter's power state and the connected
//! devices with their battery levels.

use crate::bluez;
use crate::bluez::{BluezDevice, BluezPowerState, DeviceView};
use crate::session::{
    answers, Call, CallView, IoFault, Reply, ReplyView, Request, RequestView,
};
use crate::text::{decimal, decimal_string};
use vstd::prelude::*;

verus! {

/// A failure of `status` as the contracts see it.
pub enum ErrorView {
    PowerState(bluez::ErrorView),
    ConnectedDevices(bluez::ErrorView),
    Io(Seq<char>),
}

impl ErrorView {
    /// The line that describes the failure.
    pub open spec fn message(self) -> Seq<char> {
        match self {
            ErrorView::PowerState(error) => "unable to get device power state: "@ + error.message(),
            ErrorView::ConnectedDevices(error) => "unable to get connected devices: "@
                + error.message(),
            ErrorView::Io(fault) => "io error: "@ + fault,
        }
    }
}

/// How `status` fails.
#[derive(Debug)]
pub enum Error {
    /// The power state could not be read.
    PowerState(bluez::Error),
    /// The connected devices could not be read.
    ConnectedDevices(bluez::Error),
    /// The result could not be written.
    Io(IoFault),
}

impl View for Error {
    type V = ErrorView;

    open spec fn view(&self) -> ErrorView {
        match self {
            Error::PowerState(error) => ErrorView::PowerState(error@),
            Error::ConnectedDevices(error) => ErrorView::ConnectedDevices(error@),
            Error::Io(fault) => ErrorView::Io(fault@),
        }
    }
}

impl Error {
    /// The line that describes the failure.
    pub fn to_string(&self) -> (text: String)
        ensures
            text@ == self@.message(),
    {
        match self {
            Error::PowerState(error) => {
                let mut text = String::from_str("unable to get device power state: ");
                text.append(error.to_string().as_str());
                text
            },
            Error::ConnectedDevices(error) => {
                let mut text = String::from_str("unable to get connected devices: ");
                text.append(error.to_string().as_str());
                text
            },
            Error::Io(fault) => {
                let mut text = String::from_str("io error: ");
                text.append(fault.message());
                text
            },
        }
    }
}

/// Whether every device reports a battery level.
pub open spec fn all_report_battery(devices: Seq<DeviceView>) -> bool {
    forall|i: int| 0 <= i < devices.len() ==> (#[trigger] devices[i]).battery is Some
}

/// The line of one connected device: a line break, then alias, address and
/// battery level.
pub open spec fn device_line(device: DeviceView) -> Seq<char> {
    "\n"@ + device.alias + "/"@ + device.address + " (batt: %"@ + decimal(
        device.battery.unwrap() as int,
    ) + ")"@
}

/// The lines of the connected devices, in their order.
pub open spec fn device_lines(devices: Seq<DeviceView>) -> Seq<char>
    decreases devices.len(),
{
    if devices.len() == 0 {
        Seq::<char>::empty()
    } else {
        device_lines(devices.drop_last()) + device_line(devices.last())
    }
}

/// What `status` prints for the power state and the connected devices.
pub open spec fn status_text(power: BluezPowerState, devices: Seq<DeviceView>) -> Seq<char> {
    "bluetooth: "@ + power.word() + "\nconnected devices: "@ + device_lines(devices)
}

/// Whether every device reports a battery level.
pub fn report_battery(devices: &Vec<BluezDevice>) -> (all: bool)
    ensures
        all == all_report_battery(devices.deep_view()),
{
    let mut i: usize = 0;
    while i < devices.len()
        invariant
            i <= devices.len(),
            forall|k: int| 0 <= k < i ==> (#[trigger] devices.deep_view()[k]).battery is Some,
        decreases devices.len() - i,
    {
        if devices[i].battery().is_none() {
            assert(devices.deep_view()[i as int].battery is None);
            return false;
        }
        i = i + 1;
    }
    true
}

/// Writes out what `status` prints.
pub fn render(power: BluezPowerState, devices: &Vec<BluezDevice>) -> (text: String)
    requires
        all_report_battery(devices.deep_view()),
    ensures
        text@ == status_text(power, devices.deep_view()),
{
    let mut text = String::from_str("bluetooth: ");
    text.append(power.to_string().as_str());
    text.append("\nconnected devices: ");
    let ghost head = text@;
    let mut i: usize = 0;
    while i < devices.len()
        invariant
            i <= devices.len(),
            all_report_battery(devices.deep_view()),
            text@ == head + device_lines(devices.deep_view().take(i as int)),
        decreases devices.len() - i,
    {
        let device = &devices[i];
        proof {
            let next = devices.deep_view().take(i as int + 1);
            assert(next.drop_last() =~= devices.deep_view().take(i as int));
        }
        let level: u8 = match device.battery() {
            Some(level) => *level,
            None => 0,
        };
        text.append("\n");
        text.append(device.alias());
        text.append("/");
        text.append(device.address());
        text.append(" (batt: %");
        text.append(decimal_string(level as i128).as_str());
        text.append(")");
        i = i + 1;
    }
    proof {
        assert(devices.deep_view().take(devices.len() as int) =~= devices.deep_view());
    }
    text
}

/// Where `status` stands, as the contracts see it.
pub enum StatusView {
    AwaitPowerState,
    AwaitConnectedDevices(BluezPowerState),
    AwaitWrite(Seq<char>),
    Finished(Result<(), ErrorView>),
}

impl StatusView {
    /// What the command waits for; nothing once it has finished.
    pub open spec fn pending(self) -> Option<RequestView> {
        match self {
            StatusView::AwaitPowerState => Some(RequestView::Bluez(CallView::PowerState)),
            StatusView::AwaitConnectedDevices(_) => Some(
                RequestView::Bluez(CallView::ConnectedDevices),
            ),
            StatusView::AwaitWrite(text) => Some(RequestView::Write(text)),
            StatusView::Finished(_) => None,
        }
    }

    /// Whether the command can take the reply where it stands: the devices
    /// that it is to print must report their battery levels.
    pub open spec fn admits(self, reply: ReplyView) -> bool {
        self is AwaitConnectedDevices && reply is Devices ==> all_report_battery(reply->Devices_0)
    }

    /// Where the command stands after the reply. A reply that does not
    /// answer what the command waits for leaves it where it is.
    pub open spec fn next(self, reply: ReplyView) -> StatusView {
        match (self, reply) {
            (StatusView::AwaitPowerState, ReplyView::PowerState(power)) => {
                StatusView::AwaitConnectedDevices(power)
            },
            (StatusView::AwaitPowerState, ReplyView::BluezFailed(error)) => {
                StatusView::Finished(Err(ErrorView::PowerState(error)))
            },
            (StatusView::AwaitConnectedDevices(power), ReplyView::Devices(devices)) => {
                StatusView::AwaitWrite(status_text(power, devices))
            },
            (StatusView::AwaitConnectedDevices(_), ReplyView::BluezFailed(error)) => {
                StatusView::Finished(Err(ErrorView::ConnectedDevices(error)))
            },
            (StatusView::AwaitWrite(_), ReplyView::Done) => StatusView::Finished(Ok(())),
            (StatusView::AwaitWrite(_), ReplyView::IoFailed(fault)) => {
                StatusView::Finished(Err(ErrorView::Io(fault)))
            },
            _ => self,
        }
    }
}

/// Where `status` stands: what it waits for, or how it ended.
#[derive(Debug)]
pub enum Status {
    AwaitPowerState,
    AwaitConnectedDevices(BluezPowerState),
    AwaitWrite(String),
    Finished(Result<(), Error>),
}

impl View for Status {
    type V = StatusView;

    open spec fn view(&self) -> StatusView {
        match self {
            Status::AwaitPowerState => StatusView::AwaitPowerState,
            Status::AwaitConnectedDevices(power) => StatusView::AwaitConnectedDevices(*power),
            Status::AwaitWrite(text) => StatusView::AwaitWrite(text@),
            Status::Finished(Ok(())) => StatusView::Finished(Ok(())),
            Status::Finished(Err(error)) => StatusView::Finished(Err(error@)),
        }
    }
}

/// Begins `status`: it first reads the power state, then the connected
/// devices, and then writes both.
pub fn status() -> (command: Status)
    ensures
        command@ == StatusView::AwaitPowerState,
{
    Status::AwaitPowerState
}

impl Status {
    /// What the command waits for; nothing once it has finished.
    pub fn pending(&self) -> (request: Option<Request>)
        ensures
            request.deep_view() == self@.pending(),
    {
        match self {
            Status::AwaitPowerState => Some(Request::Bluez(Call::PowerState)),
            Status::AwaitConnectedDevices(_) => Some(Request::Bluez(Call::ConnectedDevices)),
            Status::AwaitWrite(text) => Some(Request::Write(text.clone())),
            Status::Finished(_) => None,
        }
    }

    /// Whether the command can take the reply where it stands.
    pub fn admits(&self, reply: &Reply) -> (ok: bool)
        ensures
            ok == self@.admits(reply@),
    {
        match (self, reply) {
            (Status::AwaitConnectedDevices(_), Reply::Devices(devices)) => report_battery(devices),
            _ => true,
        }
    }

    /// Takes the reply to what the command waited for.
    pub fn step(self, reply: Reply) -> (command: Status)
        requires
            self@.admits(reply@),
        ensures
            command@ == self@.next(reply@),
    {
        match (self, reply) {
            (Status::AwaitPowerState, Reply::PowerState(power)) => Status::AwaitConnectedDevices(
                power,
            ),
            (Status::AwaitPowerState, Reply::BluezFailed(error)) => Status::Finished(
                Err(Error::PowerState(error)),
            ),
            (Status::AwaitConnectedDevices(power), Reply::Devices(devices)) => Status::AwaitWrite(
                render(power, &devices),
            ),
            (Status::AwaitConnectedDevices(_), Reply::BluezFailed(error)) => Status::Finished(
                Err(Error::ConnectedDevices(error)),
            ),
            (Status::AwaitWrite(_), Reply::Done) => Status::Finished(Ok(())),
            (Status::AwaitWrite(_), Reply::IoFailed(fault)) => Status::Finished(
                Err(Error::Io(fault)),
            ),
            (command, _) => command,
        }
    }

    /// How the command ended; nothing while it still waits.
    pub fn outcome(self) -> (outcome: Option<Result<(), Error>>)
        ensures
            match (outcome, self@) {
                (Some(Ok(())), StatusView::Finished(Ok(()))) => true,
                (Some(Err(error)), StatusView::Finished(Err(view))) => error@ == view,
                (None, view) => !(view is Finished),
                _ => false,
            },
    {
        match self {
            Status::Finished(outcome) => Some(outcome),
            _ => None,
        }
    }
}

/// Only an answer counts: a reply that does not answer what the command
/// waits for leaves the command where it is, a reply that does moves it
/// on, and a command that has finished stays as it is.
pub proof fn lemma_only_answers_count(command: StatusView, reply: ReplyView)
    ensures
        match command.pending() {
            Some(request) => answers(request, reply) <==> command.next(reply) != command,
            None => command.next(reply) == command,
        },
{
}

} // verus!
