//! The command line as a value, and the command that it stands for.

use crate::bluez;
use crate::connect;
use crate::connect::{Connect, ConnectArgs, ConnectView};
use crate::disconnect;
use crate::disconnect::{Disconnect, DisconnectView};
use crate::list_devices;
use crate::list_devices::{ListDevices, ListDevicesArgs, ListDevicesView};
use crate::scan;
use crate::scan::{Scan, ScanArgs, ScanView};
use crate::session::{answers, Reply, ReplyView, Request, RequestView};
use crate::status;
use crate::status::{Status, StatusView};
use crate::toggle;
use crate::toggle::{Toggle, ToggleView};
use vstd::prelude::*;

verus! {

/// One of the commands, with what it is asked for.
#[derive(Debug)]
#[allow(inconsistent_fields)]
pub enum BtCommand {
    /// See the Bluetooth status.
    Status,
    /// Toggle the Bluetooth status.
    Toggle,
    /// See the known Bluetooth devices.
    ListDevices { args: ListDevicesArgs },
    /// Scan the available Bluetooth devices.
    Scan { args: ScanArgs },
    /// Connect to an available Bluetooth device.
    Connect { args: ConnectArgs },
    /// Disconnect from connected devices. With `force` they are removed
    /// from the known devices. Without aliases the user picks the devices.
    Disconnect { force: bool, aliases: Option<Vec<String>> },
}

/// The command line: a command, or none.
#[derive(Debug)]
pub struct Cli {
    pub command: Option<BtCommand>,
}

/// A failure of the program as the contracts see it.
pub enum FailureView {
    Client(bluez::ErrorView),
    Status(status::ErrorView),
    Toggle(toggle::ErrorView),
    ListDevices(list_devices::ErrorView),
    Scan(scan::ErrorView),
    Connect(connect::ErrorView),
    Disconnect(disconnect::ErrorView),
}

impl FailureView {
    /// The line that describes the failure.
    pub open spec fn message(self) -> Seq<char> {
        match self {
            FailureView::Client(error) => error.message(),
            FailureView::Status(error) => error.message(),
            FailureView::Toggle(error) => error.message(),
            FailureView::ListDevices(error) => error.message(),
            FailureView::Scan(error) => error.message(),
            FailureView::Connect(error) => error.message(),
            FailureView::Disconnect(error) => error.message(),
        }
    }

    /// The line that the program prints for the failure: its name, and
    /// what failed.
    pub open spec fn line(self) -> Seq<char> {
        "bt: "@ + self.message()
    }
}

/// How the program fails: the client cannot be set up, or a command fails.
#[derive(Debug)]
pub enum Failure {
    Client(bluez::Error),
    Status(status::Error),
    Toggle(toggle::Error),
    ListDevices(list_devices::Error),
    Scan(scan::Error),
    Connect(connect::Error),
    Disconnect(disconnect::Error),
}

impl View for Failure {
    type V = FailureView;

    open spec fn view(&self) -> FailureView {
        match self {
            Failure::Client(error) => FailureView::Client(error@),
            Failure::Status(error) => FailureView::Status(error@),
            Failure::Toggle(error) => FailureView::Toggle(error@),
            Failure::ListDevices(error) => FailureView::ListDevices(error@),
            Failure::Scan(error) => FailureView::Scan(error@),
            Failure::Connect(error) => FailureView::Connect(error@),
            Failure::Disconnect(error) => FailureView::Disconnect(error@),
        }
    }
}

impl Failure {
    /// The line that describes the failure.
    pub fn to_string(&self) -> (text: String)
        ensures
            text@ == self@.message(),
    {
        match self {
            Failure::Client(error) => error.to_string(),
            Failure::Status(error) => error.to_string(),
            Failure::Toggle(error) => error.to_string(),
            Failure::ListDevices(error) => error.to_string(),
            Failure::Scan(error) => error.to_string(),
            Failure::Connect(error) => error.to_string(),
            Failure::Disconnect(error) => error.to_string(),
        }
    }

    /// The line that the program prints for the failure.
    pub fn line(&self) -> (text: String)
        ensures
            text@ == self@.line(),
    {
        let mut text = String::from_str("bt: ");
        text.append(self.to_string().as_str());
        text
    }
}

/// Where the program stands, as the contracts see it.
pub enum SessionView {
    Status(StatusView),
    Toggle(ToggleView),
    ListDevices(ListDevicesView),
    Scan(ScanView),
    Connect(ConnectView),
    Disconnect(DisconnectView),
}

/// How a command's end is the program's end.
pub open spec fn ended<E>(outcome: Result<(), E>, failure: spec_fn(E) -> FailureView) -> Result<
    (),
    FailureView,
> {
    match outcome {
        Ok(_) => Ok(()),
        Err(error) => Err(failure(error)),
    }
}

impl SessionView {
    /// What the program waits for; nothing once its command has finished.
    pub open spec fn pending(self) -> Option<RequestView> {
        match self {
            SessionView::Status(command) => command.pending(),
            SessionView::Toggle(command) => command.pending(),
            SessionView::ListDevices(command) => command.pending(),
            SessionView::Scan(command) => command.pending(),
            SessionView::Connect(command) => command.pending(),
            SessionView::Disconnect(command) => command.pending(),
        }
    }

    /// Whether the program can take the reply where it stands.
    pub open spec fn admits(self, reply: ReplyView) -> bool {
        match self {
            SessionView::Status(command) => command.admits(reply),
            _ => true,
        }
    }

    /// Where the program stands after the reply: where its command stands.
    pub open spec fn next(self, reply: ReplyView) -> SessionView {
        match self {
            SessionView::Status(command) => SessionView::Status(command.next(reply)),
            SessionView::Toggle(command) => SessionView::Toggle(command.next(reply)),
            SessionView::ListDevices(command) => SessionView::ListDevices(command.next(reply)),
            SessionView::Scan(command) => SessionView::Scan(command.next(reply)),
            SessionView::Connect(command) => SessionView::Connect(command.next(reply)),
            SessionView::Disconnect(command) => SessionView::Disconnect(command.next(reply)),
        }
    }

    /// How the program ended; nothing while its command still waits.
    pub open spec fn outcome(self) -> Option<Result<(), FailureView>> {
        match self {
            SessionView::Status(StatusView::Finished(outcome)) => Some(
                ended(outcome, |error: status::ErrorView| FailureView::Status(error)),
            ),
            SessionView::Toggle(ToggleView::Finished(outcome)) => Some(
                ended(outcome, |error: toggle::ErrorView| FailureView::Toggle(error)),
            ),
            SessionView::ListDevices(ListDevicesView::Finished(outcome)) => Some(
                ended(outcome, |error: list_devices::ErrorView| FailureView::ListDevices(error)),
            ),
            SessionView::Scan(ScanView::Finished(outcome)) => Some(
                ended(outcome, |error: scan::ErrorView| FailureView::Scan(error)),
            ),
            SessionView::Connect(ConnectView::Finished(outcome)) => Some(
                ended(outcome, |error: connect::ErrorView| FailureView::Connect(error)),
            ),
            SessionView::Disconnect(DisconnectView::Finished(outcome)) => Some(
                ended(outcome, |error: disconnect::ErrorView| FailureView::Disconnect(error)),
            ),
            _ => None,
        }
    }
}

/// Where the program stands: the command that it runs, and where that
/// stands.
#[derive(Debug)]
pub enum Session {
    Status(Status),
    Toggle(Toggle),
    ListDevices(ListDevices),
    Scan(Scan),
    Connect(Connect),
    Disconnect(Disconnect),
}

impl View for Session {
    type V = SessionView;

    open spec fn view(&self) -> SessionView {
        match self {
            Session::Status(command) => SessionView::Status(command@),
            Session::Toggle(command) => SessionView::Toggle(command@),
            Session::ListDevices(command) => SessionView::ListDevices(command@),
            Session::Scan(command) => SessionView::Scan(command@),
            Session::Connect(command) => SessionView::Connect(command@),
            Session::Disconnect(command) => SessionView::Disconnect(command@),
        }
    }
}

/// Where the program begins for the command line: at the beginning of the
/// command that is named, and of `status` where none is.
pub open spec fn begin(cli: Cli) -> SessionView {
    match cli.command {
        None | Some(BtCommand::Status) => SessionView::Status(StatusView::AwaitPowerState),
        Some(BtCommand::Toggle) => SessionView::Toggle(ToggleView::AwaitToggle),
        Some(BtCommand::ListDevices { args }) => SessionView::ListDevices(
            ListDevicesView::AwaitDevices {
                shape: list_devices::shape_of(args),
                keys: list_devices::keys_of(args),
                status: args.status,
            },
        ),
        Some(BtCommand::Scan { args }) => SessionView::Scan(
            ScanView::AwaitStart {
                duration: args.duration,
                shape: scan::shape_of(args),
                keys: scan::keys_of(args),
            },
        ),
        Some(BtCommand::Connect { args }) => SessionView::Connect(connect::begin(args)),
        Some(BtCommand::Disconnect { force, aliases }) => SessionView::Disconnect(
            disconnect::begin(force, aliases.deep_view()),
        ),
    }
}

/// Begins the command that the command line names.
pub fn run(cli: &Cli) -> (session: Session)
    ensures
        session@ == begin(*cli),
{
    match &cli.command {
        None => Session::Status(crate::status::status()),
        Some(BtCommand::Status) => Session::Status(crate::status::status()),
        Some(BtCommand::Toggle) => Session::Toggle(crate::toggle::toggle()),
        Some(BtCommand::ListDevices { args }) => Session::ListDevices(
            crate::list_devices::list_devices(args),
        ),
        Some(BtCommand::Scan { args }) => Session::Scan(crate::scan::scan(args)),
        Some(BtCommand::Connect { args }) => Session::Connect(crate::connect::connect(args)),
        Some(BtCommand::Disconnect { force, aliases }) => Session::Disconnect(
            crate::disconnect::disconnect(force, aliases),
        ),
    }
}

impl Session {
    /// What the program waits for; nothing once its command has finished.
    pub fn pending(&self) -> (request: Option<Request>)
        ensures
            request.deep_view() == self@.pending(),
    {
        match self {
            Session::Status(command) => command.pending(),
            Session::Toggle(command) => command.pending(),
            Session::ListDevices(command) => command.pending(),
            Session::Scan(command) => command.pending(),
            Session::Connect(command) => command.pending(),
            Session::Disconnect(command) => command.pending(),
        }
    }

    /// Whether the program can take the reply where it stands.
    pub fn admits(&self, reply: &Reply) -> (ok: bool)
        ensures
            ok == self@.admits(reply@),
    {
        match self {
            Session::Status(command) => command.admits(reply),
            _ => true,
        }
    }

    /// Takes the reply to what the program waited for.
    pub fn step(self, reply: Reply) -> (session: Session)
        requires
            self@.admits(reply@),
        ensures
            session@ == self@.next(reply@),
    {
        match self {
            Session::Status(command) => Session::Status(command.step(reply)),
            Session::Toggle(command) => Session::Toggle(command.step(reply)),
            Session::ListDevices(command) => Session::ListDevices(command.step(reply)),
            Session::Scan(command) => Session::Scan(command.step(reply)),
            Session::Connect(command) => Session::Connect(command.step(reply)),
            Session::Disconnect(command) => Session::Disconnect(command.step(reply)),
        }
    }

    /// How the program ended; nothing while its command still waits.
    pub fn outcome(self) -> (outcome: Option<Result<(), Failure>>)
        ensures
            match (outcome, self@.outcome()) {
                (Some(Ok(_)), Some(Ok(_))) => true,
                (Some(Err(failure)), Some(Err(view))) => failure@ == view,
                (None, None) => true,
                _ => false,
            },
    {
        match self {
            Session::Status(command) => match command.outcome() {
                Some(Ok(_)) => Some(Ok(())),
                Some(Err(error)) => Some(Err(Failure::Status(error))),
                None => None,
            },
            Session::Toggle(command) => match command.outcome() {
                Some(Ok(_)) => Some(Ok(())),
                Some(Err(error)) => Some(Err(Failure::Toggle(error))),
                None => None,
            },
            Session::ListDevices(command) => match command.outcome() {
                Some(Ok(_)) => Some(Ok(())),
                Some(Err(error)) => Some(Err(Failure::ListDevices(error))),
                None => None,
            },
            Session::Scan(command) => match command.outcome() {
                Some(Ok(_)) => Some(Ok(())),
                Some(Err(error)) => Some(Err(Failure::Scan(error))),
                None => None,
            },
            Session::Connect(command) => match command.outcome() {
                Some(Ok(_)) => Some(Ok(())),
                Some(Err(error)) => Some(Err(Failure::Connect(error))),
                None => None,
            },
            Session::Disconnect(command) => match command.outcome() {
                Some(Ok(_)) => Some(Ok(())),
                Some(Err(error)) => Some(Err(Failure::Disconnect(error))),
                None => None,
            },
        }
    }
}

/// Only an answer counts: a reply that does not answer what the program
/// waits for leaves it where it is, a reply that does moves it on, and a
/// program whose command has finished stays as it is.
pub proof fn lemma_only_answers_count(session: SessionView, reply: ReplyView)
    ensures
        match session.pending() {
            Some(request) => answers(request, reply) <==> session.next(reply) != session,
            None => session.next(reply) == session,
        },
{
    match session {
        SessionView::Status(command) => crate::status::lemma_only_answers_count(command, reply),
        SessionView::Toggle(command) => crate::toggle::lemma_only_answers_count(command, reply),
        SessionView::ListDevices(command) => crate::list_devices::lemma_only_answers_count(
            command,
            reply,
        ),
        SessionView::Scan(command) => crate::scan::lemma_only_answers_count(command, reply),
        SessionView::Connect(command) => crate::connect::lemma_only_answers_count(command, reply),
        SessionView::Disconnect(command) => crate::disconnect::lemma_only_answers_count(
            command,
            reply,
        ),
    }
}

} // verus!
