//! The `toggle` command: switches the adapter's power and tells the new
//! state.

use crate::bluez;
use crate::bluez::BluezPowerState;
use crate::session::{
    answers, Call, CallView, IoFault, Reply, ReplyView, Request, RequestView,
};
use vstd::prelude::*;

verus! {

/// A failure of `toggle` as the contracts see it.
pub enum ErrorView {
    Bluez(bluez::ErrorView),
    Io(Seq<char>),
}

impl ErrorView {
    /// The line that describes the failure.
    pub open spec fn message(self) -> Seq<char> {
        match self {
            ErrorView::Bluez(error) => "toggle: bluez error: "@ + error.message(),
            ErrorView::Io(fault) => "toggle: io error: "@ + fault,
        }
    }
}

/// How `toggle` fails.
#[derive(Debug)]
pub enum Error {
    /// The client could not switch the power.
    Bluez(bluez::Error),
    /// The result could not be written.
    Io(IoFault),
}

impl View for Error {
    type V = ErrorView;

    open spec fn view(&self) -> ErrorView {
        match self {
            Error::Bluez(error) => ErrorView::Bluez(error@),
            Error::Io(fault) => ErrorView::Io(fault@),
        }
    }
}

impl Error {
    /// The line that describes the failure.
    pub fn to_string(&self) -> (text: String)
        ensures
            text@ == self@.message(),
    {
        match self {
            Error::Bluez(error) => {
                let mut text = String::from_str("toggle: bluez error: ");
                text.append(error.to_string().as_str());
                text
            },
            Error::Io(fault) => {
                let mut text = String::from_str("toggle: io error: ");
                text.append(fault.message());
                text
            },
        }
    }
}

/// What `toggle` prints for the state that the adapter was switched to.
pub open spec fn toggle_text(power: BluezPowerState) -> Seq<char> {
    "bluetooth: "@ + power.word()
}

/// Where `toggle` stands, as the contracts see it.
pub enum ToggleView {
    AwaitToggle,
    AwaitWrite(Seq<char>),
    Finished(Result<(), ErrorView>),
}

impl ToggleView {
    /// What the command waits for; nothing once it has finished.
    pub open spec fn pending(self) -> Option<RequestView> {
        match self {
            ToggleView::AwaitToggle => Some(RequestView::Bluez(CallView::TogglePowerState)),
            ToggleView::AwaitWrite(text) => Some(RequestView::Write(text)),
            ToggleView::Finished(_) => None,
        }
    }

    /// Where the command stands after the reply. A reply that does not
    /// answer what the command waits for leaves it where it is.
    pub open spec fn next(self, reply: ReplyView) -> ToggleView {
        match (self, reply) {
            (ToggleView::AwaitToggle, ReplyView::PowerState(power)) => ToggleView::AwaitWrite(
                toggle_text(power),
            ),
            (ToggleView::AwaitToggle, ReplyView::BluezFailed(error)) => ToggleView::Finished(
                Err(ErrorView::Bluez(error)),
            ),
            (ToggleView::AwaitWrite(_), ReplyView::Done) => ToggleView::Finished(Ok(())),
            (ToggleView::AwaitWrite(_), ReplyView::IoFailed(fault)) => ToggleView::Finished(
                Err(ErrorView::Io(fault)),
            ),
            _ => self,
        }
    }
}

/// Where `toggle` stands: what it waits for, or how it ended.
#[derive(Debug)]
pub enum Toggle {
    AwaitToggle,
    AwaitWrite(String),
    Finished(Result<(), Error>),
}

impl View for Toggle {
    type V = ToggleView;

    open spec fn view(&self) -> ToggleView {
        match self {
            Toggle::AwaitToggle => ToggleView::AwaitToggle,
            Toggle::AwaitWrite(text) => ToggleView::AwaitWrite(text@),
            Toggle::Finished(Ok(())) => ToggleView::Finished(Ok(())),
            Toggle::Finished(Err(error)) => ToggleView::Finished(Err(error@)),
        }
    }
}

/// Begins `toggle`: it has the power switched and then writes the new
/// state.
pub fn toggle() -> (command: Toggle)
    ensures
        command@ == ToggleView::AwaitToggle,
{
    Toggle::AwaitToggle
}

impl Toggle {
    /// What the command waits for; nothing once it has finished.
    pub fn pending(&self) -> (request: Option<Request>)
        ensures
            request.deep_view() == self@.pending(),
    {
        match self {
            Toggle::AwaitToggle => Some(Request::Bluez(Call::TogglePowerState)),
            Toggle::AwaitWrite(text) => Some(Request::Write(text.clone())),
            Toggle::Finished(_) => None,
        }
    }

    /// Takes the reply to what the command waited for.
    pub fn step(self, reply: Reply) -> (command: Toggle)
        ensures
            command@ == self@.next(reply@),
    {
        match (self, reply) {
            (Toggle::AwaitToggle, Reply::PowerState(power)) => {
                let mut text = String::from_str("bluetooth: ");
                text.append(power.to_string().as_str());
                Toggle::AwaitWrite(text)
            },
            (Toggle::AwaitToggle, Reply::BluezFailed(error)) => Toggle::Finished(
                Err(Error::Bluez(error)),
            ),
            (Toggle::AwaitWrite(_), Reply::Done) => Toggle::Finished(Ok(())),
            (Toggle::AwaitWrite(_), Reply::IoFailed(fault)) => Toggle::Finished(
                Err(Error::Io(fault)),
            ),
            (command, _) => command,
        }
    }

    /// How the command ended; nothing while it still waits.
    pub fn outcome(self) -> (outcome: Option<Result<(), Error>>)
        ensures
            match (outcome, self@) {
                (Some(Ok(())), ToggleView::Finished(Ok(()))) => true,
                (Some(Err(error)), ToggleView::Finished(Err(view))) => error@ == view,
                (None, view) => !(view is Finished),
                _ => false,
            },
    {
        match self {
            Toggle::Finished(outcome) => Some(outcome),
            _ => None,
        }
    }
}

/// Only an answer counts: a reply that does not answer what the command
/// waits for leaves the command where it is, a reply that does moves it
/// on, and a command that has finished stays as it is.
pub proof fn lemma_only_answers_count(command: ToggleView, reply: ReplyView)
    ensures
        match command.pending() {
            Some(request) => answers(request, reply) <==> command.next(reply) != command,
            None => command.next(reply) == command,
        },
{
}

} // verus!
