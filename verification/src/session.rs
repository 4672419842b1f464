//! The exchange between a command and the world around it. A command never
//! touches the service or a stream: it names what it needs next as a
//! [`Request`], and is told what came of it as a [`Reply`].

use crate::bluez::{BluezDevice, BluezPowerState, DeviceView, Error, ErrorView};
use vstd::prelude::*;

verus! {

/// A failure of a stream, kept as the text that the stream gives for it. Its
/// view is that text.
#[derive(Debug)]
pub struct IoFault {
    message: String,
}

impl View for IoFault {
    type V = Seq<char>;

    closed spec fn view(&self) -> Seq<char> {
        self.message@
    }
}

impl IoFault {
    /// A fault with the given text.
    pub fn new(message: String) -> (fault: Self)
        ensures
            fault@ == message@,
    {
        IoFault { message }
    }

    /// The fault's text.
    pub fn message(&self) -> (text: &str)
        ensures
            text@ == self@,
    {
        self.message.as_str()
    }
}

/// A call on the Bluetooth client as the contracts see it.
pub enum CallView {
    PowerState,
    TogglePowerState,
    Devices,
    ConnectedDevices,
    ScannedDevices,
    StartDiscovery,
    StopDiscovery,
    Connect(Seq<char>),
    Disconnect(Seq<char>),
    Remove(Seq<char>),
}

/// A call on the Bluetooth client. The three calls that act on a device name
/// it by its alias.
#[derive(Debug)]
pub enum Call {
    PowerState,
    TogglePowerState,
    Devices,
    ConnectedDevices,
    ScannedDevices,
    StartDiscovery,
    StopDiscovery,
    Connect(String),
    Disconnect(String),
    Remove(String),
}

impl View for Call {
    type V = CallView;

    open spec fn view(&self) -> CallView {
        match self {
            Call::PowerState => CallView::PowerState,
            Call::TogglePowerState => CallView::TogglePowerState,
            Call::Devices => CallView::Devices,
            Call::ConnectedDevices => CallView::ConnectedDevices,
            Call::ScannedDevices => CallView::ScannedDevices,
            Call::StartDiscovery => CallView::StartDiscovery,
            Call::StopDiscovery => CallView::StopDiscovery,
            Call::Connect(alias) => CallView::Connect(alias@),
            Call::Disconnect(alias) => CallView::Disconnect(alias@),
            Call::Remove(alias) => CallView::Remove(alias@),
        }
    }
}

/// What a command needs next, as the contracts see it.
pub enum RequestView {
    Bluez(CallView),
    Sleep(u64),
    Write(Seq<char>),
    Flush,
    ReadLine,
}

/// What a command needs next.
#[derive(Debug)]
pub enum Request {
    /// A call on the Bluetooth client.
    Bluez(Call),
    /// A pause of so many seconds.
    Sleep(u64),
    /// The text, written to the output in full.
    Write(String),
    /// The output flushed.
    Flush,
    /// One line read from the input.
    ReadLine,
}

impl View for Request {
    type V = RequestView;

    open spec fn view(&self) -> RequestView {
        match self {
            Request::Bluez(call) => RequestView::Bluez(call@),
            Request::Sleep(seconds) => RequestView::Sleep(*seconds),
            Request::Write(text) => RequestView::Write(text@),
            Request::Flush => RequestView::Flush,
            Request::ReadLine => RequestView::ReadLine,
        }
    }
}

impl DeepView for Request {
    type V = RequestView;

    open spec fn deep_view(&self) -> RequestView {
        self@
    }
}

/// What came of a request, as the contracts see it.
pub enum ReplyView {
    PowerState(BluezPowerState),
    Devices(Seq<DeviceView>),
    Line(Seq<char>),
    Done,
    BluezFailed(ErrorView),
    IoFailed(Seq<char>),
}

/// What came of a request.
#[derive(Debug)]
pub enum Reply {
    /// The adapter's power state, read or newly set.
    PowerState(BluezPowerState),
    /// The devices asked for.
    Devices(Vec<BluezDevice>),
    /// The line read, with its line break if it had one.
    Line(String),
    /// The request was carried out and has nothing to tell.
    Done,
    /// The call on the client failed.
    BluezFailed(Error),
    /// The stream failed.
    IoFailed(IoFault),
}

impl View for Reply {
    type V = ReplyView;

    open spec fn view(&self) -> ReplyView {
        match self {
            Reply::PowerState(state) => ReplyView::PowerState(*state),
            Reply::Devices(devices) => ReplyView::Devices(devices.deep_view()),
            Reply::Line(line) => ReplyView::Line(line@),
            Reply::Done => ReplyView::Done,
            Reply::BluezFailed(error) => ReplyView::BluezFailed(error@),
            Reply::IoFailed(fault) => ReplyView::IoFailed(fault@),
        }
    }
}

/// Whether the reply is one that the request can bring: the value asked
/// for, or the failure of the side that was asked.
pub open spec fn answers(request: RequestView, reply: ReplyView) -> bool {
    match request {
        RequestView::Bluez(call) => reply is BluezFailed || (match call {
            CallView::PowerState | CallView::TogglePowerState => reply is PowerState,
            CallView::Devices | CallView::ConnectedDevices | CallView::ScannedDevices => reply is Devices,
            _ => reply is Done,
        }),
        RequestView::Sleep(_) => reply is Done,
        RequestView::Write(_) | RequestView::Flush => reply is Done || reply is IoFailed,
        RequestView::ReadLine => reply is Line || reply is IoFailed,
    }
}

} // verus!
