//! The boundary to the audio-server worker: the cloneable handle through
//! which commands travel to the worker, the protocol messages that cross it
//! in both directions, the events the worker republishes, and the
//! three-state connection machine that tracks whether a handle exists and
//! whether the underlying connection is live.
//!
//! The worker itself — the task that owns the physical server connection,
//! retries it on loss and translates its callbacks — lives with the host:
//! it feeds [`Event`] values in and carries [`Message`] commands out.

use vstd::prelude::*;

use crate::device::DeviceInfo;
use crate::device::DeviceInfoView;
use crate::volume::Volume;
use crate::volume::VolumeView;

verus! {

/// Handle to the worker that owns the server connection. Clones address the
/// same worker; the token tells handles of distinct workers apart.
#[derive(Clone, Copy, Debug, PartialEq, Eq, Structural)]
pub struct Connection {
    /// Distinguishes handles of distinct workers; clones share it.
    pub token: u64,
}

impl Connection {
    pub fn new(token: u64) -> (r: Connection)
        ensures
            r.token == token,
    {
        Connection { token }
    }
}

/// A protocol message: a request toward the server or its authoritative
/// answer/notification back.
#[derive(Debug)]
pub enum Message {
    GetDefaultSink,
    GetDefaultSource,
    GetSinks,
    GetSources,
    SetDefaultSink(DeviceInfo),
    SetDefaultSource(DeviceInfo),
    SetSinkVolumeByName(String, Volume),
    SetSourceVolumeByName(String, Volume),
    SetSinks(Vec<DeviceInfo>),
    SetSources(Vec<DeviceInfo>),
    UpdateConnection,
    Disconnected,
}

/// Mathematical model of a [`Message`].
#[verifier::ext_equal]
pub ghost enum MessageView {
    GetDefaultSink,
    GetDefaultSource,
    GetSinks,
    GetSources,
    SetDefaultSink(DeviceInfoView),
    SetDefaultSource(DeviceInfoView),
    SetSinkVolumeByName(Seq<char>, VolumeView),
    SetSourceVolumeByName(Seq<char>, VolumeView),
    SetSinks(Seq<DeviceInfoView>),
    SetSources(Seq<DeviceInfoView>),
    UpdateConnection,
    Disconnected,
}

/// Views of a sequence of devices.
pub open spec fn device_views(s: Seq<DeviceInfo>) -> Seq<DeviceInfoView> {
    s.map_values(|d: DeviceInfo| d@)
}

impl View for Message {
    type V = MessageView;

    open spec fn view(&self) -> MessageView {
        match self {
            Message::GetDefaultSink => MessageView::GetDefaultSink,
            Message::GetDefaultSource => MessageView::GetDefaultSource,
            Message::GetSinks => MessageView::GetSinks,
            Message::GetSources => MessageView::GetSources,
            Message::SetDefaultSink(d) => MessageView::SetDefaultSink(d@),
            Message::SetDefaultSource(d) => MessageView::SetDefaultSource(d@),
            Message::SetSinkVolumeByName(n, v) => MessageView::SetSinkVolumeByName(n@, v@),
            Message::SetSourceVolumeByName(n, v) => MessageView::SetSourceVolumeByName(n@, v@),
            Message::SetSinks(l) => MessageView::SetSinks(device_views(l@)),
            Message::SetSources(l) => MessageView::SetSources(device_views(l@)),
            Message::UpdateConnection => MessageView::UpdateConnection,
            Message::Disconnected => MessageView::Disconnected,
        }
    }
}

/// Views of a sequence of outbound messages.
pub open spec fn message_views(s: Seq<Message>) -> Seq<MessageView> {
    s.map_values(|m: Message| m@)
}

/// One event on the worker-to-panel stream.
#[derive(Debug)]
pub enum Event {
    /// Fires once per process: delivers the reusable handle.
    Init(Connection),
    /// The underlying connection came up.
    Connected,
    /// The underlying connection was lost; the worker keeps retrying.
    Disconnected,
    /// The server's answer to a prior request, or a server-originated
    /// notification.
    MessageReceived(Message),
}

/// Mathematical model of an [`Event`].
#[verifier::ext_equal]
pub ghost enum EventView {
    Init(Connection),
    Connected,
    Disconnected,
    MessageReceived(MessageView),
}

impl View for Event {
    type V = EventView;

    open spec fn view(&self) -> EventView {
        match self {
            Event::Init(c) => EventView::Init(*c),
            Event::Connected => EventView::Connected,
            Event::Disconnected => EventView::Disconnected,
            Event::MessageReceived(m) => EventView::MessageReceived(m@),
        }
    }
}

/// Connection lifecycle: no handle yet, or a handle whose underlying
/// connection is currently down or up. `Init` moves to `Disconnected` once,
/// on first handle delivery; the other two toggle with the connection's
/// liveness, the handle carried over.
#[derive(Clone, Copy, Debug, PartialEq, Eq, Structural)]
pub enum PulseState {
    Init,
    Disconnected(Connection),
    Connected(Connection),
}

impl PulseState {
    /// The handle, in the two states that hold one.
    pub open spec fn spec_connection(self) -> Option<Connection> {
        match self {
            PulseState::Init => None,
            PulseState::Disconnected(c) => Some(c),
            PulseState::Connected(c) => Some(c),
        }
    }

    /// The state after the underlying connection comes up: a held handle is
    /// marked live; without a handle nothing changes.
    pub open spec fn spec_connected(self) -> PulseState {
        match self {
            PulseState::Disconnected(c) => PulseState::Connected(c),
            _ => self,
        }
    }

    /// The state after the underlying connection goes down: a live handle is
    /// marked down; otherwise nothing changes.
    pub open spec fn spec_disconnected(self) -> PulseState {
        match self {
            PulseState::Connected(c) => PulseState::Disconnected(c),
            _ => self,
        }
    }

    /// The handle through which commands can be queued; none before the
    /// first handle exists. Both connected and disconnected states yield
    /// one, so commands can be buffered while the transport is down.
    pub fn connection(&self) -> (r: Option<&Connection>)
        ensures
            match r {
                Some(c) => self.spec_connection() == Some(*c),
                None => self.spec_connection() is None,
            },
    {
        match self {
            PulseState::Disconnected(c) => Some(c),
            PulseState::Connected(c) => Some(c),
            PulseState::Init => None,
        }
    }

    /// Mark the held handle live; no-op without a handle.
    pub fn connected(&mut self)
        ensures
            *final(self) == old(self).spec_connected(),
    {
        if let PulseState::Disconnected(c) = self {
            *self = PulseState::Connected(*c);
        }
    }

    /// Mark the held handle down; no-op unless it was live.
    pub fn disconnected(&mut self)
        ensures
            *final(self) == old(self).spec_disconnected(),
    {
        if let PulseState::Connected(c) = self {
            *self = PulseState::Disconnected(*c);
        }
    }
}

impl Default for PulseState {
    /// Before the worker's first event there is no handle.
    fn default() -> (r: Self)
        ensures
            r == PulseState::Init,
    {
        PulseState::Init
    }
}

} // verus!
