//! Events that the server reports to the outside world, and the listener
//! that turns session notifications into such events.
use vstd::prelude::*;

verus! {

/// What happened.
#[derive(Clone, Debug)]
pub enum FTPEventPayload {
    Startup { libunftp_version: String, unftp_version: String },
    Login {},
    Logout {},
    Get { path: String },
    Put { path: String },
    Delete { path: String },
    MakeDir { path: String },
    Rename { from: String, to: String },
    RemoveDir { path: String },
}

/// An event as it is sent.
#[derive(Clone, Debug)]
pub struct FTPEvent {
    pub source_instance: String,
    pub hostname: String,
    pub payload: FTPEventPayload,
    /// The user this event pertains to. A user may have more than one
    /// connection or session.
    pub username: Option<String>,
    /// Identifies a single session of a connected client.
    pub trace_id: Option<String>,
    /// The event's sequence number within its session.
    pub sequence_number: Option<u64>,
}

/// Sends events to the outside world.
pub trait EventDispatcher<T> {
    fn dispatch(&self, event: T);
}

/// A dispatcher that drops every event.
#[derive(Debug)]
pub struct NullEventDispatcher {}

impl<T> EventDispatcher<T> for NullEventDispatcher {
    fn dispatch(&self, event: T) {
    }
}

/// The name under which an event of this kind is published.
pub open spec fn event_type_name(p: FTPEventPayload) -> Seq<char> {
    match p {
        FTPEventPayload::Startup { .. } => "startup"@,
        FTPEventPayload::Login { .. } => "login"@,
        FTPEventPayload::Logout { .. } => "logout"@,
        FTPEventPayload::Get { .. } => "get"@,
        FTPEventPayload::Put { .. } => "put"@,
        FTPEventPayload::Delete { .. } => "delete"@,
        FTPEventPayload::MakeDir { .. } => "makeDir"@,
        FTPEventPayload::Rename { .. } => "rename"@,
        FTPEventPayload::RemoveDir { .. } => "removeDir"@,
    }
}

/// The name under which an event of this kind is published.
pub fn event_type(p: &FTPEventPayload) -> (r: String)
    ensures
        r@ == event_type_name(*p),
{
    match p {
        FTPEventPayload::Startup { .. } => "startup".to_owned(),
        FTPEventPayload::Login { .. } => "login".to_owned(),
        FTPEventPayload::Logout { .. } => "logout".to_owned(),
        FTPEventPayload::Get { .. } => "get".to_owned(),
        FTPEventPayload::Put { .. } => "put".to_owned(),
        FTPEventPayload::Delete { .. } => "delete".to_owned(),
        FTPEventPayload::MakeDir { .. } => "makeDir".to_owned(),
        FTPEventPayload::Rename { .. } => "rename".to_owned(),
        FTPEventPayload::RemoveDir { .. } => "removeDir".to_owned(),
    }
}

/// A completed data operation of a session.
#[derive(Clone, Debug)]
pub enum DataEvent {
    Got { path: String, bytes: u64 },
    Put { path: String, bytes: u64 },
    Deleted { path: String },
    MadeDir { path: String },
    RemovedDir { path: String },
    Renamed { from: String, to: String },
}

/// A user logging in or out.
#[derive(Clone, Copy, Debug, PartialEq, Eq, Structural)]
pub enum PresenceEvent {
    LoggedIn,
    LoggedOut,
}

/// Where in which session an event happened.
#[derive(Clone, Debug)]
pub struct EventMeta {
    pub username: String,
    pub trace_id: String,
    pub sequence_number: u64,
}

/// The payload that reports a data operation.
pub open spec fn data_payload_of(e: DataEvent) -> FTPEventPayload {
    match e {
        DataEvent::Got { path, .. } => FTPEventPayload::Get { path },
        DataEvent::Put { path, .. } => FTPEventPayload::Put { path },
        DataEvent::Deleted { path } => FTPEventPayload::Delete { path },
        DataEvent::MadeDir { path } => FTPEventPayload::MakeDir { path },
        DataEvent::Renamed { from, to } => FTPEventPayload::Rename { from, to },
        DataEvent::RemovedDir { path } => FTPEventPayload::RemoveDir { path },
    }
}

/// The payload that reports a data operation.
pub fn data_payload(e: DataEvent) -> (r: FTPEventPayload)
    ensures
        r == data_payload_of(e),
{
    match e {
        DataEvent::Got { path, .. } => FTPEventPayload::Get { path },
        DataEvent::Put { path, .. } => FTPEventPayload::Put { path },
        DataEvent::Deleted { path } => FTPEventPayload::Delete { path },
        DataEvent::MadeDir { path } => FTPEventPayload::MakeDir { path },
        DataEvent::Renamed { from, to } => FTPEventPayload::Rename { from, to },
        DataEvent::RemovedDir { path } => FTPEventPayload::RemoveDir { path },
    }
}

/// The user name that sessions carry before anyone has logged in.
pub open spec fn unknown_user() -> Seq<char> {
    "unknown"@
}

/// The payload that reports a presence change, or `None` for a session in
/// which nobody logged in (such as a health check): those are not reported.
pub fn presence_payload(e: PresenceEvent, m: &EventMeta) -> (r: Option<FTPEventPayload>)
    ensures
        m.username@ == unknown_user() ==> r is None,
        m.username@ != unknown_user() ==> r == Some(
            match e {
                PresenceEvent::LoggedIn => FTPEventPayload::Login {},
                PresenceEvent::LoggedOut => FTPEventPayload::Logout {},
            },
        ),
{
    if m.username == "unknown".to_owned() {
        return None;
    }
    match e {
        PresenceEvent::LoggedIn => Some(FTPEventPayload::Login {}),
        PresenceEvent::LoggedOut => Some(FTPEventPayload::Logout {}),
    }
}

/// Turns session notifications into events and hands them to a dispatcher.
#[derive(Debug)]
pub struct FTPListener<D> {
    pub event_dispatcher: D,
    pub instance_name: String,
    pub hostname: String,
}

impl<D: EventDispatcher<FTPEvent>> FTPListener<D> {
    /// The event that reports `payload`, stamped with this server's names
    /// and the session details of `m`.
    pub fn event_for(&self, payload: FTPEventPayload, m: &EventMeta) -> (r: FTPEvent)
        ensures
            r.source_instance@ == self.instance_name@,
            r.hostname@ == self.hostname@,
            r.payload == payload,
            r.username matches Some(u) && u@ == m.username@,
            r.trace_id matches Some(t) && t@ == m.trace_id@,
            r.sequence_number == Some(m.sequence_number),
    {
        FTPEvent {
            source_instance: self.instance_name.clone(),
            hostname: self.hostname.clone(),
            payload,
            username: Some(m.username.clone()),
            trace_id: Some(m.trace_id.clone()),
            sequence_number: Some(m.sequence_number),
        }
    }

    /// Reports a completed data operation.
    pub fn receive_data_event(&self, e: DataEvent, m: &EventMeta) {
        let payload = data_payload(e);
        let event = self.event_for(payload, m);
        self.event_dispatcher.dispatch(event);
    }

    /// Reports a login or logout, except in sessions where nobody logged in.
    pub fn receive_presence_event(&self, e: PresenceEvent, m: &EventMeta) {
        match presence_payload(e, m) {
            Some(payload) => {
                let event = self.event_for(payload, m);
                self.event_dispatcher.dispatch(event);
            },
            None => {},
        }
    }
}

} // verus!
