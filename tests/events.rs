use rooted_vfs::events::{
    data_payload, event_type, presence_payload, DataEvent, EventDispatcher, EventMeta, FTPEvent,
    FTPEventPayload, FTPListener, NullEventDispatcher, PresenceEvent,
};
use std::cell::RefCell;

struct Recorder {
    seen: RefCell<Vec<FTPEvent>>,
}

impl EventDispatcher<FTPEvent> for Recorder {
    fn dispatch(&self, event: FTPEvent) {
        self.seen.borrow_mut().push(event);
    }
}

fn meta(user: &str) -> EventMeta {
    EventMeta { username: user.to_string(), trace_id: "t-1".to_string(), sequence_number: 3 }
}

#[test]
fn event_type_names() {
    assert_eq!("makeDir", event_type(&FTPEventPayload::MakeDir { path: "d".to_string() }));
    assert_eq!("removeDir", event_type(&FTPEventPayload::RemoveDir { path: "d".to_string() }));
    assert_eq!("login", event_type(&FTPEventPayload::Login {}));
    assert_eq!(
        "startup",
        event_type(&FTPEventPayload::Startup { libunftp_version: "1".to_string(), unftp_version: "2".to_string() })
    );
    assert_eq!("rename", event_type(&FTPEventPayload::Rename { from: "a".to_string(), to: "b".to_string() }));
}

#[test]
fn data_events_map_to_payloads() {
    match data_payload(DataEvent::Got { path: "f".to_string(), bytes: 10 }) {
        FTPEventPayload::Get { path } => assert_eq!("f", path),
        other => panic!("unexpected {:?}", other),
    }
    match data_payload(DataEvent::Renamed { from: "a".to_string(), to: "b".to_string() }) {
        FTPEventPayload::Rename { from, to } => assert_eq!(("a", "b"), (from.as_str(), to.as_str())),
        other => panic!("unexpected {:?}", other),
    }
}

#[test]
fn unknown_user_presence_is_not_reported() {
    assert!(presence_payload(PresenceEvent::LoggedOut, &meta("unknown")).is_none());
    assert!(matches!(presence_payload(PresenceEvent::LoggedIn, &meta("ann")), Some(FTPEventPayload::Login {})));
}

#[test]
fn listener_stamps_and_dispatches() {
    let l = FTPListener {
        event_dispatcher: Recorder { seen: RefCell::new(Vec::new()) },
        instance_name: "inst".to_string(),
        hostname: "host".to_string(),
    };
    l.receive_data_event(DataEvent::Deleted { path: "x".to_string() }, &meta("ann"));
    l.receive_presence_event(PresenceEvent::LoggedOut, &meta("unknown"));
    l.receive_presence_event(PresenceEvent::LoggedOut, &meta("ann"));
    let seen = l.event_dispatcher.seen.borrow();
    assert_eq!(2, seen.len());
    assert_eq!("inst", seen[0].source_instance);
    assert_eq!("host", seen[0].hostname);
    assert_eq!(Some("ann".to_string()), seen[0].username);
    assert_eq!(Some("t-1".to_string()), seen[0].trace_id);
    assert_eq!(Some(3), seen[0].sequence_number);
    assert!(matches!(seen[0].payload, FTPEventPayload::Delete { .. }));
    assert!(matches!(seen[1].payload, FTPEventPayload::Logout {}));
}

#[test]
fn null_dispatcher_accepts_events() {
    let l = FTPListener { event_dispatcher: NullEventDispatcher {}, instance_name: String::new(), hostname: String::new() };
    l.receive_presence_event(PresenceEvent::LoggedIn, &meta("ann"));
}
