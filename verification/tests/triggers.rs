use dibikaandaagozi::storage::FileWrite;
use dibikaandaagozi::triggers::{
    handle_marker_at, handle_start_stop_at, marker_notification, started_notification,
    stopped_notification, MenuEntry, Notification, Toggled, TrayAction,
};
use dibikaandaagozi::{
    create_tray_menu, handle_marker, handle_start_stop, handle_tray_event, ActiveSession, Marker,
    Session, Timestamp,
};

fn at(secs: i64) -> Timestamp {
    Timestamp::new(secs, 0).unwrap()
}

fn notice(title: &str, message: &str) -> Notification {
    Notification { title: title.to_string(), message: message.to_string() }
}

fn record(start: i64, end: i64) -> Session {
    Session {
        id: "s-1".to_string(),
        start_time: at(start),
        end_time: at(end),
        markers: Vec::new(),
        name: None,
    }
}

#[test]
fn the_key_starts_a_session_when_none_is_active() {
    let mut slot: Option<ActiveSession> = None;
    let did = handle_start_stop_at(&mut slot, "s-1".to_string(), at(100));
    assert_eq!(did, Toggled::Started("s-1".to_string()));
    assert_eq!(slot, Some(ActiveSession::started("s-1".to_string(), at(100))));
}

#[test]
fn the_key_stops_the_active_session() {
    let mut slot = Some(ActiveSession::started("s-1".to_string(), at(100)));
    let did = handle_start_stop_at(&mut slot, "unused".to_string(), at(160));
    assert_eq!(did, Toggled::Stopped(record(100, 160)));
    assert_eq!(slot, None);
}

#[test]
fn the_key_stops_a_session_at_its_start_where_the_stop_is_earlier() {
    let mut slot = Some(ActiveSession::started("s-1".to_string(), at(100)));
    let did = handle_start_stop_at(&mut slot, "unused".to_string(), at(50));
    assert_eq!(did, Toggled::Stopped(record(100, 100)));
    assert_eq!(slot, None);
}

#[test]
fn the_key_now_stops_a_session_that_starts_in_the_future_at_its_start() {
    let start = at(Timestamp::now().seconds() + 3_600);
    let mut slot = Some(ActiveSession::started("s-1".to_string(), start));
    match handle_start_stop(&mut slot) {
        Toggled::Stopped(session) => {
            assert_eq!(session.id, "s-1");
            assert_eq!(session.end_time, start);
        }
        Toggled::Started(_) => panic!("a session was active"),
    }
    assert_eq!(slot, None);
}

#[test]
fn the_key_toggles_between_started_and_stopped() {
    let mut slot: Option<ActiveSession> = None;
    let id = match handle_start_stop(&mut slot) {
        Toggled::Started(id) => id,
        Toggled::Stopped(_) => panic!("no session was active"),
    };
    assert_eq!(slot.as_ref().unwrap().id, id);
    handle_marker(&mut slot).unwrap();
    match handle_start_stop(&mut slot) {
        Toggled::Stopped(session) => {
            assert_eq!(session.id, id);
            assert_eq!(session.markers.len(), 1);
            assert!(!session.end_time.is_before(&session.start_time));
        }
        Toggled::Started(_) => panic!("a session was active"),
    }
    assert_eq!(slot, None);
}

#[test]
fn the_marker_key_adds_a_marker_named_marker() {
    let mut slot = Some(ActiveSession::started("s-1".to_string(), at(100)));
    let marker = handle_marker_at(&mut slot, "m-1".to_string(), at(110));
    let expected = Marker {
        id: "m-1".to_string(),
        timestamp: at(110),
        label: "Marker".to_string(),
        notes: None,
    };
    assert_eq!(marker, Some(expected.clone()));
    assert_eq!(slot.unwrap().markers, vec![expected]);
}

#[test]
fn the_marker_key_does_nothing_without_a_session() {
    let mut slot: Option<ActiveSession> = None;
    assert_eq!(handle_marker_at(&mut slot, "m-1".to_string(), at(110)), None);
    assert_eq!(handle_marker(&mut slot), None);
    assert_eq!(slot, None);
}

#[test]
fn the_marker_key_stamps_the_marker_now() {
    let mut slot = Some(ActiveSession::new());
    let marker = handle_marker(&mut slot).unwrap();
    assert_eq!(marker.label, "Marker");
    assert_eq!(slot.unwrap().markers, vec![marker]);
}

#[test]
fn notice_of_a_start() {
    assert_eq!(
        started_notification(),
        notice("Session Started", "Use Ctrl+Shift+M to add markers")
    );
}

#[test]
fn notice_of_a_saved_stop_gives_the_whole_minutes() {
    assert_eq!(
        stopped_notification(&record(100, 100 + 125), &FileWrite::Written),
        notice("Session Stopped", "Session duration: 2m")
    );
    assert_eq!(
        stopped_notification(&record(100, 159), &FileWrite::Written),
        notice("Session Stopped", "Session duration: 0m")
    );
    assert_eq!(
        stopped_notification(&record(100, 100 + 7_200), &FileWrite::Written),
        notice("Session Stopped", "Session duration: 120m")
    );
    assert_eq!(
        stopped_notification(&record(1_000, 1_000 - 125), &FileWrite::Written),
        notice("Session Stopped", "Session duration: -2m")
    );
}

#[test]
fn notice_of_a_stop_that_was_not_saved() {
    assert_eq!(
        stopped_notification(&record(100, 200), &FileWrite::NotCreated("denied".to_string())),
        notice("Error", "Failed to save session")
    );
    assert_eq!(
        stopped_notification(&record(100, 200), &FileWrite::NotSerialized("full".to_string())),
        notice("Error", "Failed to save session")
    );
}

#[test]
fn notice_after_the_marker_key() {
    assert_eq!(marker_notification(true), notice("Marker Added", "Marker added to current session"));
    assert_eq!(
        marker_notification(false),
        notice("No Active Session", "Start a session first with Ctrl+Shift+S")
    );
}

#[test]
fn tray_entries_ask_for_their_actions() {
    assert_eq!(handle_tray_event("quit"), TrayAction::Quit);
    assert_eq!(handle_tray_event("show"), TrayAction::Show);
    assert_eq!(handle_tray_event("start"), TrayAction::StartStop);
    assert_eq!(handle_tray_event("stop"), TrayAction::StartStop);
    assert_eq!(handle_tray_event("marker"), TrayAction::AddMarker);
}

#[test]
fn unknown_tray_entries_are_ignored() {
    assert_eq!(handle_tray_event(""), TrayAction::Ignore);
    assert_eq!(handle_tray_event("Quit"), TrayAction::Ignore);
    assert_eq!(handle_tray_event("quit "), TrayAction::Ignore);
    assert_eq!(handle_tray_event("markers"), TrayAction::Ignore);
}

#[test]
fn the_tray_menu_has_five_entries() {
    let entry = |id: &str, title: &str| MenuEntry { id: id.to_string(), title: title.to_string() };
    assert_eq!(
        create_tray_menu(),
        vec![
            entry("show", "Open Dibikaandaagozi"),
            entry("start", "Start Session"),
            entry("stop", "Stop Session"),
            entry("marker", "Add Marker"),
            entry("quit", "Quit"),
        ]
    );
}

#[test]
fn every_entry_of_the_tray_menu_asks_for_something() {
    for entry in create_tray_menu() {
        assert_ne!(handle_tray_event(&entry.id), TrayAction::Ignore);
    }
}
