use dibikaandaagozi::{ActiveSession, Marker, Session, Timestamp};

fn at(secs: i64, nanos: u32) -> Timestamp {
    Timestamp::new(secs, nanos).unwrap()
}

fn is_hyphenated_uuid(text: &str) -> bool {
    let chars: Vec<char> = text.chars().collect();
    if chars.len() != 36 {
        return false;
    }
    for (i, c) in chars.iter().enumerate() {
        let hyphen = i == 8 || i == 13 || i == 18 || i == 23;
        if hyphen && *c != '-' {
            return false;
        }
        if !hyphen && !(c.is_ascii_digit() || ('a'..='f').contains(c)) {
            return false;
        }
    }
    true
}

#[test]
fn the_identifier_of_a_new_session_is_a_hyphenated_uuid() {
    for _ in 0..20 {
        let id = ActiveSession::new().id;
        assert!(is_hyphenated_uuid(&id));
        let parsed = uuid::Uuid::parse_str(&id).unwrap();
        assert_eq!(parsed.get_version_num(), 4);
        assert_eq!(parsed.to_string(), id);
    }
}

#[test]
fn new_sessions_get_different_identifiers() {
    let a = ActiveSession::new().id;
    let b = ActiveSession::new().id;
    assert_ne!(a, b);
}

#[test]
fn new_session_has_no_markers() {
    let before = Timestamp::now();
    let active = ActiveSession::new();
    let after = Timestamp::now();
    assert!(active.markers.is_empty());
    assert!(is_hyphenated_uuid(&active.id));
    assert!(!active.start_time.is_before(&before));
    assert!(!after.is_before(&active.start_time));
}

#[test]
fn started_keeps_identifier_and_start() {
    let active = ActiveSession::started("s-1".to_string(), at(100, 5));
    assert_eq!(active.id, "s-1");
    assert_eq!(active.start_time, at(100, 5));
    assert!(active.markers.is_empty());
}

#[test]
fn add_marker_at_appends_and_hands_out_the_marker() {
    let mut active = ActiveSession::started("s-1".to_string(), at(100, 0));
    let first = active.add_marker_at("m-1".to_string(), at(101, 0), "lap").clone();
    assert_eq!(
        first,
        Marker {
            id: "m-1".to_string(),
            timestamp: at(101, 0),
            label: "lap".to_string(),
            notes: None,
        }
    );
    let second = active.add_marker_at("m-2".to_string(), at(102, 0), "lap2").clone();
    assert_eq!(active.markers, vec![first, second]);
    assert_eq!(active.id, "s-1");
    assert_eq!(active.start_time, at(100, 0));
}

#[test]
fn add_marker_stamps_the_marker_now() {
    let mut active = ActiveSession::started("s-1".to_string(), at(100, 0));
    let before = Timestamp::now();
    let marker = active.add_marker("lap").clone();
    let after = Timestamp::now();
    assert_eq!(marker.label, "lap");
    assert_eq!(marker.notes, None);
    assert!(is_hyphenated_uuid(&marker.id));
    assert!(!marker.timestamp.is_before(&before));
    assert!(!after.is_before(&marker.timestamp));
    assert_eq!(active.markers, vec![marker]);
}

#[test]
fn markers_of_one_session_get_different_identifiers() {
    let mut active = ActiveSession::new();
    let a = active.add_marker("a").id.clone();
    let b = active.add_marker("b").id.clone();
    assert_ne!(a, b);
    assert_ne!(a, active.id);
}

#[test]
fn to_session_at_copies_the_session_and_sets_the_end() {
    let mut active = ActiveSession::started("s-1".to_string(), at(100, 0));
    active.add_marker_at("m-1".to_string(), at(101, 0), "lap");
    let record = active.to_session_at(at(200, 7));
    assert_eq!(
        record,
        Session {
            id: "s-1".to_string(),
            start_time: at(100, 0),
            end_time: at(200, 7),
            markers: vec![Marker {
                id: "m-1".to_string(),
                timestamp: at(101, 0),
                label: "lap".to_string(),
                notes: None,
            }],
            name: None,
        }
    );
    assert_eq!(active.markers.len(), 1);
}

#[test]
fn to_session_at_ends_the_record_at_its_start_where_the_end_is_earlier() {
    let active = ActiveSession::started("s-1".to_string(), at(100, 0));
    let record = active.to_session_at(at(50, 0));
    assert_eq!(record.start_time, at(100, 0));
    assert_eq!(record.end_time, at(100, 0));
    assert!(!record.end_time.is_before(&record.start_time));
    let close = active.to_session_at(at(99, 999_999_999));
    assert_eq!(close.end_time, at(100, 0));
}

#[test]
fn to_session_at_keeps_an_end_at_or_after_the_start() {
    let active = ActiveSession::started("s-1".to_string(), at(100, 5));
    assert_eq!(active.to_session_at(at(100, 5)).end_time, at(100, 5));
    assert_eq!(active.to_session_at(at(100, 6)).end_time, at(100, 6));
    assert_eq!(active.to_session_at(at(101, 0)).end_time, at(101, 0));
}

#[test]
fn to_session_of_a_session_that_starts_in_the_future_ends_at_its_start() {
    let start = Timestamp::new(Timestamp::now().seconds() + 3_600, 0).unwrap();
    let active = ActiveSession::started("s-1".to_string(), start);
    let record = active.to_session();
    assert_eq!(record.end_time, start);
    assert!(!record.end_time.is_before(&record.start_time));
}

#[test]
fn to_session_ends_now() {
    let active = ActiveSession::new();
    let record = active.to_session();
    let after = Timestamp::now();
    assert_eq!(record.id, active.id);
    assert_eq!(record.start_time, active.start_time);
    assert_eq!(record.name, None);
    assert!(!record.end_time.is_before(&record.start_time));
    assert!(!after.is_before(&record.end_time));
}

#[test]
fn clones_are_equal() {
    let marker = Marker {
        id: "m".to_string(),
        timestamp: at(1, 2),
        label: "l".to_string(),
        notes: Some("n".to_string()),
    };
    assert_eq!(marker.clone(), marker);
    let record = Session {
        id: "s".to_string(),
        start_time: at(1, 0),
        end_time: at(2, 0),
        markers: vec![marker.clone()],
        name: Some("name".to_string()),
    };
    assert_eq!(record.clone(), record);
    let active =
        ActiveSession { id: "a".to_string(), start_time: at(1, 0), markers: vec![marker] };
    assert_eq!(active.clone(), active);
}
