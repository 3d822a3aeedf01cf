use dibikaandaagozi::{
    add_marker, get_active_session, start_session, stop_session, ActiveSession, SessionError,
};
use std::sync::{Arc, Mutex};

type Slot = Arc<Mutex<Option<ActiveSession>>>;

fn shared() -> Slot {
    Arc::new(Mutex::new(None))
}

#[test]
fn two_markers_from_two_holders_of_the_state_both_appear() {
    let hotkey = shared();
    let tray = Arc::clone(&hotkey);
    start_session(&mut hotkey.lock().unwrap()).unwrap();
    let left = add_marker("left".to_string(), &mut hotkey.lock().unwrap()).unwrap();
    let right = add_marker("right".to_string(), &mut tray.lock().unwrap()).unwrap();
    let markers = get_active_session(&tray.lock().unwrap()).unwrap().markers;
    assert_eq!(markers.len(), 2);
    assert!(markers.contains(&left));
    assert!(markers.contains(&right));
    assert_ne!(left.id, right.id);
    assert_eq!(markers, vec![left, right]);
}

#[test]
fn markers_from_several_holders_are_all_kept_in_the_order_of_the_lock() {
    let state = shared();
    let holders: Vec<Slot> = (0..4).map(|_| Arc::clone(&state)).collect();
    start_session(&mut state.lock().unwrap()).unwrap();
    let mut expected = Vec::new();
    for round in 0..25 {
        for (n, holder) in holders.iter().enumerate() {
            let label = format!("{}-{}", n, round);
            add_marker(label.clone(), &mut holder.lock().unwrap()).unwrap();
            expected.push(label);
        }
    }
    let record = stop_session(&mut state.lock().unwrap()).unwrap();
    let labels: Vec<String> = record.markers.into_iter().map(|m| m.label).collect();
    assert_eq!(labels.len(), 100);
    assert_eq!(labels, expected);
}

#[test]
fn of_several_starts_through_the_lock_one_is_accepted() {
    let state = shared();
    let holders: Vec<Slot> = (0..8).map(|_| Arc::clone(&state)).collect();
    let answers: Vec<Result<String, SessionError>> =
        holders.iter().map(|holder| start_session(&mut holder.lock().unwrap())).collect();
    assert_eq!(answers.iter().filter(|answer| answer.is_ok()).count(), 1);
    assert!(answers[0].is_ok());
    for answer in &answers[1..] {
        assert_eq!(answer, &Err(SessionError::AlreadyActive));
    }
    assert!(get_active_session(&state.lock().unwrap()).is_some());
}
