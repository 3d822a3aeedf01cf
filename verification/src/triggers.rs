//! What the hotkeys and the tray menu ask of the session manager, and what
//! the user is told afterwards.

use crate::clock::{truncated_quotient, Instant, Timestamp};
use crate::manager::{slot_after, slot_view, Operation};
use crate::session::{
    fresh_id, is_hyphenated_uuid, ActiveSession, ActiveSessionView, Marker, MarkerView, Session,
    SessionView,
};
use crate::storage::FileWrite;
use crate::text::{decimal, push_decimal, same_text};
use vstd::prelude::*;
use vstd::string::*;

verus! {

/// A message for the user: a title and a line of text.
#[derive(Debug, PartialEq, Eq)]
pub struct Notification {
    pub title: String,
    pub message: String,
}

/// A notification as plain values.
pub struct NotificationView {
    pub title: Seq<char>,
    pub message: Seq<char>,
}

impl View for Notification {
    type V = NotificationView;

    open spec fn view(&self) -> NotificationView {
        NotificationView { title: self.title@, message: self.message@ }
    }
}

/// What the start-stop key did.
#[derive(Debug, PartialEq, Eq)]
pub enum Toggled {
    /// It started a session; this is its identifier.
    Started(String),
    /// It ended the session; this is its record, still to be saved.
    Stopped(Session),
}

/// The operation that the start-stop key stands for: a stop while a session
/// is being recorded, else a start.
pub open spec fn toggle_operation(slot: Option<ActiveSessionView>, id: Seq<char>, at: Instant)
    -> Operation {
    if slot is Some {
        Operation::Stop { at }
    } else {
        Operation::Start { id, at }
    }
}

/// The start-stop key at `at`: ends the session that is being recorded, or,
/// where there is none, starts one under `id`. The record of a session that
/// it ends does not end before the session started.
pub fn handle_start_stop_at(
    active_session: &mut Option<ActiveSession>,
    id: String,
    at: Timestamp,
) -> (res: Toggled)
    ensures
        slot_view(*final(active_session)) == slot_after(
            slot_view(*old(active_session)),
            toggle_operation(slot_view(*old(active_session)), id@, at@),
        ),
        match slot_view(*old(active_session)) {
            Some(active) => ({
                &&& res matches Toggled::Stopped(session)
                &&& session@ == active.completed(at@)
                &&& session@.ends_after_start()
            }),
            None => res matches Toggled::Started(given) && given@ == id@,
        },
{
    match active_session.take() {
        Some(active) => Toggled::Stopped(active.to_session_at(at)),
        None => {
            let new_session = ActiveSession::started(id, at);
            let given = new_session.id.clone();
            *active_session = Some(new_session);
            Toggled::Started(given)
        },
    }
}

/// The start-stop key, now: ends the session that is being recorded, or,
/// where there is none, starts one under a fresh identifier. It looks at the
/// slot first: only a start draws an identifier.
pub fn handle_start_stop(active_session: &mut Option<ActiveSession>) -> (res: Toggled)
    ensures
        match slot_view(*old(active_session)) {
            Some(active) => ({
                &&& *final(active_session) is None
                &&& res matches Toggled::Stopped(session)
                &&& session@.end_time.valid()
                &&& session@.ends_after_start()
                &&& session@ == active.completed(session@.end_time)
            }),
            None => ({
                &&& res matches Toggled::Started(given)
                &&& is_hyphenated_uuid(given@)
                &&& slot_view(*final(active_session)) matches Some(active)
                &&& active.start_time.valid()
                &&& active == ActiveSessionView::opened(given@, active.start_time)
            }),
        },
{
    match active_session.take() {
        Some(active) => Toggled::Stopped(active.to_session()),
        None => {
            let new_session = ActiveSession::new();
            let given = new_session.id.clone();
            *active_session = Some(new_session);
            Toggled::Started(given)
        },
    }
}

/// The label of a marker that the marker key adds.
pub open spec fn key_marker_label() -> Seq<char> {
    "Marker"@
}

/// The marker key at `at`: adds a marker under `id` to the session that is
/// being recorded and answers with a copy of it. Without a session it does
/// nothing.
pub fn handle_marker_at(active_session: &mut Option<ActiveSession>, id: String, at: Timestamp)
    -> (res: Option<Marker>)
    ensures
        slot_view(*final(active_session)) == slot_after(
            slot_view(*old(active_session)),
            Operation::AddMarker { id: id@, at: at@, label: key_marker_label() },
        ),
        *old(active_session) is None ==> res is None,
        *old(active_session) is Some ==> (res matches Some(marker) && marker@ == MarkerView::made(
            id@,
            at@,
            key_marker_label(),
        )),
{
    match active_session {
        Some(active) => {
            let marker = active.add_marker_at(id, at, "Marker");
            Some(marker.clone())
        },
        None => None,
    }
}

/// The marker key, now: adds a marker under a fresh identifier to the session
/// that is being recorded. Without a session it does nothing.
pub fn handle_marker(active_session: &mut Option<ActiveSession>) -> (res: Option<Marker>)
    ensures
        *old(active_session) is None ==> res is None && *final(active_session) is None,
        slot_view(*old(active_session)) matches Some(active) ==> ({
            &&& res matches Some(marker)
            &&& is_hyphenated_uuid(marker@.id)
            &&& marker@.timestamp.valid()
            &&& marker@ == MarkerView::made(marker@.id, marker@.timestamp, key_marker_label())
            &&& slot_view(*final(active_session)) == Some(active.with_marker(marker@))
        }),
{
    if active_session.is_none() {
        return None;
    }
    let id = fresh_id();
    let at = Timestamp::now();
    handle_marker_at(active_session, id, at)
}

/// What the user is told when a session has started.
pub open spec fn started_notice() -> NotificationView {
    NotificationView { title: "Session Started"@, message: "Use Ctrl+Shift+M to add markers"@ }
}

/// What the user is told when a session has ended: its length in whole
/// minutes where the record was saved, else that it was not.
pub open spec fn stopped_notice(session: SessionView, written: FileWrite) -> NotificationView {
    if written is Written {
        NotificationView {
            title: "Session Stopped"@,
            message: "Session duration: "@ + decimal(
                truncated_quotient(session.start_time.seconds_until(session.end_time), 60),
            ) + "m"@,
        }
    } else {
        NotificationView { title: "Error"@, message: "Failed to save session"@ }
    }
}

/// What the user is told after the marker key: that a marker was added, or
/// that no session is being recorded.
pub open spec fn marker_notice(added: bool) -> NotificationView {
    if added {
        NotificationView { title: "Marker Added"@, message: "Marker added to current session"@ }
    } else {
        NotificationView {
            title: "No Active Session"@,
            message: "Start a session first with Ctrl+Shift+S"@,
        }
    }
}

/// The message for a session that has started.
pub fn started_notification() -> (res: Notification)
    ensures
        res@ == started_notice(),
{
    Notification {
        title: "Session Started".to_owned(),
        message: "Use Ctrl+Shift+M to add markers".to_owned(),
    }
}

/// The message for a session that has ended, by what came of saving its
/// record.
pub fn stopped_notification(session: &Session, written: &FileWrite) -> (res: Notification)
    ensures
        res@ == stopped_notice(session@, *written),
{
    match written {
        FileWrite::Written => {
            let minutes: i64 = session.start_time.seconds_until(&session.end_time) / 60;
            let mut message = "Session duration: ".to_owned();
            push_decimal(&mut message, minutes);
            message.append("m");
            Notification { title: "Session Stopped".to_owned(), message }
        },
        _ => Notification {
            title: "Error".to_owned(),
            message: "Failed to save session".to_owned(),
        },
    }
}

/// The message after the marker key.
pub fn marker_notification(added: bool) -> (res: Notification)
    ensures
        res@ == marker_notice(added),
{
    if added {
        Notification {
            title: "Marker Added".to_owned(),
            message: "Marker added to current session".to_owned(),
        }
    } else {
        Notification {
            title: "No Active Session".to_owned(),
            message: "Start a session first with Ctrl+Shift+S".to_owned(),
        }
    }
}

/// What an entry of the tray menu asks for.
#[derive(Debug, Clone, Copy, PartialEq, Eq)]
pub enum TrayAction {
    /// Show the main window.
    Show,
    /// The same as the start-stop key.
    StartStop,
    /// The same as the marker key.
    AddMarker,
    /// Leave the program.
    Quit,
    /// Nothing: the entry is not one of this menu.
    Ignore,
}

/// The action of the menu entry with this identifier. The entries `start` and
/// `stop` both stand for the start-stop key.
pub open spec fn tray_action(id: Seq<char>) -> TrayAction {
    if id == "quit"@ {
        TrayAction::Quit
    } else if id == "show"@ {
        TrayAction::Show
    } else if id == "start"@ || id == "stop"@ {
        TrayAction::StartStop
    } else if id == "marker"@ {
        TrayAction::AddMarker
    } else {
        TrayAction::Ignore
    }
}

/// The action that a click on the menu entry `id` asks for.
pub fn handle_tray_event(id: &str) -> (res: TrayAction)
    ensures
        res == tray_action(id@),
{
    if same_text(id, "quit") {
        TrayAction::Quit
    } else if same_text(id, "show") {
        TrayAction::Show
    } else if same_text(id, "start") || same_text(id, "stop") {
        TrayAction::StartStop
    } else if same_text(id, "marker") {
        TrayAction::AddMarker
    } else {
        TrayAction::Ignore
    }
}

/// One entry of the tray menu: its identifier and the words it shows.
#[derive(Debug, PartialEq, Eq)]
pub struct MenuEntry {
    pub id: String,
    pub title: String,
}

/// The identifiers of the tray menu's entries, from top to bottom.
pub open spec fn tray_menu_ids() -> Seq<Seq<char>> {
    seq!["show"@, "start"@, "stop"@, "marker"@, "quit"@]
}

/// The words of the tray menu's entries, from top to bottom.
pub open spec fn tray_menu_titles() -> Seq<Seq<char>> {
    seq![
        "Open Dibikaandaagozi"@,
        "Start Session"@,
        "Stop Session"@,
        "Add Marker"@,
        "Quit"@,
    ]
}

fn menu_entry(id: &str, title: &str) -> (res: MenuEntry)
    ensures
        res.id@ == id@,
        res.title@ == title@,
{
    MenuEntry { id: id.to_owned(), title: title.to_owned() }
}

/// The entries of the tray menu, from top to bottom.
pub fn create_tray_menu() -> (res: Vec<MenuEntry>)
    ensures
        res@.len() == tray_menu_ids().len(),
        forall|i: int|
            0 <= i < res@.len() ==> (#[trigger] res@[i]).id@ == tray_menu_ids()[i] && res@[i].title@
                == tray_menu_titles()[i],
{
    let mut menu: Vec<MenuEntry> = Vec::new();
    menu.push(menu_entry("show", "Open Dibikaandaagozi"));
    menu.push(menu_entry("start", "Start Session"));
    menu.push(menu_entry("stop", "Stop Session"));
    menu.push(menu_entry("marker", "Add Marker"));
    menu.push(menu_entry("quit", "Quit"));
    menu
}

/// Every entry of the tray menu asks for something.
pub proof fn lemma_every_menu_entry_acts()
    ensures
        forall|i: int|
            0 <= i < tray_menu_ids().len() ==> tray_action(#[trigger] tray_menu_ids()[i])
                != TrayAction::Ignore,
{
    reveal_strlit("show");
    reveal_strlit("start");
    reveal_strlit("stop");
    reveal_strlit("marker");
    reveal_strlit("quit");
}

} // verus!
