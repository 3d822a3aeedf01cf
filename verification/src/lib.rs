//! Recording sessions: one active session at a time, markers added while it
//! runs, completed sessions kept as records and rendered for export.

pub mod clock;
pub mod error;
pub mod export;
pub mod laws;
pub mod manager;
pub mod session;
pub mod storage;
pub mod text;
pub mod triggers;

pub use crate::clock::Timestamp;
pub use crate::error::SessionError;
pub use crate::export::{export_session, ExportFormat};
pub use crate::manager::{
    add_marker, get_active_session, get_session_by_id, get_sessions, start_session, stop_session,
};
pub use crate::session::{ActiveSession, Marker, Session};
pub use crate::storage::Storage;
pub use crate::triggers::{create_tray_menu, handle_marker, handle_start_stop, handle_tray_event};
