//! Rendering a completed session for export: as a table of markers, or as a
//! report with the session's duration and each marker's offset from the start.

use crate::clock::{
    rfc3339_text, strftime_text, truncated_quotient, truncated_remainder, Instant,
    DATE_TIME_PATTERN, TIME_OF_DAY_PATTERN,
};
use crate::error::SessionError;
use crate::session::{Marker, MarkerView, Session, SessionView};
use crate::storage::{FileRead, Storage};
use crate::text::{decimal, push_decimal, push_quotes_doubled, quotes_doubled};
use vstd::prelude::*;
use vstd::string::*;

verus! {

/// The text of an optional field, or `default` where there is none.
pub open spec fn text_or(field: Option<Seq<char>>, default: Seq<char>) -> Seq<char> {
    match field {
        Some(text) => text,
        None => default,
    }
}

/// The first line of the table.
pub open spec fn csv_header() -> Seq<char> {
    "Marker ID,Timestamp,Label,Notes\n"@
}

/// Whether a field has to stand between quotes to be read back as one field:
/// it holds a comma or a double quote.
pub open spec fn needs_quotes(field: Seq<char>) -> bool {
    exists|i: int| 0 <= i < field.len() && (#[trigger] field[i] == ',' || field[i] == '"')
}

/// The field between double quotes, with each double quote inside it doubled.
pub open spec fn quoted(field: Seq<char>) -> Seq<char> {
    "\""@ + quotes_doubled(field) + "\""@
}

/// A field as the table shows it: between quotes where it needs them, and as
/// it is where it does not.
pub open spec fn csv_field(field: Seq<char>) -> Seq<char> {
    if needs_quotes(field) {
        quoted(field)
    } else {
        field
    }
}

/// The line of one marker, given the text of its instant. The identifier and
/// that text stand as `csv_field` shows them: as they are, or between quotes
/// where they hold a comma or a double quote. The label and the notes always
/// stand between quotes, with each double quote inside them doubled. A marker
/// without notes has an empty last field.
pub open spec fn csv_row_with(marker: MarkerView, stamp: Seq<char>) -> Seq<char> {
    csv_field(marker.id) + ","@ + csv_field(stamp) + ","@ + quoted(marker.label) + ","@ + quoted(
        text_or(marker.notes, Seq::empty()),
    ) + "\n"@
}

/// The line of one marker, with its instant in RFC 3339 form.
pub open spec fn csv_row(marker: MarkerView) -> Seq<char> {
    csv_row_with(marker, rfc3339_text(marker.timestamp.secs, marker.timestamp.nanos))
}

/// The lines of the markers, in their order.
pub open spec fn csv_rows(markers: Seq<MarkerView>) -> Seq<char>
    decreases markers.len(),
{
    if markers.len() == 0 {
        Seq::empty()
    } else {
        csv_rows(markers.drop_last()) + csv_row(markers.last())
    }
}

/// The table of a session: the header, then one line for each marker.
pub open spec fn csv_text(session: SessionView) -> Seq<char> {
    csv_header() + csv_rows(session.markers)
}

/// Whether `field` holds a comma or a double quote.
pub fn holds_comma_or_quote(field: &str) -> (res: bool)
    ensures
        res == needs_quotes(field@),
{
    let mut found = false;
    for c in it: field.chars()
        invariant
            it.seq() == field@,
            found == needs_quotes(field@.take(it.index() as int)),
    {
        proof {
            let k = it.index();
            let seen = field@.take(k);
            let next = field@.take(k + 1);
            assert(next[k] == c);
            if needs_quotes(seen) {
                let i = choose|i: int|
                    0 <= i < seen.len() && (#[trigger] seen[i] == ',' || seen[i] == '"');
                assert(next[i] == seen[i]);
            }
            if needs_quotes(next) {
                let i = choose|i: int|
                    0 <= i < next.len() && (#[trigger] next[i] == ',' || next[i] == '"');
                if i < k {
                    assert(seen[i] == next[i]);
                }
            }
            assert(needs_quotes(next) == (needs_quotes(seen) || c == ',' || c == '"'));
        }
        if c == ',' || c == '"' {
            found = true;
        }
    }
    proof {
        assert(field@.take(field@.len() as int) =~= field@);
    }
    found
}

/// Appends `field` between double quotes, with each double quote inside it
/// doubled.
pub fn push_quoted(out: &mut String, field: &str)
    ensures
        final(out)@ == old(out)@ + quoted(field@),
{
    out.append("\"");
    push_quotes_doubled(out, field);
    out.append("\"");
    assert(out@ =~= old(out)@ + quoted(field@));
}

/// Appends `field` as the table shows it: between quotes where it holds a
/// comma or a double quote, and as it is where it does not.
pub fn push_csv_field(out: &mut String, field: &str)
    ensures
        final(out)@ == old(out)@ + csv_field(field@),
{
    if holds_comma_or_quote(field) {
        push_quoted(out, field);
    } else {
        out.append(field);
    }
}

/// The table line of one marker, given the text of its instant.
pub fn csv_line(marker: &Marker, stamp: &str) -> (res: String)
    ensures
        res@ == csv_row_with(marker@, stamp@),
{
    let mut out = String::new();
    push_csv_field(&mut out, marker.id.as_str());
    out.append(",");
    push_csv_field(&mut out, stamp);
    out.append(",");
    push_quoted(&mut out, marker.label.as_str());
    out.append(",");
    match &marker.notes {
        Some(notes) => {
            push_quoted(&mut out, notes.as_str());
        },
        None => {
            proof {
                reveal_strlit("");
                assert(""@ =~= Seq::<char>::empty());
            }
            push_quoted(&mut out, "");
        },
    }
    out.append("\n");
    assert(out@ =~= csv_row_with(marker@, stamp@));
    out
}

/// The session as a table, one line for each marker under a header line.
pub fn export_csv(session: &Session) -> (res: String)
    ensures
        res@ == csv_text(session@),
{
    let mut out = String::new();
    out.append("Marker ID,Timestamp,Label,Notes\n");
    let mut i: usize = 0;
    assert(session@.markers.take(0) =~= Seq::empty());
    while i < session.markers.len()
        invariant
            i <= session.markers.len(),
            out@ == csv_header() + csv_rows(session@.markers.take(i as int)),
        decreases session.markers.len() - i,
    {
        let marker = &session.markers[i];
        let stamp = marker.timestamp.to_rfc3339();
        let line = csv_line(marker, stamp.as_str());
        out.append(line.as_str());
        proof {
            let next = session@.markers.take(i + 1);
            assert(next.drop_last() =~= session@.markers.take(i as int));
            assert(next.last() == session.markers@[i as int]@);
            assert(out@ =~= csv_header() + csv_rows(next));
        }
        i += 1;
    }
    assert(session@.markers.take(session.markers.len() as int) =~= session@.markers);
    out
}

/// A duration as hours, minutes within the hour and seconds within the
/// minute, each rounded towards zero, so that a negative duration shows with
/// negative parts.
pub open spec fn duration_text(seconds: int) -> Seq<char> {
    decimal(truncated_quotient(seconds, 3600)) + "h "@ + decimal(
        truncated_remainder(truncated_quotient(seconds, 60), 60),
    ) + "m "@ + decimal(truncated_remainder(seconds, 60)) + "s"@
}

/// An offset as whole minutes and seconds within the minute, each rounded
/// towards zero.
pub open spec fn offset_text(seconds: int) -> Seq<char> {
    decimal(truncated_quotient(seconds, 60)) + "m "@ + decimal(truncated_remainder(seconds, 60))
        + "s"@
}

/// The head of the report, given the texts of the session's start and end
/// and its length in seconds.
pub open spec fn markdown_header_with(
    id: Seq<char>,
    start: Seq<char>,
    end: Seq<char>,
    seconds: int,
) -> Seq<char> {
    "# Session Report: "@ + id + "\n"@ + "- **Start Time**: "@ + start + "\n"@
        + "- **End Time**: "@ + end + "\n"@ + "- **Duration**: "@ + duration_text(seconds) + "\n"@
}

/// The head of the report: the session's identifier, its start and end as
/// date and time of day, and its duration.
pub open spec fn markdown_header(session: SessionView) -> Seq<char> {
    markdown_header_with(
        session.id,
        strftime_text(session.start_time.secs, session.start_time.nanos, DATE_TIME_PATTERN@),
        strftime_text(session.end_time.secs, session.end_time.nanos, DATE_TIME_PATTERN@),
        session.start_time.seconds_until(session.end_time),
    )
}

/// The head of the marker table.
pub open spec fn markdown_table_header() -> Seq<char> {
    "\n## Markers\n\n"@ + "| Time | Timestamp | Label | Notes |\n"@
        + "|------|-----------|-------|-------|\n"@
}

/// The table line of one marker, given its offset from the session's start
/// in seconds and the text of its time of day: the offset, that text, the
/// label, and the notes or a dash.
pub open spec fn markdown_row_with(marker: MarkerView, offset: int, time_of_day: Seq<char>) -> Seq<
    char,
> {
    "| "@ + offset_text(offset) + " | "@ + time_of_day + " | "@ + marker.label + " | "@ + text_or(
        marker.notes,
        "-"@,
    ) + " |\n"@
}

/// The table line of one marker of a session that started at `start`.
pub open spec fn markdown_row(start: Instant, marker: MarkerView) -> Seq<char> {
    markdown_row_with(
        marker,
        start.seconds_until(marker.timestamp),
        strftime_text(marker.timestamp.secs, marker.timestamp.nanos, TIME_OF_DAY_PATTERN@),
    )
}

/// The table lines of the markers, in their order.
pub open spec fn markdown_rows(start: Instant, markers: Seq<MarkerView>) -> Seq<char>
    decreases markers.len(),
{
    if markers.len() == 0 {
        Seq::empty()
    } else {
        markdown_rows(start, markers.drop_last()) + markdown_row(start, markers.last())
    }
}

/// The report of a session: the head, the head of the marker table, and one
/// table line for each marker.
pub open spec fn markdown_text(session: SessionView) -> Seq<char> {
    markdown_header(session) + markdown_table_header() + markdown_rows(
        session.start_time,
        session.markers,
    )
}

/// A duration of `seconds` as hours, minutes and seconds.
pub fn duration_label(seconds: i64) -> (res: String)
    ensures
        res@ == duration_text(seconds as int),
{
    let hours: i64 = seconds / 3600;
    let minutes: i64 = (seconds / 60) % 60;
    let rest: i64 = seconds % 60;
    let mut out = String::new();
    push_decimal(&mut out, hours);
    out.append("h ");
    push_decimal(&mut out, minutes);
    out.append("m ");
    push_decimal(&mut out, rest);
    out.append("s");
    assert(out@ =~= duration_text(seconds as int));
    out
}

/// An offset of `seconds` as minutes and seconds.
pub fn offset_label(seconds: i64) -> (res: String)
    ensures
        res@ == offset_text(seconds as int),
{
    let minutes: i64 = seconds / 60;
    let rest: i64 = seconds % 60;
    let mut out = String::new();
    push_decimal(&mut out, minutes);
    out.append("m ");
    push_decimal(&mut out, rest);
    out.append("s");
    assert(out@ =~= offset_text(seconds as int));
    out
}

/// The head of the report, given the texts of the session's start and end
/// and its length in seconds.
pub fn markdown_head(id: &str, start: &str, end: &str, seconds: i64) -> (res: String)
    ensures
        res@ == markdown_header_with(id@, start@, end@, seconds as int),
{
    let duration = duration_label(seconds);
    let mut out = String::new();
    out.append("# Session Report: ");
    out.append(id);
    out.append("\n");
    out.append("- **Start Time**: ");
    out.append(start);
    out.append("\n");
    out.append("- **End Time**: ");
    out.append(end);
    out.append("\n");
    out.append("- **Duration**: ");
    out.append(duration.as_str());
    out.append("\n");
    assert(out@ =~= markdown_header_with(id@, start@, end@, seconds as int));
    out
}

/// The table line of one marker, given its offset from the session's start
/// in seconds and the text of its time of day.
pub fn markdown_line(marker: &Marker, offset: i64, time_of_day: &str) -> (res: String)
    ensures
        res@ == markdown_row_with(marker@, offset as int, time_of_day@),
{
    let shown = offset_label(offset);
    let mut out = String::new();
    out.append("| ");
    out.append(shown.as_str());
    out.append(" | ");
    out.append(time_of_day);
    out.append(" | ");
    out.append(marker.label.as_str());
    out.append(" | ");
    match &marker.notes {
        Some(notes) => {
            out.append(notes.as_str());
        },
        None => {
            out.append("-");
        },
    }
    out.append(" |\n");
    assert(out@ =~= markdown_row_with(marker@, offset as int, time_of_day@));
    out
}

/// The session as a report: a head with its identifier, start, end and
/// duration, then a table with one line for each marker.
pub fn export_markdown(session: &Session) -> (res: String)
    ensures
        res@ == markdown_text(session@),
{
    let start = session.start_time.date_time_text();
    let end = session.end_time.date_time_text();
    let seconds = session.start_time.seconds_until(&session.end_time);
    let mut out = markdown_head(session.id.as_str(), start.as_str(), end.as_str(), seconds);
    out.append("\n## Markers\n\n");
    out.append("| Time | Timestamp | Label | Notes |\n");
    out.append("|------|-----------|-------|-------|\n");
    let ghost head = markdown_header(session@) + markdown_table_header();
    assert(out@ =~= head);
    let mut i: usize = 0;
    assert(session@.markers.take(0) =~= Seq::empty());
    while i < session.markers.len()
        invariant
            i <= session.markers.len(),
            out@ == head + markdown_rows(session@.start_time, session@.markers.take(i as int)),
        decreases session.markers.len() - i,
    {
        let marker = &session.markers[i];
        let offset = session.start_time.seconds_until(&marker.timestamp);
        let time_of_day = marker.timestamp.time_of_day_text();
        let line = markdown_line(marker, offset, time_of_day.as_str());
        out.append(line.as_str());
        proof {
            let next = session@.markers.take(i + 1);
            assert(next.drop_last() =~= session@.markers.take(i as int));
            assert(next.last() == session.markers@[i as int]@);
            assert(out@ =~= head + markdown_rows(session@.start_time, next));
        }
        i += 1;
    }
    assert(session@.markers.take(session.markers.len() as int) =~= session@.markers);
    out
}

/// The forms in which a session can be exported: the record itself in
/// structured form, a table of its markers, or a report.
#[derive(Debug, Clone, Copy, PartialEq, Eq)]
pub enum ExportFormat {
    JSON,
    CSV,
    Markdown,
}

impl ExportFormat {
    /// The name under which a file dialog offers the form.
    pub open spec fn filter_name_text(self) -> Seq<char> {
        match self {
            ExportFormat::JSON => "JSON"@,
            ExportFormat::CSV => "CSV"@,
            ExportFormat::Markdown => "Markdown"@,
        }
    }

    /// The extension of a file in the form.
    pub open spec fn extension_text(self) -> Seq<char> {
        match self {
            ExportFormat::JSON => "json"@,
            ExportFormat::CSV => "csv"@,
            ExportFormat::Markdown => "md"@,
        }
    }

    /// The name under which a file dialog offers the form.
    pub fn filter_name(&self) -> (res: &'static str)
        ensures
            res@ == self.filter_name_text(),
    {
        match self {
            ExportFormat::JSON => "JSON",
            ExportFormat::CSV => "CSV",
            ExportFormat::Markdown => "Markdown",
        }
    }

    /// The extension of a file in the form.
    pub fn extension(&self) -> (res: &'static str)
        ensures
            res@ == self.extension_text(),
    {
        match self {
            ExportFormat::JSON => "json",
            ExportFormat::CSV => "csv",
            ExportFormat::Markdown => "md",
        }
    }
}

/// The text of a session in a form, for the two forms that are text of this
/// library's own making. The structured form is the record itself, in the
/// encoding in which the store keeps it.
pub open spec fn export_text(session: SessionView, format: ExportFormat) -> Option<Seq<char>> {
    match format {
        ExportFormat::JSON => None,
        ExportFormat::CSV => Some(csv_text(session)),
        ExportFormat::Markdown => Some(markdown_text(session)),
    }
}

/// Renders a session in a form. The session is left as it is. For the
/// structured form there is no text to make: the record is written as the
/// store would write it.
pub fn export(session: &Session, format: ExportFormat) -> (res: Option<String>)
    ensures
        export_text(session@, format) matches Some(text) ==> res matches Some(made) && made@
            == text,
        export_text(session@, format) is None ==> res is None,
{
    match format {
        ExportFormat::JSON => None,
        ExportFormat::CSV => Some(export_csv(session)),
        ExportFormat::Markdown => Some(export_markdown(session)),
    }
}

/// What the user is told after an export.
pub open spec fn exported_message() -> Seq<char> {
    "Session exported successfully"@
}

/// What the user is told where no destination was chosen.
pub open spec fn no_destination_message() -> Seq<char> {
    "Failed to save file"@
}

/// The session to export, once the file of the record kept under `id` has
/// been read: the record, or the failure. That no record is kept under `id`
/// is a failure here.
pub fn export_session(id: String, read: FileRead) -> (res: Result<Session, SessionError>)
    ensures
        res == (match read {
            FileRead::Record(session) => Ok::<Session, SessionError>(session),
            FileRead::Missing => Err(SessionError::NotFound(id)),
            FileRead::Unreadable(detail) => Err(SessionError::StoreReadError(detail)),
            FileRead::Malformed(detail) => Err(SessionError::SerializationError(detail)),
        }),
{
    match Storage::get_session(read) {
        Ok(Some(session)) => Ok(session),
        Ok(None) => Err(SessionError::NotFound(id)),
        Err(error) => Err(error),
    }
}

/// What came of choosing a destination and writing the export there.
#[derive(Debug, PartialEq, Eq)]
pub enum ExportWrite {
    /// The user chose no destination.
    NoDestination,
    /// The export is in its file.
    Written,
    /// The export could not be written; the words say why.
    NotWritten(String),
}

/// What an export answers in the end: the word of success, or the failure.
pub fn export_session_written(written: ExportWrite) -> (res: Result<String, SessionError>)
    ensures
        match written {
            ExportWrite::Written => res matches Ok(text) && text@ == exported_message(),
            ExportWrite::NoDestination => res matches Err(SessionError::StoreWriteError(detail))
                && detail@ == no_destination_message(),
            ExportWrite::NotWritten(detail) => res == Err::<String, SessionError>(
                SessionError::StoreWriteError(detail),
            ),
        },
{
    match written {
        ExportWrite::Written => Ok("Session exported successfully".to_owned()),
        ExportWrite::NoDestination => Err(
            SessionError::StoreWriteError("Failed to save file".to_owned()),
        ),
        ExportWrite::NotWritten(detail) => Err(SessionError::StoreWriteError(detail)),
    }
}

} // verus!
