//! The record store: where the record of a session lies, which files of the
//! data directory hold records, and what a lookup or a listing answers once
//! the files have been read.

use crate::error::SessionError;
use crate::session::Session;
use crate::text::{ends_with, has_prefix, has_suffix, starts_with};
use vstd::prelude::*;
use vstd::string::*;

verus! {

/// The directory, below the platform's data directory, that holds the records.
pub open spec fn app_dir_name() -> Seq<char> {
    "dibikaandaagozi"@
}

/// The name of the file that holds the record kept under `id`.
pub open spec fn session_file_name(id: Seq<char>) -> Seq<char> {
    "session_"@ + id + ".json"@
}

/// Where the file `name` lies in the directory `dir`.
pub open spec fn path_in(dir: Seq<char>, name: Seq<char>) -> Seq<char> {
    dir + "/"@ + name
}

/// Whether a file of this name holds a record: the name begins with
/// `session_` and ends with `.json`.
pub open spec fn is_session_file_name(name: Seq<char>) -> bool {
    has_prefix(name, "session_"@) && has_suffix(name, ".json"@)
}

/// Asks `dirs::data_dir` for the platform's directory for application data
/// and takes its path as text.
///
/// Trusted: nothing. Where the platform names no such directory, or names one
/// whose path is no Unicode text, the answer is `None`.
#[verifier::external_body]
fn platform_data_dir() -> (res: Option<String>) {
    match dirs::data_dir() {
        Some(path) => path.into_os_string().into_string().ok(),
        None => None,
    }
}

/// What came of reading one file.
#[derive(Debug, PartialEq, Eq)]
pub enum FileRead {
    /// There is no such file.
    Missing,
    /// The file could not be opened; the words say why.
    Unreadable(String),
    /// The file holds no well-formed record; the words say why.
    Malformed(String),
    /// The file holds this record.
    Record(Session),
}

/// What came of writing one record.
#[derive(Debug, PartialEq, Eq)]
pub enum FileWrite {
    /// The record is in its file.
    Written,
    /// The file could not be created; the words say why.
    NotCreated(String),
    /// The record could not be put into the file; the words say why.
    NotSerialized(String),
}

/// One entry of the data directory, with what came of reading it.
#[derive(Debug, PartialEq, Eq)]
pub struct StoredFile {
    pub name: String,
    pub is_file: bool,
    pub read: FileRead,
}

/// The record store: it knows the data directory.
#[derive(Debug)]
pub struct Storage {
    data_dir: String,
}

impl View for Storage {
    type V = Seq<char>;

    /// The path of the data directory.
    closed spec fn view(&self) -> Seq<char> {
        self.data_dir@
    }
}

impl Storage {
    /// The store below the platform's directory for application data, if the
    /// platform names one.
    pub fn new() -> (res: Option<Storage>)
        ensures
            res matches Some(storage) ==> has_suffix(storage@, "/"@ + app_dir_name()),
    {
        let found = Storage::below(platform_data_dir());
        proof {
            if found is Some {
                let tail = "/"@ + app_dir_name();
                assert(found->0@.skip(found->0@.len() - tail.len()) =~= tail);
            }
        }
        found
    }

    /// The store below the directory that the platform names for application
    /// data, if it names one.
    pub fn below(data_dir: Option<String>) -> (res: Option<Storage>)
        ensures
            match data_dir {
                Some(base) => res matches Some(storage) && storage@ == path_in(
                    base@,
                    app_dir_name(),
                ),
                None => res is None,
            },
    {
        match data_dir {
            Some(base) => Some(Storage::in_dir(base.as_str())),
            None => None,
        }
    }

    /// The store in the directory `dibikaandaagozi` below `base`.
    pub fn in_dir(base: &str) -> (res: Storage)
        ensures
            res@ == path_in(base@, app_dir_name()),
    {
        let mut data_dir = base.to_owned();
        data_dir.append("/");
        data_dir.append("dibikaandaagozi");
        assert(data_dir@ =~= path_in(base@, app_dir_name()));
        Storage { data_dir }
    }

    /// The path of the data directory.
    pub fn data_dir(&self) -> (res: &str)
        ensures
            res@ == self@,
    {
        self.data_dir.as_str()
    }

    /// Where the record kept under `id` lies.
    pub fn session_path(&self, id: &str) -> (res: String)
        ensures
            res@ == path_in(self@, session_file_name(id@)),
    {
        let mut path = self.data_dir.clone();
        path.append("/");
        path.append("session_");
        path.append(id);
        path.append(".json");
        assert(path@ =~= path_in(self@, session_file_name(id@)));
        path
    }

    /// Whether a directory entry of this name holds a record.
    pub fn is_session_file(name: &str) -> (res: bool)
        ensures
            res == is_session_file_name(name@),
    {
        starts_with(name, "session_") && ends_with(name, ".json")
    }

    /// What saving a record answers, once the write into the file at its
    /// `session_path` has been tried: success where it is written, else the
    /// failure, reported as it came.
    pub fn save_session(written: FileWrite) -> (res: Result<(), SessionError>)
        ensures
            res == save_answer(written),
    {
        match written {
            FileWrite::Written => Ok(()),
            FileWrite::NotCreated(detail) => Err(SessionError::StoreWriteError(detail)),
            FileWrite::NotSerialized(detail) => Err(SessionError::SerializationError(detail)),
        }
    }

    /// What looking up a record answers, once the file at its `session_path`
    /// has been read: the record as it was read; nothing where there is no
    /// file, which is no failure; else the failure.
    pub fn get_session(read: FileRead) -> (res: Result<Option<Session>, SessionError>)
        ensures
            res == lookup_answer(read),
    {
        match read {
            FileRead::Missing => Ok(None),
            FileRead::Unreadable(detail) => Err(SessionError::StoreReadError(detail)),
            FileRead::Malformed(detail) => Err(SessionError::SerializationError(detail)),
            FileRead::Record(session) => Ok(Some(session)),
        }
    }
}

/// The answer to a save, by what came of the write.
pub open spec fn save_answer(written: FileWrite) -> Result<(), SessionError> {
    match written {
        FileWrite::Written => Ok(()),
        FileWrite::NotCreated(detail) => Err(SessionError::StoreWriteError(detail)),
        FileWrite::NotSerialized(detail) => Err(SessionError::SerializationError(detail)),
    }
}

/// The answer to a lookup, by what came of reading the file.
pub open spec fn lookup_answer(read: FileRead) -> Result<Option<Session>, SessionError> {
    match read {
        FileRead::Missing => Ok(None),
        FileRead::Unreadable(detail) => Err(SessionError::StoreReadError(detail)),
        FileRead::Malformed(detail) => Err(SessionError::SerializationError(detail)),
        FileRead::Record(session) => Ok(Some(session)),
    }
}

/// The record that a directory entry adds to a listing: the one read from a
/// regular file whose name is that of a record. Any other entry, and a file
/// that could not be read or holds no well-formed record, adds none.
pub open spec fn listed_record(file: StoredFile) -> Option<Session> {
    match file.read {
        FileRead::Record(session) => if file.is_file && is_session_file_name(file.name@) {
            Some(session)
        } else {
            None
        },
        _ => None,
    }
}

/// The records that the entries add to a listing, in the entries' order.
pub open spec fn listed_records(files: Seq<StoredFile>) -> Seq<Session> {
    files.filter_map(|file: StoredFile| listed_record(file))
}

impl Storage {
    /// What listing the records answers, once the data directory and its
    /// files have been read: every record that was read from a regular file
    /// named as a record, in the order of the entries. A file that could not
    /// be read, or holds no well-formed record, is passed over and hides no
    /// other. The listing fails only where the directory itself could not be
    /// read.
    pub fn list_sessions(entries: Result<Vec<StoredFile>, String>) -> (res: Result<
        Vec<Session>,
        SessionError,
    >)
        ensures
            entries matches Ok(files) ==> res matches Ok(found) && found@ == listed_records(
                files@,
            ),
            entries matches Err(detail) ==> res == Err::<Vec<Session>, SessionError>(
                SessionError::StoreReadError(detail),
            ),
    {
        match entries {
            Ok(files) => {
                let mut found: Vec<Session> = Vec::new();
                let ghost all = files@;
                assert(all.take(0) =~= Seq::empty());
                for file in it: files.into_iter()
                    invariant
                        it.seq() == all,
                        found@ == listed_records(all.take(it.index() as int)),
                {
                    proof {
                        let next = all.take(it.index() + 1);
                        assert(next.drop_last() =~= all.take(it.index() as int));
                        assert(next.last() == file);
                        assert(listed_records(next) =~= match listed_record(file) {
                            Some(session) => found@.push(session),
                            None => found@,
                        });
                    }
                    if file.is_file && Storage::is_session_file(file.name.as_str()) {
                        match file.read {
                            FileRead::Record(session) => {
                                found.push(session);
                            },
                            _ => {},
                        }
                    }
                }
                proof {
                    assert(all.take(all.len() as int) =~= all);
                }
                Ok(found)
            },
            Err(detail) => Err(SessionError::StoreReadError(detail)),
        }
    }
}

/// The name under which a record is saved is the name of a record, so a
/// listing finds every record that was saved.
pub proof fn lemma_saved_file_is_listed(id: Seq<char>)
    ensures
        is_session_file_name(session_file_name(id)),
{
    let name = session_file_name(id);
    reveal_strlit("session_");
    reveal_strlit(".json");
    assert(name.take("session_"@.len() as int) =~= "session_"@);
    assert(name.skip(name.len() - ".json"@.len()) =~= ".json"@);
}

/// Records kept under different identifiers lie in different files of the
/// data directory.
pub proof fn lemma_session_path_injective(dir: Seq<char>, a: Seq<char>, b: Seq<char>)
    requires
        path_in(dir, session_file_name(a)) == path_in(dir, session_file_name(b)),
    ensures
        a == b,
{
    let head = dir + "/"@ + "session_"@;
    let pa = path_in(dir, session_file_name(a));
    let pb = path_in(dir, session_file_name(b));
    assert(pa =~= head + a + ".json"@);
    assert(pb =~= head + b + ".json"@);
    assert(pa.len() == pb.len());
    assert(a.len() == b.len());
    assert forall|i: int| 0 <= i < a.len() implies a[i] == b[i] by {
        assert(pa[head.len() + i] == a[i]);
        assert(pb[head.len() + i] == b[i]);
    }
    assert(a =~= b);
}

} // verus!
