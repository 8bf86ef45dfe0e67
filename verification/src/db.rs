//! The store: the table, the dump policy, and the decisions of the
//! persistence engine.
//!
//! The store performs no I/O. A call that changes the table decides whether
//! a snapshot is due and, if one is, returns the first operation on the file
//! system: the write of the staging file. The caller carries the operation
//! out and reports to [`DocDb::settle`], which answers with the next
//! operation, the rename onto the store's file, and after that with nothing.
//! If an operation failed, `settle` puts the table back as it was before the
//! change and returns the I/O error. The caller reports on each operation
//! before it calls anything else: a call that changes the table forgets what
//! the store was waiting for.
//!
//! Time is handed in by the caller: `now` is a reading of a monotonic clock
//! in nanoseconds, `stamp` the seconds of the wall clock that name the
//! staging file.

use crate::error::DocError;
use crate::iterator::DocDbIterator;
use crate::serialization::{
    is_decoding_error, snapshot_decoding, snapshot_encoding,
    SerializationMethod, Serializer,
};
use crate::staging::{staging_path, temp_path, FileOp, FileOpView};
use crate::table::{bindings, distinct_keys, Table};
use vstd::prelude::*;

verus! {

/// When the changes of a store go to its file.
#[derive(Debug, Clone, Copy, PartialEq, Eq, Structural)]
pub enum DumpPolicy {
    /// Never: the store lives in memory only, and a dump reports success
    /// without writing.
    NeverDump,
    /// After every change.
    AutoDump,
    /// Only when a dump is asked for.
    DumpRelyRequest,
    /// After a change, if more than this many nanoseconds have passed since
    /// the last dump.
    PeriodicDump(u128),
}

/// The time from `last` to `now`, zero if `now` is the earlier one.
pub open spec fn elapsed(last: u128, now: u128) -> int {
    if now >= last {
        now - last
    } else {
        0
    }
}

/// Whether a change at `now` has to be followed by a dump.
pub open spec fn due(policy: DumpPolicy, last_dump: u128, now: u128) -> bool {
    match policy {
        DumpPolicy::AutoDump => true,
        DumpPolicy::PeriodicDump(interval) => elapsed(last_dump, now) > interval,
        _ => false,
    }
}

/// The table with `key` bound as it was before a change: to `previous`, or to
/// nothing.
pub open spec fn restored(
    map: Map<Seq<char>, Seq<u8>>,
    key: Seq<char>,
    previous: Option<Seq<u8>>,
) -> Map<Seq<char>, Seq<u8>> {
    match previous {
        Some(value) => map.insert(key, value),
        None => map.remove(key),
    }
}

/// The bytes of an optional value.
pub open spec fn bytes_of(value: Option<Vec<u8>>) -> Option<Seq<u8>> {
    match value {
        Some(v) => Some(v@),
        None => None,
    }
}

/// How a key was bound before a change.
pub struct Change {
    pub key: Seq<char>,
    pub previous: Option<Seq<u8>>,
}

/// What a store waits for.
pub enum Pending {
    /// Nothing: no operation is under way.
    Idle,
    /// The outcome of the write of the staging file at `temp`. `undo` is the
    /// change that asked for the snapshot, if it was a change.
    Staging { temp: Seq<char>, undo: Option<Change> },
    /// The outcome of the rename of the staging file onto the store's file.
    Renaming { undo: Option<Change> },
}

impl Pending {
    /// The same wait, for a snapshot that the given change asked for.
    pub open spec fn with_undo(self, change: Change) -> Pending {
        match self {
            Pending::Idle => Pending::Idle,
            Pending::Staging { temp, .. } => Pending::Staging { temp, undo: Some(change) },
            Pending::Renaming { .. } => Pending::Renaming { undo: Some(change) },
        }
    }
}

/// Whether a result is the one that the model plans: the planned operation,
/// or a serialization error where the plan is `None`.
pub open spec fn fulfils(r: Result<FileOp, DocError>, plan: Option<FileOpView>) -> bool {
    match plan {
        Some(op) => r matches Ok(x) && x@ == op,
        None => r matches Err(e) && e is Serialization,
    }
}

/// What a store waits for once it has made a plan.
pub open spec fn awaiting(plan: Option<FileOpView>) -> Pending {
    match plan {
        Some(FileOpView::Write { path, .. }) => Pending::Staging { temp: path, undo: None },
        _ => Pending::Idle,
    }
}

/// A store as plain values. The functions on it say what each call of the
/// store does.
pub struct DbState {
    /// The table: each key and its encoded value.
    pub map: Map<Seq<char>, Seq<u8>>,
    /// The format of the snapshot.
    pub method: SerializationMethod,
    /// The path of the snapshot file.
    pub path: Seq<char>,
    /// When changes go to the file.
    pub policy: DumpPolicy,
    /// The time of the last dump.
    pub last_dump: u128,
    /// What the store waits for.
    pub pending: Pending,
}

impl DbState {
    /// A store that holds `map` and waits for nothing.
    pub open spec fn holding(
        map: Map<Seq<char>, Seq<u8>>,
        path: Seq<char>,
        policy: DumpPolicy,
        method: SerializationMethod,
        now: u128,
    ) -> DbState {
        DbState { map, method, path, policy, last_dump: now, pending: Pending::Idle }
    }

    /// The same store with another table.
    pub open spec fn with_map(self, map: Map<Seq<char>, Seq<u8>>) -> DbState {
        DbState { map, ..self }
    }

    /// The same store, waiting for `pending`.
    pub open spec fn waiting_for(self, pending: Pending) -> DbState {
        DbState { pending, ..self }
    }

    /// The value bound to `key`, if any.
    pub open spec fn lookup(self, key: Seq<char>) -> Option<Seq<u8>> {
        if self.map.contains_key(key) {
            Some(self.map[key])
        } else {
            None
        }
    }

    /// The first operation of a dump that is carried out: the write of the
    /// snapshot of the whole table to the staging file, or `None` if the
    /// table cannot be encoded.
    pub open spec fn request(self, stamp: u64) -> Option<FileOpView> {
        match snapshot_encoding(self.method, self.map) {
            Some(bytes) => Some(FileOpView::Write { path: temp_path(self.path, stamp), bytes }),
            None => None,
        }
    }

    /// The same store with the time of the last dump set to `now`, if its
    /// policy counts time.
    pub open spec fn stamped(self, now: u128) -> DbState {
        if self.policy is PeriodicDump {
            DbState { last_dump: now, ..self }
        } else {
            self
        }
    }

    /// What a dump on request returns.
    pub open spec fn dump_plan(self, stamp: u64) -> Option<FileOpView> {
        if self.policy is NeverDump {
            Some(FileOpView::Nothing)
        } else {
            self.request(stamp)
        }
    }

    /// The store after a dump on request.
    pub open spec fn after_dump(self, stamp: u64) -> DbState {
        self.waiting_for(awaiting(self.dump_plan(stamp)))
    }

    /// Whether a change at `now` has to be followed by a dump.
    pub open spec fn is_due(self, now: u128) -> bool {
        due(self.policy, self.last_dump, now)
    }

    /// What follows a change: the first operation of a dump if one is due.
    pub open spec fn dump_now_plan(self, now: u128, stamp: u64) -> Option<FileOpView> {
        if self.is_due(now) {
            self.request(stamp)
        } else {
            Some(FileOpView::Nothing)
        }
    }

    /// The store once it has decided what follows a change. Where a dump is due
    /// the time of the last dump moves to `now` before the dump is tried, so
    /// that a failing dump is not tried again at once.
    pub open spec fn after_dump_now(self, now: u128, stamp: u64) -> DbState {
        let timed = if self.is_due(now) {
            self.stamped(now)
        } else {
            self
        };
        timed.waiting_for(awaiting(self.dump_now_plan(now, stamp)))
    }

    /// The store with `undo` taken back.
    pub open spec fn undone(self, undo: Option<Change>) -> DbState {
        match undo {
            Some(change) => self.with_map(restored(self.map, change.key, change.previous)),
            None => self,
        }
    }

    /// The store once it is known what follows a change of `key`: it waits
    /// for the write and remembers the change, keeps the change, or takes it
    /// back.
    pub open spec fn guarded(
        self,
        key: Seq<char>,
        previous: Option<Seq<u8>>,
        plan: Option<FileOpView>,
    ) -> DbState {
        match plan {
            Some(FileOpView::Write { .. }) => self.waiting_for(
                self.pending.with_undo(Change { key, previous }),
            ),
            Some(_) => self,
            None => self.with_map(restored(self.map, key, previous)),
        }
    }

    /// What `set` returns.
    pub open spec fn set_plan(
        self,
        key: Seq<char>,
        value: Seq<u8>,
        now: u128,
        stamp: u64,
    ) -> Option<FileOpView> {
        self.with_map(self.map.insert(key, value)).dump_now_plan(now, stamp)
    }

    /// The store after `set`.
    pub open spec fn after_set(
        self,
        key: Seq<char>,
        value: Seq<u8>,
        now: u128,
        stamp: u64,
    ) -> DbState {
        let tried = self.with_map(self.map.insert(key, value));
        tried.after_dump_now(now, stamp).guarded(
            key,
            self.lookup(key),
            tried.dump_now_plan(now, stamp),
        )
    }

    /// The operation that `rem` returns.
    pub open spec fn rem_plan(self, key: Seq<char>, now: u128, stamp: u64) -> Option<FileOpView> {
        if self.map.contains_key(key) {
            self.with_map(self.map.remove(key)).dump_now_plan(now, stamp)
        } else {
            Some(FileOpView::Nothing)
        }
    }

    /// The store after `rem`.
    pub open spec fn after_rem(self, key: Seq<char>, now: u128, stamp: u64) -> DbState {
        if self.map.contains_key(key) {
            let tried = self.with_map(self.map.remove(key));
            tried.after_dump_now(now, stamp).guarded(
                key,
                self.lookup(key),
                tried.dump_now_plan(now, stamp),
            )
        } else {
            self
        }
    }

    /// The operation that follows one that succeeded: the rename after the
    /// write of the staging file, and nothing otherwise.
    pub open spec fn settle_plan(self) -> FileOpView {
        match self.pending {
            Pending::Staging { temp, .. } => FileOpView::Rename { from: temp, to: self.path },
            _ => FileOpView::Nothing,
        }
    }

    /// The store after the report on an operation. A store that waits for
    /// nothing stays as it is. After the write the store waits for the
    /// rename; after the rename the dump is done, and `now` is its time.
    /// An operation that failed ends the dump and takes back the change that
    /// asked for it.
    pub open spec fn after_settle(self, done: bool, now: u128) -> DbState {
        match self.pending {
            Pending::Idle => self,
            Pending::Staging { undo, .. } => if done {
                self.waiting_for(Pending::Renaming { undo })
            } else {
                self.undone(undo).waiting_for(Pending::Idle)
            },
            Pending::Renaming { undo } => if done {
                self.stamped(now).waiting_for(Pending::Idle)
            } else {
                self.undone(undo).waiting_for(Pending::Idle)
            },
        }
    }

    /// The first operation of the last dump of a store that is given up.
    pub open spec fn close_plan(self, stamp: u64) -> FileOpView {
        if self.policy is AutoDump || self.policy is PeriodicDump {
            match self.request(stamp) {
                Some(op) => op,
                None => FileOpView::Nothing,
            }
        } else {
            FileOpView::Nothing
        }
    }

    /// The store after it has planned its last dump.
    pub open spec fn after_close(self, stamp: u64) -> DbState {
        self.waiting_for(awaiting(Some(self.close_plan(stamp))))
    }
}

/// How to take back the change that a dump under way belongs to.
struct Rollback {
    key: String,
    previous: Option<Vec<u8>>,
}

impl View for Rollback {
    type V = Change;

    closed spec fn view(&self) -> Change {
        Change { key: self.key@, previous: bytes_of(self.previous) }
    }
}

/// The change of an optional rollback.
spec fn change_of(undo: Option<Rollback>) -> Option<Change> {
    match undo {
        Some(r) => Some(r@),
        None => None,
    }
}

/// What the store waits for.
enum InFlight {
    Idle,
    Staging { temp_path: String, undo: Option<Rollback> },
    Renaming { undo: Option<Rollback> },
}

impl View for InFlight {
    type V = Pending;

    closed spec fn view(&self) -> Pending {
        match self {
            InFlight::Idle => Pending::Idle,
            InFlight::Staging { temp_path, undo } => Pending::Staging {
                temp: temp_path@,
                undo: change_of(*undo),
            },
            InFlight::Renaming { undo } => Pending::Renaming { undo: change_of(*undo) },
        }
    }
}

/// A document store: a table from string keys to encoded values, and the
/// policy by which the table goes to one file.
pub struct DocDb {
    map: Table,
    serializer: Serializer,
    db_file_path: String,
    dump_policy: DumpPolicy,
    last_dump: u128,
    in_flight: InFlight,
}

impl View for DocDb {
    type V = DbState;

    closed spec fn view(&self) -> DbState {
        DbState {
            map: self.map@,
            method: self.serializer.method(),
            path: self.db_file_path@,
            policy: self.dump_policy,
            last_dump: self.last_dump,
            pending: self.in_flight@,
        }
    }
}

impl DocDb {
    /// A new, empty store for the file at `db_path`. `now` counts as the
    /// time of its last dump.
    pub fn new(
        db_path: &str,
        dump_policy: DumpPolicy,
        serialize_method: SerializationMethod,
        now: u128,
    ) -> (db: Self)
        ensures
            db@ == DbState::holding(Map::empty(), db_path@, dump_policy, serialize_method, now),
    {
        DocDb {
            map: Table::new(),
            serializer: Serializer::new(serialize_method),
            db_file_path: db_path.to_owned(),
            dump_policy,
            last_dump: now,
            in_flight: InFlight::Idle,
        }
    }

    pub fn new_json(db_path: &str, dump_policy: DumpPolicy, now: u128) -> (db: Self)
        ensures
            db@ == DbState::holding(
                Map::empty(),
                db_path@,
                dump_policy,
                SerializationMethod::Json,
                now,
            ),
    {
        DocDb::new(db_path, dump_policy, SerializationMethod::Json, now)
    }

    pub fn new_yaml(db_path: &str, dump_policy: DumpPolicy, now: u128) -> (db: Self)
        ensures
            db@ == DbState::holding(
                Map::empty(),
                db_path@,
                dump_policy,
                SerializationMethod::Yaml,
                now,
            ),
    {
        DocDb::new(db_path, dump_policy, SerializationMethod::Yaml, now)
    }

    pub fn new_bincode(db_path: &str, dump_policy: DumpPolicy, now: u128) -> (db: Self)
        ensures
            db@ == DbState::holding(
                Map::empty(),
                db_path@,
                dump_policy,
                SerializationMethod::Bin,
                now,
            ),
    {
        DocDb::new(db_path, dump_policy, SerializationMethod::Bin, now)
    }

    /// The store that holds a decoded table, or the error of the decoding.
    pub fn from_decoded(
        db_path: &str,
        dump_policy: DumpPolicy,
        ser_method: SerializationMethod,
        decoded: Result<Table, DocError>,
        now: u128,
    ) -> (r: Result<DocDb, DocError>)
        ensures
            match decoded {
                Ok(table) => r matches Ok(db) && db@ == DbState::holding(
                    table@,
                    db_path@,
                    dump_policy,
                    ser_method,
                    now,
                ),
                Err(e) => r matches Err(x) && x == e,
            },
    {
        match decoded {
            Ok(table) => Ok(
                DocDb {
                    map: table,
                    serializer: Serializer::new(ser_method),
                    db_file_path: db_path.to_owned(),
                    dump_policy,
                    last_dump: now,
                    in_flight: InFlight::Idle,
                },
            ),
            Err(e) => Err(e),
        }
    }

    /// The store that the file at `db_path` holds. `read` is the outcome of
    /// reading the whole file. A file that could not be read gives the I/O
    /// error; bytes that are no snapshot in the format give a
    /// deserialization error.
    pub fn load(
        db_path: &str,
        dump_policy: DumpPolicy,
        ser_method: SerializationMethod,
        read: Result<Vec<u8>, std::io::Error>,
        now: u128,
    ) -> (r: Result<DocDb, DocError>)
        ensures
            match read {
                Err(e) => r matches Err(DocError::IO(x)) && x == e,
                Ok(content) => match snapshot_decoding(ser_method, content@) {
                    Some(map) => r matches Ok(db) && db@ == DbState::holding(
                        map,
                        db_path@,
                        dump_policy,
                        ser_method,
                        now,
                    ),
                    None => r matches Err(e) && is_decoding_error(ser_method, e),
                },
            },
    {
        let content = match read {
            Ok(file_content) => file_content,
            Err(err) => return Err(DocError::IO(err)),
        };
        let serializer = Serializer::new(ser_method);
        let decoded = serializer.deserialize_db(content.as_slice());
        DocDb::from_decoded(db_path, dump_policy, ser_method, decoded, now)
    }

    /// [`DocDb::load`] with the policy `NeverDump`.
    pub fn load_read_only(
        db_path: &str,
        serialization_method: SerializationMethod,
        read: Result<Vec<u8>, std::io::Error>,
        now: u128,
    ) -> (r: Result<DocDb, DocError>)
        ensures
            match read {
                Err(e) => r matches Err(DocError::IO(x)) && x == e,
                Ok(content) => match snapshot_decoding(serialization_method, content@) {
                    Some(map) => r matches Ok(db) && db@ == DbState::holding(
                        map,
                        db_path@,
                        DumpPolicy::NeverDump,
                        serialization_method,
                        now,
                    ),
                    None => r matches Err(e) && is_decoding_error(serialization_method, e),
                },
            },
    {
        DocDb::load(db_path, DumpPolicy::NeverDump, serialization_method, read, now)
    }

    pub fn load_json(
        db_path: &str,
        dump_policy: DumpPolicy,
        read: Result<Vec<u8>, std::io::Error>,
        now: u128,
    ) -> (r: Result<Self, DocError>)
        ensures
            match read {
                Err(e) => r matches Err(DocError::IO(x)) && x == e,
                Ok(content) => match snapshot_decoding(SerializationMethod::Json, content@) {
                    Some(map) => r matches Ok(db) && db@ == DbState::holding(
                        map,
                        db_path@,
                        dump_policy,
                        SerializationMethod::Json,
                        now,
                    ),
                    None => r matches Err(e) && is_decoding_error(SerializationMethod::Json, e),
                },
            },
    {
        DocDb::load(db_path, dump_policy, SerializationMethod::Json, read, now)
    }

    pub fn load_yaml(
        db_path: &str,
        dump_policy: DumpPolicy,
        read: Result<Vec<u8>, std::io::Error>,
        now: u128,
    ) -> (r: Result<Self, DocError>)
        ensures
            match read {
                Err(e) => r matches Err(DocError::IO(x)) && x == e,
                Ok(content) => match snapshot_decoding(SerializationMethod::Yaml, content@) {
                    Some(map) => r matches Ok(db) && db@ == DbState::holding(
                        map,
                        db_path@,
                        dump_policy,
                        SerializationMethod::Yaml,
                        now,
                    ),
                    None => r matches Err(e) && is_decoding_error(SerializationMethod::Yaml, e),
                },
            },
    {
        DocDb::load(db_path, dump_policy, SerializationMethod::Yaml, read, now)
    }

    pub fn load_bin(
        db_path: &str,
        dump_policy: DumpPolicy,
        read: Result<Vec<u8>, std::io::Error>,
        now: u128,
    ) -> (r: Result<Self, DocError>)
        ensures
            match read {
                Err(e) => r matches Err(DocError::IO(x)) && x == e,
                Ok(content) => match snapshot_decoding(SerializationMethod::Bin, content@) {
                    Some(map) => r matches Ok(db) && db@ == DbState::holding(
                        map,
                        db_path@,
                        dump_policy,
                        SerializationMethod::Bin,
                        now,
                    ),
                    None => r matches Err(e) && is_decoding_error(SerializationMethod::Bin, e),
                },
            },
    {
        DocDb::load(db_path, dump_policy, SerializationMethod::Bin, read, now)
    }

    /// Turns the outcome of encoding the table into the first operation of a
    /// dump: the bytes are to be written to the staging file, and the store
    /// waits for that; an error is handed on, and the store waits for
    /// nothing. Under `NeverDump` nothing is asked for, whatever the outcome
    /// was.
    pub fn stage(&mut self, encoded: Result<Vec<u8>, DocError>, stamp: u64) -> (r: Result<
        FileOp,
        DocError,
    >)
        ensures
            old(self)@.policy is NeverDump ==> (r matches Ok(FileOp::Nothing)) && final(self)@
                == old(self)@.waiting_for(Pending::Idle),
            !(old(self)@.policy is NeverDump) ==> match encoded {
                Ok(bytes) => r matches Ok(op) && op@ == (FileOpView::Write {
                    path: temp_path(old(self)@.path, stamp),
                    bytes: bytes@,
                }) && final(self)@ == old(self)@.waiting_for(
                    Pending::Staging { temp: temp_path(old(self)@.path, stamp), undo: None },
                ),
                Err(e) => r matches Err(x) && x == e && final(self)@ == old(self)@.waiting_for(
                    Pending::Idle,
                ),
            },
    {
        if let DumpPolicy::NeverDump = self.dump_policy {
            self.in_flight = InFlight::Idle;
            return Ok(FileOp::Nothing);
        }
        match encoded {
            Ok(bytes) => {
                let path = staging_path(self.db_file_path.as_str(), stamp);
                self.in_flight = InFlight::Staging { temp_path: path.clone(), undo: None };
                Ok(FileOp::Write { path, bytes })
            },
            Err(e) => {
                self.in_flight = InFlight::Idle;
                Err(e)
            },
        }
    }

    /// Begins a dump of the whole table now, whatever the policy, except
    /// `NeverDump`, under which nothing is written and the call succeeds.
    /// Fails, asking for nothing, if the table cannot be encoded.
    pub fn dump(&mut self, stamp: u64) -> (r: Result<FileOp, DocError>)
        ensures
            final(self)@ == old(self)@.after_dump(stamp),
            fulfils(r, old(self)@.dump_plan(stamp)),
    {
        if let DumpPolicy::NeverDump = self.dump_policy {
            self.in_flight = InFlight::Idle;
            return Ok(FileOp::Nothing);
        }
        let encoded = self.serializer.serialize_db(&self.map);
        self.stage(encoded, stamp)
    }

    /// What follows a change: begins a dump if the policy says that one is
    /// due at `now`.
    pub fn dump_now(&mut self, now: u128, stamp: u64) -> (r: Result<FileOp, DocError>)
        ensures
            final(self)@ == old(self)@.after_dump_now(now, stamp),
            fulfils(r, old(self)@.dump_now_plan(now, stamp)),
    {
        match self.dump_policy {
            DumpPolicy::AutoDump => self.dump(stamp),
            DumpPolicy::PeriodicDump(interval) => {
                if now > self.last_dump && now - self.last_dump > interval {
                    self.last_dump = now;
                    self.dump(stamp)
                } else {
                    self.in_flight = InFlight::Idle;
                    Ok(FileOp::Nothing)
                }
            },
            _ => {
                self.in_flight = InFlight::Idle;
                Ok(FileOp::Nothing)
            },
        }
    }

    /// Binds `key` as it was bound before a change.
    fn restore(&mut self, key: &str, previous: Option<Vec<u8>>)
        ensures
            final(self)@ == old(self)@.with_map(
                restored(old(self)@.map, key@, bytes_of(previous)),
            ),
    {
        match previous {
            Some(value) => {
                self.map.insert(key.to_owned(), value);
            },
            None => {
                self.map.remove(key);
            },
        }
    }

    /// Takes what follows a change of `key`, which was bound to `previous`
    /// before. The write of a staging file is handed on, and the store
    /// remembers how to take the change back. An error is handed on after
    /// the change has been taken back.
    pub fn guard(
        &mut self,
        key: &str,
        previous: Option<Vec<u8>>,
        planned: Result<FileOp, DocError>,
    ) -> (r: Result<FileOp, DocError>)
        ensures
            r == planned,
            final(self)@ == match planned {
                Ok(FileOp::Write { .. }) => old(self)@.waiting_for(
                    old(self)@.pending.with_undo(
                        Change { key: key@, previous: bytes_of(previous) },
                    ),
                ),
                Ok(_) => old(self)@,
                Err(_) => old(self)@.with_map(
                    restored(old(self)@.map, key@, bytes_of(previous)),
                ),
            },
    {
        match planned {
            Ok(FileOp::Write { path, bytes }) => {
                let rollback = Rollback { key: key.to_owned(), previous };
                let mut in_flight = InFlight::Idle;
                std::mem::swap(&mut in_flight, &mut self.in_flight);
                self.in_flight = match in_flight {
                    InFlight::Idle => InFlight::Idle,
                    InFlight::Staging { temp_path, .. } => InFlight::Staging {
                        temp_path,
                        undo: Some(rollback),
                    },
                    InFlight::Renaming { .. } => InFlight::Renaming { undo: Some(rollback) },
                };
                Ok(FileOp::Write { path, bytes })
            },
            Ok(op) => Ok(op),
            Err(e) => {
                self.restore(key, previous);
                Err(e)
            },
        }
    }

    /// Binds `key` to `value`, which the caller has encoded, then begins a
    /// dump if one is due. If the snapshot cannot be encoded the table is left
    /// as it was before the call and the error is returned.
    pub fn set(&mut self, key: &str, value: Vec<u8>, now: u128, stamp: u64) -> (r: Result<
        FileOp,
        DocError,
    >)
        ensures
            final(self)@ == old(self)@.after_set(key@, value@, now, stamp),
            fulfils(r, old(self)@.set_plan(key@, value@, now, stamp)),
            r is Ok ==> final(self)@.map == old(self)@.map.insert(key@, value@),
            r is Err ==> final(self)@.map == old(self)@.map,
    {
        let previous = self.map.insert(key.to_owned(), value);
        let planned = self.dump_now(now, stamp);
        proof {
            lemma_restored_after_insert(old(self)@.map, key@, value@);
        }
        self.guard(key, previous, planned)
    }

    /// The encoded value bound to `key`, if the key is present. Decoding it
    /// is the caller's part.
    pub fn get(&self, key: &str) -> (found: Option<&Vec<u8>>)
        ensures
            bytes_of_ref(found) == self@.lookup(key@),
    {
        self.map.get(key)
    }

    /// Whether `key` is present.
    pub fn exist(&self, key: &str) -> (present: bool)
        ensures
            present == self@.map.contains_key(key@),
    {
        self.map.contains_key(key)
    }

    /// A copy of every key of the store, each once, in no particular order.
    pub fn get_all_keys(&self) -> (keys: Vec<String>)
        ensures
            keys.len() == self@.map.len(),
            forall|i: int| 0 <= i < keys.len() ==> self@.map.contains_key(#[trigger] keys[i]@),
            forall|i: int, j: int|
                0 <= i < keys.len() && 0 <= j < keys.len() && i != j ==> keys[i]@ != keys[j]@,
            forall|k: Seq<char>|
                self@.map.contains_key(k) ==> exists|i: int| 0 <= i < keys.len() && keys[i]@ == k,
    {
        self.map.keys()
    }

    /// The number of keys in the store.
    pub fn total_nums(&self) -> (n: usize)
        ensures
            n == self@.map.len(),
            self@.map.dom().finite(),
    {
        self.map.len()
    }

    /// Removes `key`, then begins a dump if one is due. The flag says
    /// whether the key was present; if it was not, nothing changes and
    /// nothing is asked for. If the snapshot cannot be encoded the table is
    /// left as it was before the call and the error is returned.
    pub fn rem(&mut self, key: &str, now: u128, stamp: u64) -> (r: Result<(bool, FileOp), DocError>)
        ensures
            final(self)@ == old(self)@.after_rem(key@, now, stamp),
            match old(self)@.rem_plan(key@, now, stamp) {
                Some(op) => r matches Ok((was_present, x)) && x@ == op && was_present == old(
                    self,
                )@.map.contains_key(key@),
                None => r matches Err(e) && e is Serialization,
            },
            r is Ok ==> final(self)@.map == old(self)@.map.remove(key@),
            r is Err ==> final(self)@.map == old(self)@.map,
    {
        match self.map.remove(key) {
            Some(value) => {
                let planned = self.dump_now(now, stamp);
                proof {
                    lemma_restored_after_remove(old(self)@.map, key@);
                }
                match self.guard(key, Some(value), planned) {
                    Ok(op) => Ok((true, op)),
                    Err(e) => Err(e),
                }
            },
            None => {
                assert(self@.map =~= old(self)@.map);
                Ok((false, FileOp::Nothing))
            },
        }
    }

    /// Takes the outcome of the operation that the store asked for last and
    /// answers with the operation that follows. After the write of the
    /// staging file that is the rename onto the store's file; after the
    /// rename nothing is left, and `now` is the time of the last dump if the
    /// policy counts time. If the operation failed, the dump ends, the
    /// change that asked for it is taken back and the I/O error is returned.
    pub fn settle(&mut self, outcome: Result<(), std::io::Error>, now: u128) -> (r: Result<
        FileOp,
        DocError,
    >)
        ensures
            final(self)@ == old(self)@.after_settle(outcome is Ok, now),
            match outcome {
                Ok(_) => r matches Ok(op) && op@ == old(self)@.settle_plan(),
                Err(e) => r matches Err(DocError::IO(x)) && x == e,
            },
    {
        let mut in_flight = InFlight::Idle;
        std::mem::swap(&mut in_flight, &mut self.in_flight);
        match outcome {
            Ok(_) => match in_flight {
                InFlight::Idle => Ok(FileOp::Nothing),
                InFlight::Staging { temp_path, undo } => {
                    self.in_flight = InFlight::Renaming { undo };
                    Ok(FileOp::Rename { from: temp_path, to: self.db_file_path.clone() })
                },
                InFlight::Renaming { undo } => {
                    if let DumpPolicy::PeriodicDump(_) = self.dump_policy {
                        self.last_dump = now;
                    }
                    Ok(FileOp::Nothing)
                },
            },
            Err(e) => {
                match in_flight {
                    InFlight::Staging { undo: Some(rollback), .. } => {
                        self.restore(rollback.key.as_str(), rollback.previous);
                    },
                    InFlight::Renaming { undo: Some(rollback) } => {
                        self.restore(rollback.key.as_str(), rollback.previous);
                    },
                    _ => {},
                }
                Err(DocError::IO(e))
            },
        }
    }

    /// Plans the last dump of a store that is given up: the write of a
    /// snapshot of the whole table if the policy is `AutoDump` or
    /// `PeriodicDump` and the table can be encoded, nothing otherwise. No
    /// error is reported.
    pub fn close(&mut self, stamp: u64) -> (op: FileOp)
        ensures
            op@ == old(self)@.close_plan(stamp),
            final(self)@ == old(self)@.after_close(stamp),
    {
        match self.dump_policy {
            DumpPolicy::NeverDump | DumpPolicy::DumpRelyRequest => {
                self.in_flight = InFlight::Idle;
                FileOp::Nothing
            },
            _ => match self.dump(stamp) {
                Ok(op) => op,
                Err(_) => FileOp::Nothing,
            },
        }
    }

    /// A walk over the entries of the store: every key of the table is
    /// handed out once, with its value.
    pub fn iter(&self) -> (walk: DocDbIterator<'_>)
        ensures
            distinct_keys(walk.remaining()),
            bindings(walk.remaining()) == self@.map,
    {
        DocDbIterator::new(self.map.entries())
    }
}

/// The bytes of an optional borrowed value.
pub open spec fn bytes_of_ref(value: Option<&Vec<u8>>) -> Option<Seq<u8>> {
    match value {
        Some(v) => Some(v@),
        None => None,
    }
}

/// Binding a key and then binding it as before gives the table back.
pub proof fn lemma_restored_after_insert(
    map: Map<Seq<char>, Seq<u8>>,
    key: Seq<char>,
    value: Seq<u8>,
)
    ensures
        restored(
            map.insert(key, value),
            key,
            if map.contains_key(key) {
                Some(map[key])
            } else {
                None
            },
        ) == map,
{
    let previous = if map.contains_key(key) {
        Some(map[key])
    } else {
        None
    };
    assert(restored(map.insert(key, value), key, previous) =~= map);
}

/// Removing a key and then binding it as before gives the table back.
pub proof fn lemma_restored_after_remove(map: Map<Seq<char>, Seq<u8>>, key: Seq<char>)
    requires
        map.contains_key(key),
    ensures
        restored(map.remove(key), key, Some(map[key])) == map,
{
    assert(restored(map.remove(key), key, Some(map[key])) =~= map);
}

} // verus!
