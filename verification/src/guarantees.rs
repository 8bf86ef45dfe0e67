//! What holds of a store over several calls, stated on the plain-value model
//! of [`DbState`] in whose terms every call of [`crate::DocDb`] is specified,
//! and on the model of the file system in [`crate::staging`].

use crate::db::{elapsed, DbState, DumpPolicy, Pending};
use crate::serialization::snapshot_encoding;
use crate::staging::{
    carried_out, file_at, lemma_staging_is_not_target, may_be_left, temp_path, Disk, FileOpView,
};
use vstd::prelude::*;

verus! {

/// Two states of one store: the same policy, format and path.
pub open spec fn same_configuration(s: DbState, t: DbState) -> bool {
    s.policy == t.policy && s.method == t.method && s.path == t.path
}

/// A value that was set is the value that is read: after a `set` that did
/// not fail, the key is bound to the new value and every other key is bound
/// as before, and reports of operations that succeeded change nothing of it.
pub proof fn lemma_set_then_get(
    s: DbState,
    key: Seq<char>,
    value: Seq<u8>,
    now: u128,
    stamp: u64,
    written: u128,
    renamed: u128,
)
    requires
        s.set_plan(key, value, now, stamp) is Some,
    ensures
        s.after_set(key, value, now, stamp).lookup(key) == Some(value),
        s.after_set(key, value, now, stamp).after_settle(true, written).lookup(key) == Some(
            value,
        ),
        s.after_set(key, value, now, stamp).after_settle(true, written).after_settle(
            true,
            renamed,
        ).lookup(key) == Some(value),
        forall|other: Seq<char>|
            other != key ==> s.after_set(key, value, now, stamp).lookup(other) == s.lookup(other),
{
}

/// A `set` that fails leaves the table as it was, whichever way it fails: if
/// the snapshot cannot be encoded, the call itself has put the table back; if
/// the write or the rename that followed fails, the report puts it back, and
/// the store then waits for nothing.
pub proof fn lemma_failed_set_restores(
    s: DbState,
    key: Seq<char>,
    value: Seq<u8>,
    now: u128,
    stamp: u64,
    written: u128,
    failed: u128,
)
    ensures
        s.set_plan(key, value, now, stamp) is None ==> s.after_set(key, value, now, stamp).map
            == s.map,
        s.set_plan(key, value, now, stamp) matches Some(FileOpView::Write { .. }) ==> {
            let begun = s.after_set(key, value, now, stamp);
            &&& begun.after_settle(false, failed).map == s.map
            &&& begun.after_settle(false, failed).pending is Idle
            &&& begun.after_settle(true, written).after_settle(false, failed).map == s.map
            &&& begun.after_settle(true, written).after_settle(false, failed).pending is Idle
        },
{
    crate::db::lemma_restored_after_insert(s.map, key, value);
}

/// A `rem` that fails leaves the table as it was, whichever way it fails.
pub proof fn lemma_failed_rem_restores(
    s: DbState,
    key: Seq<char>,
    now: u128,
    stamp: u64,
    written: u128,
    failed: u128,
)
    ensures
        s.rem_plan(key, now, stamp) is None ==> s.after_rem(key, now, stamp).map == s.map,
        s.rem_plan(key, now, stamp) matches Some(FileOpView::Write { .. }) ==> {
            let begun = s.after_rem(key, now, stamp);
            &&& begun.after_settle(false, failed).map == s.map
            &&& begun.after_settle(false, failed).pending is Idle
            &&& begun.after_settle(true, written).after_settle(false, failed).map == s.map
            &&& begun.after_settle(true, written).after_settle(false, failed).pending is Idle
        },
{
    if s.map.contains_key(key) {
        crate::db::lemma_restored_after_remove(s.map, key);
    }
}

/// A `rem` that does not fail removes the key and nothing else, and a `rem`
/// of a key that is not there changes nothing at all and asks for nothing.
pub proof fn lemma_rem_removes(s: DbState, key: Seq<char>, now: u128, stamp: u64)
    ensures
        s.rem_plan(key, now, stamp) is Some ==> s.after_rem(key, now, stamp).map == s.map.remove(
            key,
        ),
        !s.map.contains_key(key) ==> s.after_rem(key, now, stamp) == s && s.rem_plan(
            key,
            now,
            stamp,
        ) == Some(FileOpView::Nothing),
{
    if !s.map.contains_key(key) {
        assert(s.map.remove(key) =~= s.map);
    }
}

/// No call changes the policy, the format or the path of a store.
pub proof fn lemma_configuration_is_kept(
    s: DbState,
    key: Seq<char>,
    value: Seq<u8>,
    now: u128,
    stamp: u64,
    done: bool,
)
    ensures
        same_configuration(s, s.after_set(key, value, now, stamp)),
        same_configuration(s, s.after_rem(key, now, stamp)),
        same_configuration(s, s.after_dump(stamp)),
        same_configuration(s, s.after_dump_now(now, stamp)),
        same_configuration(s, s.after_settle(done, now)),
        same_configuration(s, s.after_close(stamp)),
{
}

/// Under `NeverDump` no call ever asks for an operation on the file system,
/// and a dump on request succeeds without one.
pub proof fn lemma_never_dump_asks_for_nothing(
    s: DbState,
    key: Seq<char>,
    value: Seq<u8>,
    now: u128,
    stamp: u64,
)
    requires
        s.policy is NeverDump,
    ensures
        s.set_plan(key, value, now, stamp) == Some(FileOpView::Nothing),
        s.rem_plan(key, now, stamp) == Some(FileOpView::Nothing),
        s.dump_plan(stamp) == Some(FileOpView::Nothing),
        s.dump_now_plan(now, stamp) == Some(FileOpView::Nothing),
        s.close_plan(stamp) == FileOpView::Nothing,
        s.after_set(key, value, now, stamp).pending is Idle,
        s.after_dump(stamp).pending is Idle,
        s.after_dump_now(now, stamp).pending is Idle,
        s.after_close(stamp).pending is Idle,
{
}

/// One call of a store, with the values that are handed to it: `set`, `rem`,
/// `dump`, `dump_now`, `settle` or `close`.
pub enum Call {
    Bind { key: Seq<char>, value: Seq<u8>, now: u128, stamp: u64 },
    Remove { key: Seq<char>, now: u128, stamp: u64 },
    Dump { stamp: u64 },
    DumpNow { now: u128, stamp: u64 },
    Settle { done: bool, now: u128 },
    Close { stamp: u64 },
}

/// The store after a call.
pub open spec fn after(s: DbState, call: Call) -> DbState {
    match call {
        Call::Bind { key, value, now, stamp } => s.after_set(key, value, now, stamp),
        Call::Remove { key, now, stamp } => s.after_rem(key, now, stamp),
        Call::Dump { stamp } => s.after_dump(stamp),
        Call::DumpNow { now, stamp } => s.after_dump_now(now, stamp),
        Call::Settle { done, now } => s.after_settle(done, now),
        Call::Close { stamp } => s.after_close(stamp),
    }
}

/// The operation that a call asks for: nothing where the call fails.
pub open spec fn asked(s: DbState, call: Call) -> FileOpView {
    let plan = match call {
        Call::Bind { key, value, now, stamp } => s.set_plan(key, value, now, stamp),
        Call::Remove { key, now, stamp } => s.rem_plan(key, now, stamp),
        Call::Dump { stamp } => s.dump_plan(stamp),
        Call::DumpNow { now, stamp } => s.dump_now_plan(now, stamp),
        Call::Settle { done, .. } => if done {
            Some(s.settle_plan())
        } else {
            None
        },
        Call::Close { stamp } => Some(s.close_plan(stamp)),
    };
    match plan {
        Some(op) => op,
        None => FileOpView::Nothing,
    }
}

/// The store after a list of calls, made in order.
pub open spec fn after_all(s: DbState, calls: Seq<Call>) -> DbState
    decreases calls.len(),
{
    if calls.len() == 0 {
        s
    } else {
        after(after_all(s, calls.drop_last()), calls.last())
    }
}

/// Whatever calls are made, in whatever number, a store keeps its policy,
/// its format and its path.
pub proof fn lemma_calls_keep_configuration(s: DbState, calls: Seq<Call>)
    ensures
        same_configuration(s, after_all(s, calls)),
    decreases calls.len(),
{
    if calls.len() > 0 {
        lemma_calls_keep_configuration(s, calls.drop_last());
    }
}

/// Under `NeverDump`, after any number of calls of any kind, the next call
/// asks for no operation on the file system: no file is ever made or
/// changed.
pub proof fn lemma_never_dump_never_asks(s: DbState, calls: Seq<Call>, next: Call)
    requires
        s.policy is NeverDump,
        s.pending is Idle,
    ensures
        after_all(s, calls).policy is NeverDump,
        after_all(s, calls).pending is Idle,
        asked(after_all(s, calls), next) == FileOpView::Nothing,
    decreases calls.len(),
{
    if calls.len() > 0 {
        lemma_never_dump_never_asks(s, calls.drop_last(), calls.last());
    }
}

/// Under `AutoDump` every change begins a dump of the whole table as it is
/// after the change.
pub proof fn lemma_auto_dump_asks_after_each_change(
    s: DbState,
    key: Seq<char>,
    value: Seq<u8>,
    now: u128,
    stamp: u64,
)
    requires
        s.policy is AutoDump,
    ensures
        s.set_plan(key, value, now, stamp) == s.with_map(s.map.insert(key, value)).request(stamp),
        s.map.contains_key(key) ==> s.rem_plan(key, now, stamp) == s.with_map(
            s.map.remove(key),
        ).request(stamp),
{
}

/// Under `DumpRelyRequest` a change asks for nothing, and a dump on request
/// begins a dump of the whole table as it then is.
pub proof fn lemma_rely_on_request_waits_for_dump(
    s: DbState,
    key: Seq<char>,
    value: Seq<u8>,
    now: u128,
    stamp: u64,
)
    requires
        s.policy is DumpRelyRequest,
    ensures
        s.set_plan(key, value, now, stamp) == Some(FileOpView::Nothing),
        s.rem_plan(key, now, stamp) == Some(FileOpView::Nothing),
        s.close_plan(stamp) == FileOpView::Nothing,
        s.after_set(key, value, now, stamp).dump_plan(stamp) == s.with_map(
            s.map.insert(key, value),
        ).request(stamp),
{
}

/// Under `PeriodicDump` a change within the interval since the last dump
/// asks for nothing and leaves the time of the last dump alone; a change
/// after the interval begins a dump of the whole table, with every change
/// made since, and moves the time of the last dump to the time of the
/// change.
pub proof fn lemma_periodic_dump_waits_for_interval(
    s: DbState,
    interval: u128,
    key: Seq<char>,
    value: Seq<u8>,
    now: u128,
    stamp: u64,
)
    requires
        s.policy == DumpPolicy::PeriodicDump(interval),
    ensures
        elapsed(s.last_dump, now) <= interval ==> {
            &&& s.set_plan(key, value, now, stamp) == Some(FileOpView::Nothing)
            &&& s.after_set(key, value, now, stamp).last_dump == s.last_dump
            &&& s.after_set(key, value, now, stamp).map == s.map.insert(key, value)
        },
        elapsed(s.last_dump, now) > interval ==> {
            &&& s.set_plan(key, value, now, stamp) == s.with_map(
                s.map.insert(key, value),
            ).request(stamp)
            &&& s.after_set(key, value, now, stamp).last_dump == now
        },
{
}

/// Under `PeriodicDump` two changes within one interval begin one dump at
/// most: once a change at `first` has begun one, a change at `second` begins
/// none as long as no more than the interval lies between them, whatever was
/// reported of the first dump in between.
pub proof fn lemma_periodic_dump_defers_second_change(
    s: DbState,
    interval: u128,
    key1: Seq<char>,
    value1: Seq<u8>,
    first: u128,
    stamp1: u64,
    written: bool,
    at_write: u128,
    renamed: bool,
    at_rename: u128,
    key2: Seq<char>,
    value2: Seq<u8>,
    second: u128,
    stamp2: u64,
)
    requires
        s.policy == DumpPolicy::PeriodicDump(interval),
        s.is_due(first),
        first <= at_write <= at_rename <= second,
        elapsed(first, second) <= interval,
    ensures
        s.after_set(key1, value1, first, stamp1).set_plan(key2, value2, second, stamp2) == Some(
            FileOpView::Nothing,
        ),
        s.after_set(key1, value1, first, stamp1).after_settle(written, at_write).set_plan(
            key2,
            value2,
            second,
            stamp2,
        ) == Some(FileOpView::Nothing),
        s.after_set(key1, value1, first, stamp1).after_settle(written, at_write).after_settle(
            renamed,
            at_rename,
        ).set_plan(key2, value2, second, stamp2) == Some(FileOpView::Nothing),
{
}

/// A dump is the write of the staging file and then the rename onto the
/// store's file, in this order and nothing else: the rename is asked for
/// only after the write has succeeded, and after a failure nothing more is
/// asked for.
pub proof fn lemma_dump_is_write_then_rename(s: DbState, stamp: u64, now: u128)
    requires
        s.pending matches Pending::Staging { temp, .. } && temp == temp_path(s.path, stamp),
    ensures
        s.settle_plan() == (FileOpView::Rename { from: temp_path(s.path, stamp), to: s.path }),
        s.after_settle(true, now).pending is Renaming,
        s.after_settle(true, now).settle_plan() == FileOpView::Nothing,
        s.after_settle(true, now).after_settle(true, now).pending is Idle,
        s.after_settle(false, now).pending is Idle,
        s.after_settle(false, now).settle_plan() == FileOpView::Nothing,
        s.after_settle(true, now).after_settle(false, now).pending is Idle,
{
}

/// Every call that begins a dump leaves the store waiting for the write of
/// the staging file that it asked for.
pub proof fn lemma_begun_dump_waits_for_its_write(
    s: DbState,
    key: Seq<char>,
    value: Seq<u8>,
    now: u128,
    stamp: u64,
)
    ensures
        s.set_plan(key, value, now, stamp) matches Some(FileOpView::Write { path, .. })
            ==> path == temp_path(s.path, stamp) && (s.after_set(
            key,
            value,
            now,
            stamp,
        ).pending matches Pending::Staging { temp, .. } && temp == path),
        s.rem_plan(key, now, stamp) matches Some(FileOpView::Write { path, .. }) ==> path
            == temp_path(s.path, stamp) && (s.after_rem(
            key,
            now,
            stamp,
        ).pending matches Pending::Staging { temp, .. } && temp == path),
        s.dump_plan(stamp) matches Some(FileOpView::Write { path, .. }) ==> path == temp_path(
            s.path,
            stamp,
        ) && (s.after_dump(stamp).pending matches Pending::Staging { temp, .. } && temp == path),
        s.close_plan(stamp) matches FileOpView::Write { path, .. } ==> path == temp_path(
            s.path,
            stamp,
        ) && (s.after_close(stamp).pending matches Pending::Staging { temp, .. } && temp
            == path),
{
}

/// Under `AutoDump` a change that can be encoded reaches the store's file:
/// the store asks for the write of the snapshot of the changed table to the
/// staging file, then for the rename onto its own file, then for nothing,
/// and once both are carried out the file holds that snapshot and the store
/// holds the change.
pub proof fn lemma_auto_dump_change_reaches_the_file(
    s: DbState,
    key: Seq<char>,
    value: Seq<u8>,
    now: u128,
    stamp: u64,
    at_write: u128,
    at_rename: u128,
    disk: Disk,
)
    requires
        s.policy is AutoDump,
        snapshot_encoding(s.method, s.map.insert(key, value)) is Some,
    ensures
        ({
            let bytes = snapshot_encoding(s.method, s.map.insert(key, value))->0;
            let write = FileOpView::Write { path: temp_path(s.path, stamp), bytes };
            let rename = FileOpView::Rename { from: temp_path(s.path, stamp), to: s.path };
            let begun = s.after_set(key, value, now, stamp);
            let staged = begun.after_settle(true, at_write);
            let done = staged.after_settle(true, at_rename);
            &&& s.set_plan(key, value, now, stamp) == Some(write)
            &&& begun.settle_plan() == rename
            &&& staged.settle_plan() == FileOpView::Nothing
            &&& file_at(carried_out(carried_out(disk, write), rename), s.path) == Some(bytes)
            &&& done.map == s.map.insert(key, value)
            &&& done.pending is Idle
        }),
{
    lemma_staging_is_not_target(s.path, stamp);
}

/// Under `DumpRelyRequest` a change leaves every file as it is, and the dump
/// that is asked for afterwards puts the snapshot of the changed table into
/// the store's file.
pub proof fn lemma_rely_on_request_reaches_the_file_on_dump(
    s: DbState,
    key: Seq<char>,
    value: Seq<u8>,
    now: u128,
    stamp: u64,
    at_write: u128,
    disk: Disk,
)
    requires
        s.policy is DumpRelyRequest,
        snapshot_encoding(s.method, s.map.insert(key, value)) is Some,
    ensures
        ({
            let bytes = snapshot_encoding(s.method, s.map.insert(key, value))->0;
            let write = FileOpView::Write { path: temp_path(s.path, stamp), bytes };
            let rename = FileOpView::Rename { from: temp_path(s.path, stamp), to: s.path };
            let changed = s.after_set(key, value, now, stamp);
            &&& s.set_plan(key, value, now, stamp) == Some(FileOpView::Nothing)
            &&& carried_out(disk, FileOpView::Nothing) == disk
            &&& changed.dump_plan(stamp) == Some(write)
            &&& changed.after_dump(stamp).settle_plan() == rename
            &&& changed.after_dump(stamp).after_settle(true, at_write).settle_plan()
                == FileOpView::Nothing
            &&& file_at(carried_out(carried_out(disk, write), rename), s.path) == Some(bytes)
        }),
{
    lemma_staging_is_not_target(s.path, stamp);
}

/// The store's file holds, at every moment of a dump, the snapshot that it
/// held before or the new snapshot in full. A write that is cut short or
/// fails (`torn`), a write that is done, and a rename that does not happen
/// (`stuck`) all leave the file as it was; the rename puts the new bytes in.
pub proof fn lemma_file_is_old_or_new(
    target: Seq<char>,
    stamp: u64,
    bytes: Seq<u8>,
    disk: Disk,
    torn: Disk,
    stuck: Disk,
)
    ensures
        ({
            let write = FileOpView::Write { path: temp_path(target, stamp), bytes };
            let rename = FileOpView::Rename { from: temp_path(target, stamp), to: target };
            let staged = carried_out(disk, write);
            &&& may_be_left(disk, write, torn) ==> file_at(torn, target) == file_at(disk, target)
            &&& file_at(staged, target) == file_at(disk, target)
            &&& may_be_left(staged, rename, stuck) ==> file_at(stuck, target) == file_at(
                disk,
                target,
            )
            &&& file_at(carried_out(staged, rename), target) == Some(bytes)
        }),
{
    lemma_staging_is_not_target(target, stamp);
    let temp = temp_path(target, stamp);
    if may_be_left(disk, FileOpView::Write { path: temp, bytes }, torn) {
        assert(torn.remove(temp).contains_key(target) == disk.remove(temp).contains_key(target));
        assert(torn.remove(temp)[target] == disk.remove(temp)[target]);
    }
}

} // verus!
