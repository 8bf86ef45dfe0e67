//! What a store asks its caller to do to the file system.
//!
//! A snapshot never goes to the target file directly. It is written to a
//! staging file beside it, whose name ends in the time of the request, and the
//! staging file is then renamed onto the target in one step. A reader of the
//! target sees the snapshot before or the snapshot after, never a part.
//!
//! The store asks for one operation at a time and is told how it went before
//! it asks for the next. The module also says, on plain values, what an
//! operation does to the files, so that the order in which the store asks can
//! be held against it.

use vstd::prelude::*;
use vstd::string::StringExecFns;

verus! {

/// The text of one decimal digit.
pub open spec fn digit_text(d: nat) -> Seq<char> {
    if d == 0 {
        "0"@
    } else if d == 1 {
        "1"@
    } else if d == 2 {
        "2"@
    } else if d == 3 {
        "3"@
    } else if d == 4 {
        "4"@
    } else if d == 5 {
        "5"@
    } else if d == 6 {
        "6"@
    } else if d == 7 {
        "7"@
    } else if d == 8 {
        "8"@
    } else {
        "9"@
    }
}

/// The decimal numeral of `n`, without leading zeros.
pub open spec fn decimal(n: nat) -> Seq<char>
    decreases n,
{
    if n < 10 {
        digit_text(n)
    } else {
        decimal(n / 10) + digit_text(n % 10)
    }
}

/// The name of the staging file for a target path and a time stamp: the
/// target path, then `.temp.`, then the stamp in decimal.
pub open spec fn temp_path(target: Seq<char>, stamp: u64) -> Seq<char> {
    target + ".temp."@ + decimal(stamp as nat)
}

/// Every digit is one character.
pub proof fn lemma_digit_len(d: nat)
    ensures
        digit_text(d).len() == 1,
{
    reveal_strlit("0");
    reveal_strlit("1");
    reveal_strlit("2");
    reveal_strlit("3");
    reveal_strlit("4");
    reveal_strlit("5");
    reveal_strlit("6");
    reveal_strlit("7");
    reveal_strlit("8");
    reveal_strlit("9");
}

/// A numeral has at least one digit.
pub proof fn lemma_decimal_len(n: nat)
    ensures
        decimal(n).len() >= 1,
    decreases n,
{
    lemma_digit_len(n % 10);
    lemma_digit_len(n);
    if n >= 10 {
        lemma_decimal_len(n / 10);
    }
}

/// The staging file is never the target file itself, whatever the path and
/// the stamp: a write that stops before the rename leaves the target as it
/// was.
pub proof fn lemma_staging_is_not_target(target: Seq<char>, stamp: u64)
    ensures
        temp_path(target, stamp) != target,
{
    lemma_decimal_len(stamp as nat);
    assert(temp_path(target, stamp).len() > target.len());
}

/// The text of one decimal digit.
fn digit(d: u64) -> (text: &'static str)
    requires
        d < 10,
    ensures
        text@ == digit_text(d as nat),
{
    if d == 0 {
        "0"
    } else if d == 1 {
        "1"
    } else if d == 2 {
        "2"
    } else if d == 3 {
        "3"
    } else if d == 4 {
        "4"
    } else if d == 5 {
        "5"
    } else if d == 6 {
        "6"
    } else if d == 7 {
        "7"
    } else if d == 8 {
        "8"
    } else {
        "9"
    }
}

/// Writes `n` in decimal.
pub fn decimal_text(n: u64) -> (text: String)
    ensures
        text@ == decimal(n as nat),
    decreases n,
{
    if n < 10 {
        String::from_str(digit(n))
    } else {
        decimal_text(n / 10).concat(digit(n % 10))
    }
}

/// The name of the staging file for `target` and `stamp`.
pub fn staging_path(target: &str, stamp: u64) -> (path: String)
    ensures
        path@ == temp_path(target@, stamp),
        path@ != target@,
{
    proof {
        lemma_staging_is_not_target(target@, stamp);
    }
    String::from_str(target).concat(".temp.").concat(decimal_text(stamp).as_str())
}

/// One operation on the file system that a store asks its caller for.
pub enum FileOp {
    /// Nothing is left to do.
    Nothing,
    /// Write `bytes` to the file at `path`, replacing what it holds.
    Write { path: String, bytes: Vec<u8> },
    /// Rename the file at `from` onto `to` in one step, replacing `to`.
    Rename { from: String, to: String },
}

/// An operation as plain values.
pub enum FileOpView {
    Nothing,
    Write { path: Seq<char>, bytes: Seq<u8> },
    Rename { from: Seq<char>, to: Seq<char> },
}

impl View for FileOp {
    type V = FileOpView;

    open spec fn view(&self) -> FileOpView {
        match self {
            FileOp::Nothing => FileOpView::Nothing,
            FileOp::Write { path, bytes } => FileOpView::Write { path: path@, bytes: bytes@ },
            FileOp::Rename { from, to } => FileOpView::Rename { from: from@, to: to@ },
        }
    }
}

/// The files of a file system: what each path holds.
pub type Disk = Map<Seq<char>, Seq<u8>>;

/// What `path` holds on `disk`, if it is there.
pub open spec fn file_at(disk: Disk, path: Seq<char>) -> Option<Seq<u8>> {
    if disk.contains_key(path) {
        Some(disk[path])
    } else {
        None
    }
}

/// The files after an operation that succeeded.
pub open spec fn carried_out(disk: Disk, op: FileOpView) -> Disk {
    match op {
        FileOpView::Nothing => disk,
        FileOpView::Write { path, bytes } => disk.insert(path, bytes),
        FileOpView::Rename { from, to } => if disk.contains_key(from) {
            disk.remove(from).insert(to, disk[from])
        } else {
            disk
        },
    }
}

/// Whether `after` may be what is left of `disk` when an operation was begun
/// and failed or was cut short. A write may leave anything under its own
/// path and touches no other; a rename that does not happen leaves every
/// file as it was.
pub open spec fn may_be_left(disk: Disk, op: FileOpView, after: Disk) -> bool {
    match op {
        FileOpView::Write { path, .. } => after.remove(path) == disk.remove(path),
        _ => after == disk,
    }
}

} // verus!
