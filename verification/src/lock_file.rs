//! The lock record: one process identifier, kept as decimal text in a file
//! of its own. This module says what such a file records and what the
//! operations on it do to a disk.

use vstd::prelude::*;
use vstd::string::*;
use crate::decimal::{
    decimal, decimal_string, is_digit, is_numeric, lemma_decimal_wellformed, lemma_parse_decimal,
    parse_u32, parse_u32_between,
};
use crate::text::chars_of;
use crate::whitespace::{lemma_trim_unchanged, trim, trim_bounds};

verus! {

/// What was found at the lock file's path: nothing that could be read, or the
/// text of the file.
#[derive(Clone, Debug, PartialEq, Eq)]
pub enum LockFile {
    Absent,
    Present(String),
}

impl View for LockFile {
    type V = Option<Seq<char>>;

    open spec fn view(&self) -> Option<Seq<char>> {
        match self {
            LockFile::Absent => None,
            LockFile::Present(text) => Some(text@),
        }
    }
}

/// The identifier that a lock file records. A missing file records none, and
/// neither does one whose text, white space at its ends aside, is not a
/// number that fits an identifier.
pub open spec fn record_of(file: Option<Seq<char>>) -> Option<u32> {
    match file {
        None => None,
        Some(text) => parse_u32(trim(text)),
    }
}

/// The text that records `pid`: its decimal notation and nothing else.
pub open spec fn record_text(pid: u32) -> Seq<char> {
    decimal(pid as nat)
}

/// The identifier that `text` records.
pub fn parse_record(text: &str) -> (record: Option<u32>)
    ensures
        record == record_of(Some(text@)),
{
    let chars = chars_of(text);
    let (start, end) = trim_bounds(&chars);
    parse_u32_between(&chars, start, end)
}

/// The text to store for `pid`.
pub fn format_record(pid: u32) -> (text: String)
    ensures
        text@ == record_text(pid),
{
    decimal_string(pid)
}

impl LockFile {
    /// The identifier that this file records.
    pub fn record(&self) -> (record: Option<u32>)
        ensures
            record == record_of(self@),
    {
        match self {
            LockFile::Absent => None,
            LockFile::Present(text) => parse_record(text.as_str()),
        }
    }
}

/// A change to make on disk for the sake of the lock record.
#[derive(Clone, Debug, PartialEq, Eq)]
pub enum LockOp {
    /// Create the file at `path`, or replace what it holds, with `contents`.
    Write { path: String, contents: String },
    /// Delete the file at `path`; it is no fault if there is none.
    Remove { path: String },
}

/// A `LockOp` with its strings as sequences of characters.
pub ghost enum LockOpView {
    Write { path: Seq<char>, contents: Seq<char> },
    Remove { path: Seq<char> },
}

impl View for LockOp {
    type V = LockOpView;

    open spec fn view(&self) -> LockOpView {
        match self {
            LockOp::Write { path, contents } => LockOpView::Write {
                path: path@,
                contents: contents@,
            },
            LockOp::Remove { path } => LockOpView::Remove { path: path@ },
        }
    }
}

/// The files of a disk as far as the lock record goes: the text of each file,
/// by path.
pub type Disk = Map<Seq<char>, Seq<char>>;

/// What a reader finds at `path` on `disk`.
pub open spec fn file_at(disk: Disk, path: Seq<char>) -> Option<Seq<char>> {
    if disk.dom().contains(path) {
        Some(disk[path])
    } else {
        None
    }
}

impl LockOpView {
    /// The file that the operation touches.
    pub open spec fn path(self) -> Seq<char> {
        match self {
            LockOpView::Write { path, .. } => path,
            LockOpView::Remove { path } => path,
        }
    }

    /// The disk after the operation has been carried out on `disk`.
    pub open spec fn on(self, disk: Disk) -> Disk {
        match self {
            LockOpView::Write { path, contents } => disk.insert(path, contents),
            LockOpView::Remove { path } => disk.remove(path),
        }
    }
}

impl LockOp {
    /// The path of the file that the operation touches.
    pub fn path(&self) -> (path: &String)
        ensures
            path@ == self@.path(),
    {
        match self {
            LockOp::Write { path, .. } => path,
            LockOp::Remove { path } => path,
        }
    }
}

/// The text written for an identifier records that identifier.
pub proof fn lemma_record_round_trip(pid: u32)
    ensures
        record_of(Some(record_text(pid))) == Some(pid),
{
    let text = record_text(pid);
    lemma_decimal_wellformed(pid as nat);
    assert(is_digit(text[0]) && is_digit(text.last()));
    lemma_trim_unchanged(text);
    lemma_parse_decimal(pid);
}

/// Round trip: once `pid` has been written to the lock file at `path`, and
/// as long as nothing else writes there, a reader finds `pid` on record,
/// whatever the disk held before.
pub proof fn lemma_write_then_read(path: Seq<char>, pid: u32, disk: Disk)
    ensures
        record_of(
            file_at((LockOpView::Write { path, contents: record_text(pid) }).on(disk), path),
        ) == Some(pid),
{
    lemma_record_round_trip(pid);
}

/// A lock file that is missing, empty or not numeric has nothing on record;
/// reading it is never an error.
pub proof fn lemma_nothing_on_record(text: Seq<char>)
    ensures
        record_of(None) is None,
        record_of(Some(Seq::<char>::empty())) is None,
        !is_numeric(trim(text)) ==> record_of(Some(text)) is None,
{
    assert(trim(Seq::<char>::empty()) =~= Seq::<char>::empty());
}

/// Once the lock file at `path` has been removed, a reader finds nothing on
/// record, and removing it a second time changes nothing.
pub proof fn lemma_clear_then_read(path: Seq<char>, disk: Disk)
    ensures
        ({
            let clear = LockOpView::Remove { path };
            &&& record_of(file_at(clear.on(disk), path)) is None
            &&& clear.on(clear.on(disk)) == clear.on(disk)
            &&& record_of(file_at(clear.on(clear.on(disk)), path)) is None
        }),
{
    let clear = LockOpView::Remove { path };
    assert(clear.on(clear.on(disk)) =~= clear.on(disk));
}

} // verus!
