//! The autosave journal as the runtime sees it: snapshot records, the names
//! of their files, and a mirror of the journal directory.
//!
//! The runtime owns the journal directory. It keeps a mirror of what the
//! directory holds and a list of the file operations that bring the
//! directory to the state of the mirror; the host carries those operations
//! out. A snapshot is written to a temporary file beside its final file and
//! renamed onto it, so that a reader never sees a partial snapshot.

use crate::strings::{chars_end_with, decimal_of, is_suffix, push_decimal, chars_between};
use crate::text::{chars_of, string_of};
use time::OffsetDateTime;
use vstd::prelude::*;
use vstd::string::*;

verus! {

/// The record that a snapshot file holds.
#[derive(Debug, Clone)]
pub struct SnapshotRecord {
    pub note_id: i64,
    /// When the snapshot was written, in seconds since the Unix epoch.
    pub saved_at: i64,
    pub body: String,
}

pub struct RecordView {
    pub note_id: i64,
    pub saved_at: i64,
    pub body: Seq<char>,
}

impl View for SnapshotRecord {
    type V = RecordView;

    open spec fn view(&self) -> RecordView {
        RecordView { note_id: self.note_id, saved_at: self.saved_at, body: self.body@ }
    }
}

impl SnapshotRecord {
    /// A copy of the record.
    pub fn duplicate(&self) -> (copy: Self)
        ensures
            copy@ == self@,
    {
        SnapshotRecord { note_id: self.note_id, saved_at: self.saved_at, body: self.body.clone() }
    }
}

/// One entry of the journal directory: its file name, whether it is a
/// regular file, and the record it holds where its content parses as one.
#[derive(Debug, Clone)]
pub struct JournalFile {
    pub name: String,
    pub is_file: bool,
    pub record: Option<SnapshotRecord>,
}

pub struct FileView {
    pub name: Seq<char>,
    pub is_file: bool,
    pub record: Option<RecordView>,
}

impl View for JournalFile {
    type V = FileView;

    open spec fn view(&self) -> FileView {
        FileView {
            name: self.name@,
            is_file: self.is_file,
            record: match self.record {
                Some(record) => Some(record@),
                None => None,
            },
        }
    }
}

impl JournalFile {
    /// A copy of the entry.
    pub fn duplicate(&self) -> (copy: Self)
        ensures
            copy@ == self@,
    {
        JournalFile {
            name: self.name.clone(),
            is_file: self.is_file,
            record: match &self.record {
                Some(record) => Some(record.duplicate()),
                None => None,
            },
        }
    }
}

/// A file operation on the journal directory, for the host to carry out.
#[derive(Debug, Clone)]
pub enum JournalOp {
    /// Create the journal directory and its parents where they are missing.
    EnsureDir,
    /// Serialise `record` and write it to the file `name`.
    Write { name: String, record: SnapshotRecord },
    /// Rename the file `from` onto `to`, atomically.
    Rename { from: String, to: String },
    /// Remove the file `name`; a missing file is no error.
    Remove { name: String },
}

pub enum OpView {
    EnsureDir,
    Write { name: Seq<char>, record: RecordView },
    Rename { from: Seq<char>, to: Seq<char> },
    Remove { name: Seq<char> },
}

impl View for JournalOp {
    type V = OpView;

    open spec fn view(&self) -> OpView {
        match self {
            JournalOp::EnsureDir => OpView::EnsureDir,
            JournalOp::Write { name, record } => OpView::Write { name: name@, record: record@ },
            JournalOp::Rename { from, to } => OpView::Rename { from: from@, to: to@ },
            JournalOp::Remove { name } => OpView::Remove { name: name@ },
        }
    }
}

/// A snapshot offered for recovery.
#[derive(Debug, Clone)]
pub struct RecoverySnapshot {
    pub note_id: i64,
    /// When the snapshot was saved, in nanoseconds since the Unix epoch.
    pub saved_at: i128,
    pub body: String,
}

pub struct RecoveryView {
    pub note_id: i64,
    pub saved_at: i128,
    pub body: Seq<char>,
}

impl View for RecoverySnapshot {
    type V = RecoveryView;

    open spec fn view(&self) -> RecoveryView {
        RecoveryView { note_id: self.note_id, saved_at: self.saved_at, body: self.body@ }
    }
}

impl RecoverySnapshot {
    /// A copy of the snapshot.
    pub fn duplicate(&self) -> (copy: Self)
        ensures
            copy@ == self@,
    {
        RecoverySnapshot { note_id: self.note_id, saved_at: self.saved_at, body: self.body.clone() }
    }
}

/// The extension of a snapshot file, with its dot.
pub open spec fn snapshot_suffix() -> Seq<char> {
    seq!['.', 'j', 's', 'o', 'n']
}

/// The extension of a temporary file, with its dot.
pub open spec fn temp_suffix() -> Seq<char> {
    seq!['.', 't', 'm', 'p']
}

/// `name` has the extension `json`: it ends in `.json` after a non-empty
/// stem.
pub open spec fn is_snapshot_name(name: Seq<char>) -> bool {
    name.len() > 5 && is_suffix(snapshot_suffix(), name)
}

/// `name` has the extension `tmp`: it ends in `.tmp` after a non-empty stem.
pub open spec fn is_temp_name(name: Seq<char>) -> bool {
    name.len() > 4 && is_suffix(temp_suffix(), name)
}

/// `name` is that of a snapshot's temporary file: it ends in `.json.tmp`.
pub open spec fn is_snapshot_temp_name(name: Seq<char>) -> bool {
    is_suffix(snapshot_suffix() + temp_suffix(), name)
}

/// The name of the temporary file beside the file `name`.
pub open spec fn temp_name_of(name: Seq<char>) -> Seq<char> {
    name + temp_suffix()
}

/// The name of the final file of the temporary file `name`.
pub open spec fn final_name_of(name: Seq<char>) -> Seq<char> {
    name.take(name.len() - 4)
}

/// The name of the snapshot file of the note `note_id`.
pub open spec fn snapshot_name_of(note_id: i64) -> Seq<char> {
    seq!['n', 'o', 't', 'e', '-'] + decimal_of(note_id as int) + snapshot_suffix()
}

/// The name of the snapshot file of the note `note_id`: `note-<id>.json`.
pub fn snapshot_name(note_id: i64) -> (name: String)
    ensures
        name@ == snapshot_name_of(note_id),
{
    let mut chars: Vec<char> = vec!['n', 'o', 't', 'e', '-'];
    push_decimal(&mut chars, note_id);
    let mut suffix: Vec<char> = vec!['.', 'j', 's', 'o', 'n'];
    chars.append(&mut suffix);
    assert(chars@ =~= snapshot_name_of(note_id));
    string_of(&chars)
}

/// The name of the temporary file beside the file `name`: `name` and `.tmp`.
pub fn temp_name(name: &str) -> (temp: String)
    ensures
        temp@ == temp_name_of(name@),
{
    let mut chars = chars_of(name);
    let mut suffix: Vec<char> = vec!['.', 't', 'm', 'p'];
    chars.append(&mut suffix);
    assert(chars@ =~= temp_name_of(name@));
    string_of(&chars)
}

/// What the name of a journal entry says of it.
#[derive(Debug, Clone, Copy, PartialEq, Eq, Structural)]
pub enum EntryKind {
    /// A snapshot file: the extension is `json`.
    Snapshot,
    /// The temporary file of a snapshot: the name ends in `.json.tmp`.
    SnapshotTemp,
    /// Another temporary file: the extension is `tmp`.
    Temp,
    /// Anything else.
    Other,
}

/// The kind of the entry `name`.
pub open spec fn kind_of(name: Seq<char>) -> EntryKind {
    if is_snapshot_name(name) {
        EntryKind::Snapshot
    } else if is_snapshot_temp_name(name) {
        EntryKind::SnapshotTemp
    } else if is_temp_name(name) {
        EntryKind::Temp
    } else {
        EntryKind::Other
    }
}

/// Classifies a journal entry by its name.
pub fn entry_kind(name: &str) -> (kind: EntryKind)
    ensures
        kind == kind_of(name@),
{
    let chars = chars_of(name);
    let json: Vec<char> = vec!['.', 'j', 's', 'o', 'n'];
    let tmp: Vec<char> = vec!['.', 't', 'm', 'p'];
    let json_tmp: Vec<char> = vec!['.', 'j', 's', 'o', 'n', '.', 't', 'm', 'p'];
    assert(json@ =~= snapshot_suffix());
    assert(tmp@ =~= temp_suffix());
    assert(json_tmp@ =~= snapshot_suffix() + temp_suffix());
    if chars.len() > 5 && chars_end_with(&chars, &json) {
        EntryKind::Snapshot
    } else if chars_end_with(&chars, &json_tmp) {
        EntryKind::SnapshotTemp
    } else if chars.len() > 4 && chars_end_with(&chars, &tmp) {
        EntryKind::Temp
    } else {
        EntryKind::Other
    }
}

/// The name of the final file of the temporary file `name`: `name` without
/// its last four characters.
pub fn final_name(name: &str) -> (name_final: String)
    requires
        name@.len() >= 4,
    ensures
        name_final@ == final_name_of(name@),
{
    let chars = chars_of(name);
    let kept = chars_between(&chars, 0, chars.len() - 4);
    assert(kept@ =~= final_name_of(name@));
    string_of(&kept)
}

/// The earliest and the latest Unix timestamp, in seconds, that stand for
/// a date in the years -9999 to 9999.
pub const MIN_UNIX_SECONDS: i64 = -377705116800;

pub const MAX_UNIX_SECONDS: i64 = 253402300799;

/// Whether `seconds` is a Unix timestamp of a representable date.
pub open spec fn unix_seconds_in_range(seconds: i64) -> bool {
    MIN_UNIX_SECONDS <= seconds <= MAX_UNIX_SECONDS
}

/// Calls `OffsetDateTime::from_unix_timestamp` and tells whether it
/// succeeded. Trusted: it succeeds on exactly the timestamps from midnight
/// of the first day of the year -9999 to the last second of the year 9999,
/// the range of dates of the `time` crate without its feature for larger
/// dates.
#[verifier::external_body]
pub(crate) fn unix_seconds_valid(seconds: i64) -> (valid: bool)
    ensures
        valid == unix_seconds_in_range(seconds),
{
    OffsetDateTime::from_unix_timestamp(seconds).is_ok()
}

/// The number of nanoseconds in a second.
pub const NANOS_PER_SECOND: i128 = 1_000_000_000;

/// The instant at which a record counts as saved, in nanoseconds since the
/// Unix epoch: the recorded second, or `now` where the recorded second is
/// no representable date.
pub open spec fn snapshot_time_of(saved_at: i64, now: i128) -> int {
    if unix_seconds_in_range(saved_at) {
        saved_at * NANOS_PER_SECOND
    } else {
        now as int
    }
}

/// The instant at which a record counts as saved.
pub fn snapshot_time(saved_at: i64, now: i128) -> (at: i128)
    ensures
        at == snapshot_time_of(saved_at, now),
{
    if unix_seconds_valid(saved_at) {
        let seconds: i128 = saved_at as i128;
        seconds * NANOS_PER_SECOND
    } else {
        now
    }
}

/// The snapshot that `record` offers for recovery when it is read at `now`.
pub open spec fn recovery_of(record: RecordView, now: i128) -> RecoveryView {
    RecoveryView {
        note_id: record.note_id,
        saved_at: snapshot_time_of(record.saved_at, now) as i128,
        body: record.body,
    }
}

/// The snapshot that `record` offers for recovery when it is read at `now`.
pub fn recover(record: &SnapshotRecord, now: i128) -> (snapshot: RecoverySnapshot)
    ensures
        snapshot@ == recovery_of(record@, now),
{
    RecoverySnapshot {
        note_id: record.note_id,
        saved_at: snapshot_time(record.saved_at, now),
        body: record.body.clone(),
    }
}


/// The entries of a listing, as mathematical values.
pub open spec fn views(files: Seq<JournalFile>) -> Seq<FileView> {
    files.map_values(|f: JournalFile| f@)
}

/// The operations of a list, as mathematical values.
pub open spec fn op_views(ops: Seq<JournalOp>) -> Seq<OpView> {
    ops.map_values(|op: JournalOp| op@)
}

/// The snapshots of a list, as mathematical values.
pub open spec fn recovery_views(snapshots: Seq<RecoverySnapshot>) -> Seq<RecoveryView> {
    snapshots.map_values(|snapshot: RecoverySnapshot| snapshot@)
}

/// The listing holds an entry named `name`.
pub open spec fn listed(files: Seq<FileView>, name: Seq<char>) -> bool {
    exists|i: int| 0 <= i < files.len() && (#[trigger] files[i]).name == name
}

/// The entry at `i` is the first one named `name`.
pub open spec fn first_named(files: Seq<FileView>, name: Seq<char>, i: int) -> bool {
    &&& 0 <= i < files.len()
    &&& files[i].name == name
    &&& forall|k: int| 0 <= k < i ==> (#[trigger] files[k]).name != name
}

/// The first entry named `name`, if there is one.
pub open spec fn lookup(files: Seq<FileView>, name: Seq<char>) -> Option<FileView> {
    if exists|i: int| first_named(files, name, i) {
        Some(files[choose|i: int| first_named(files, name, i)])
    } else {
        None
    }
}

/// The listing without the entries named `name`.
pub open spec fn without(files: Seq<FileView>, name: Seq<char>) -> Seq<FileView> {
    files.filter(|f: FileView| f.name != name)
}

/// The record that reading the entry gives: that of a regular file whose
/// content parses.
pub open spec fn readable(file: FileView) -> Option<RecordView> {
    if file.is_file {
        file.record
    } else {
        None
    }
}

/// The listing after `record` has been written for `name` by way of its
/// temporary file: the temporary file is gone and `name` holds the record.
pub open spec fn stored(files: Seq<FileView>, name: Seq<char>, record: RecordView) -> Seq<
    FileView,
> {
    without(without(files, temp_name_of(name)), name).push(
        FileView { name, is_file: true, record: Some(record) },
    )
}

/// The operations that write `record` for `name`: make sure of the
/// directory, write the temporary file, rename it onto the final file.
pub open spec fn store_ops(name: Seq<char>, record: RecordView) -> Seq<OpView> {
    seq![
        OpView::EnsureDir,
        OpView::Write { name: temp_name_of(name), record },
        OpView::Rename { from: temp_name_of(name), to: name },
    ]
}

/// A record saved at `saved_at` is older than the retention window that
/// ends at `now`. A record whose second is no representable date counts as
/// saved when it is read, and is never older.
pub open spec fn expired(saved_at: i64, retention: int, now: i128) -> bool {
    unix_seconds_in_range(saved_at) && saved_at * NANOS_PER_SECOND < now - retention
}

/// The retention window in nanoseconds.
pub open spec fn retention_nanos(retention_seconds: Option<u64>) -> Option<int> {
    match retention_seconds {
        Some(seconds) => Some(seconds * NANOS_PER_SECOND),
        None => None,
    }
}

/// A prune pass removes the entry: it is a regular file and either a
/// temporary file, or, where a retention window is set, a snapshot file
/// that is older than the window or cannot be read.
pub open spec fn doomed(file: FileView, retention: Option<int>, now: i128) -> bool {
    file.is_file && (is_temp_name(file.name) || (is_snapshot_name(file.name) && match retention {
        Some(window) => match file.record {
            Some(record) => expired(record.saved_at, window, now),
            None => true,
        },
        None => false,
    }))
}

/// The removals of a prune pass over `files`, in the order of the listing.
pub open spec fn prune_ops(files: Seq<FileView>, retention: Option<int>, now: i128) -> Seq<
    OpView,
> {
    files.filter(|f: FileView| doomed(f, retention, now)).map_values(
        |f: FileView| OpView::Remove { name: f.name },
    )
}

/// The listing after a prune pass.
pub open spec fn pruned(files: Seq<FileView>, retention: Option<int>, now: i128) -> Seq<
    FileView,
> {
    files.filter(|f: FileView| !doomed(f, retention, now))
}

/// The file that a recovery scan reads for the entry `file`, under the name
/// it has once it is final: a snapshot file itself; for the temporary file of
/// a snapshot, the final file where one exists, else the temporary file
/// renamed to it. Nothing for other entries, and nothing for the file that
/// the active session owns.
pub open spec fn subject(files: Seq<FileView>, file: FileView, owned: Option<Seq<char>>) -> Option<
    FileView,
> {
    let found = if !file.is_file {
        None
    } else if kind_of(file.name) == EntryKind::Snapshot {
        Some(file)
    } else if kind_of(file.name) == EntryKind::SnapshotTemp {
        match lookup(files, final_name_of(file.name)) {
            Some(existing) => Some(existing),
            None => Some(FileView { name: final_name_of(file.name), ..file }),
        }
    } else {
        None
    };
    match found {
        Some(target) => if owned == Some(target.name) {
            None
        } else {
            found
        },
        None => None,
    }
}

/// The scan finalises the entry: it is the temporary file of a snapshot
/// that has no final file yet.
pub open spec fn finalised(files: Seq<FileView>, file: FileView, owned: Option<Seq<char>>) -> bool {
    &&& subject(files, file, owned) is Some
    &&& kind_of(file.name) == EntryKind::SnapshotTemp
    &&& !listed(files, final_name_of(file.name))
}

/// The snapshot that the entry `file` contributes to a recovery scan.
pub open spec fn offered(
    files: Seq<FileView>,
    file: FileView,
    owned: Option<Seq<char>>,
    now: i128,
) -> Option<RecoveryView> {
    match subject(files, file, owned) {
        Some(target) => match readable(target) {
            Some(record) => Some(recovery_of(record, now)),
            None => None,
        },
        None => None,
    }
}

/// The scan removes files named `name`: some entry has a subject of that
/// name that cannot be read.
pub open spec fn discarded(files: Seq<FileView>, owned: Option<Seq<char>>, name: Seq<char>) -> bool {
    vain_before(files, owned, files.len() as int, name)
}

/// One of the first `upto` entries has a subject named `name` that cannot
/// be read.
pub open spec fn vain_before(
    files: Seq<FileView>,
    owned: Option<Seq<char>>,
    upto: int,
    name: Seq<char>,
) -> bool {
    exists|i: int| 0 <= i < upto && #[trigger] read_in_vain(files, files[i], owned, name)
}

/// One of `names` is `name`.
pub open spec fn names_hold(names: Seq<String>, name: Seq<char>) -> bool {
    exists|k: int| 0 <= k < names.len() && (#[trigger] names[k])@ == name
}

/// The scan reads a file named `name` for the entry `file` and cannot read
/// it.
pub open spec fn read_in_vain(
    files: Seq<FileView>,
    file: FileView,
    owned: Option<Seq<char>>,
    name: Seq<char>,
) -> bool {
    match subject(files, file, owned) {
        Some(target) => target.name == name && readable(target) is None,
        None => false,
    }
}

/// The entry `file` as the scan leaves it before removals: renamed where
/// it was finalised.
pub open spec fn renamed(files: Seq<FileView>, file: FileView, owned: Option<Seq<char>>) -> FileView {
    if finalised(files, file, owned) {
        FileView { name: final_name_of(file.name), ..file }
    } else {
        file
    }
}

/// The listing after a recovery scan: temporary files without a final file
/// are renamed, and the regular files that were read in vain are gone.
pub open spec fn scanned(files: Seq<FileView>, owned: Option<Seq<char>>) -> Seq<FileView> {
    files.map_values(|f: FileView| renamed(files, f, owned)).filter(
        |g: FileView| !(g.is_file && discarded(files, owned, g.name)),
    )
}

/// The operations that the scan asks for on behalf of one entry: the
/// rename that finalises it, and the removal of what could not be read.
pub open spec fn scan_ops_of(files: Seq<FileView>, file: FileView, owned: Option<Seq<char>>) -> Seq<
    OpView,
> {
    match subject(files, file, owned) {
        Some(target) => {
            let rename = if finalised(files, file, owned) {
                seq![OpView::Rename { from: file.name, to: target.name }]
            } else {
                seq![]
            };
            let remove = if readable(target) is None {
                seq![OpView::Remove { name: target.name }]
            } else {
                seq![]
            };
            rename + remove
        },
        None => seq![],
    }
}

/// The operations of a recovery scan over the first `upto` entries.
pub open spec fn scan_ops(files: Seq<FileView>, owned: Option<Seq<char>>, upto: int) -> Seq<OpView>
    decreases upto,
{
    if upto <= 0 {
        seq![]
    } else {
        scan_ops(files, owned, upto - 1) + scan_ops_of(files, files[upto - 1], owned)
    }
}

/// The snapshots that a recovery scan finds, in the order of the listing.
pub open spec fn candidates(files: Seq<FileView>, owned: Option<Seq<char>>, now: i128) -> Seq<
    RecoveryView,
> {
    files.filter_map(|f: FileView| offered(files, f, owned, now))
}

/// `a` is listed before `b`: it is newer, or as new with no larger note id.
pub open spec fn listed_before(a: RecoveryView, b: RecoveryView) -> bool {
    a.saved_at > b.saved_at || (a.saved_at == b.saved_at && a.note_id <= b.note_id)
}

/// `list` with `item` inserted behind the last entry that is listed before
/// it.
pub open spec fn inserted_by_recency(list: Seq<RecoveryView>, item: RecoveryView) -> Seq<
    RecoveryView,
>
    decreases list.len(),
{
    if list.len() == 0 {
        seq![item]
    } else if listed_before(list.last(), item) {
        list.push(item)
    } else {
        inserted_by_recency(list.drop_last(), item).push(list.last())
    }
}

/// `list` in the order of a recovery listing: newest first, ties by note
/// id, equal entries in the order they came in.
pub open spec fn by_recency(list: Seq<RecoveryView>) -> Seq<RecoveryView>
    decreases list.len(),
{
    if list.len() == 0 {
        seq![]
    } else {
        inserted_by_recency(by_recency(list.drop_last()), list.last())
    }
}

/// Every two entries of `list` stand in listing order.
pub open spec fn ordered(list: Seq<RecoveryView>) -> bool {
    forall|i: int, j: int| 0 <= i < j < list.len() ==> listed_before(list[i], list[j])
}

/// Inserting keeps the order and adds exactly the item.
pub proof fn lemma_inserted_by_recency(list: Seq<RecoveryView>, item: RecoveryView)
    requires
        ordered(list),
    ensures
        ordered(inserted_by_recency(list, item)),
        inserted_by_recency(list, item).to_multiset() == list.to_multiset().insert(item),
        inserted_by_recency(list, item).len() == list.len() + 1,
    decreases list.len(),
{
    broadcast use vstd::seq_lib::group_to_multiset_ensures;

    let out = inserted_by_recency(list, item);
    if list.len() == 0 {
        assert(list =~= Seq::empty());
        assert(out =~= Seq::<RecoveryView>::empty().push(item));
    } else if listed_before(list.last(), item) {
        assert forall|i: int, j: int| 0 <= i < j < out.len() implies listed_before(
            out[i],
            out[j],
        ) by {
            if j == list.len() && i < list.len() - 1 {
                assert(listed_before(list[i], list.last()));
            }
        }
    } else {
        let rest = list.drop_last();
        assert forall|i: int, j: int| 0 <= i < j < rest.len() implies listed_before(
            rest[i],
            rest[j],
        ) by {
            assert(listed_before(list[i], list[j]));
        }
        lemma_inserted_by_recency(rest, item);
        let inner = inserted_by_recency(rest, item);
        assert(list =~= rest.push(list.last()));
        assert(list.to_multiset() =~= rest.to_multiset().insert(list.last()));
        assert(out.to_multiset() =~= list.to_multiset().insert(item));
        assert forall|i: int, j: int| 0 <= i < j < out.len() implies listed_before(
            out[i],
            out[j],
        ) by {
            if j == out.len() - 1 {
                let e = inner[i];
                assert(inner.to_multiset().count(e) > 0);
                if e != item {
                    assert(rest.to_multiset().count(e) > 0);
                    let k = choose|k: int| 0 <= k < rest.len() && rest[k] == e;
                    assert(listed_before(list[k], list.last()));
                }
            }
        }
    }
}

/// The listing order is an order, and it keeps what was found: the sorted
/// list holds the same snapshots, each as often as it was found.
pub proof fn lemma_by_recency(list: Seq<RecoveryView>)
    ensures
        ordered(by_recency(list)),
        by_recency(list).to_multiset() == list.to_multiset(),
        by_recency(list).len() == list.len(),
    decreases list.len(),
{
    broadcast use vstd::seq_lib::group_to_multiset_ensures;

    if list.len() == 0 {
        assert(list =~= Seq::empty());
    } else {
        lemma_by_recency(list.drop_last());
        lemma_inserted_by_recency(by_recency(list.drop_last()), list.last());
        assert(list =~= list.drop_last().push(list.last()));
        assert(list.to_multiset() =~= list.drop_last().to_multiset().insert(list.last()));
    }
}


/// Filtering a sequence that ends in `x` filters the rest and keeps or
/// drops `x`.
pub proof fn lemma_filter_push<A>(s: Seq<A>, x: A, pred: spec_fn(A) -> bool)
    ensures
        s.push(x).filter(pred) == if pred(x) {
            s.filter(pred).push(x)
        } else {
            s.filter(pred)
        },
{
    reveal(Seq::filter);
    assert(s.push(x).drop_last() =~= s);
}

/// The same for `filter_map`.
pub proof fn lemma_filter_map_push<A, B>(s: Seq<A>, x: A, f: spec_fn(A) -> Option<B>)
    ensures
        s.push(x).filter_map(f) == match f(x) {
            Some(y) => s.filter_map(f).push(y),
            None => s.filter_map(f),
        },
{
    reveal(Seq::filter_map);
    assert(s.push(x).drop_last() =~= s);
    match f(x) {
        Some(y) => {
            assert(s.filter_map(f) + seq![y] =~= s.filter_map(f).push(y));
        },
        None => {},
    }
}

/// The names with the extension `tmp` are those of the two temporary kinds.
pub proof fn lemma_temp_kinds(name: Seq<char>)
    ensures
        is_temp_name(name) <==> (kind_of(name) == EntryKind::SnapshotTemp || kind_of(name)
            == EntryKind::Temp),
        is_snapshot_temp_name(name) ==> name.len() >= 9,
{
    let n = name.len() as int;
    if is_snapshot_name(name) {
        assert(name.subrange(n - 5, n)[4] == 'n');
        if is_suffix(temp_suffix(), name) {
            assert(name.subrange(n - 4, n)[3] == 'p');
        }
        if is_snapshot_temp_name(name) {
            assert(name.subrange(n - 9, n)[8] == 'p');
        }
    }
    if is_snapshot_temp_name(name) {
        let both = snapshot_suffix() + temp_suffix();
        assert(both.len() == 9);
        assert forall|k: int| 0 <= k < 4 implies name.subrange(n - 4, n)[k] == temp_suffix()[k] by {
            assert(name.subrange(n - 9, n)[k + 5] == both[k + 5]);
        }
        assert(name.subrange(n - 4, n) =~= temp_suffix());
    }
}

/// The mirror of the journal directory, and the operations that have not
/// been handed to the host yet.
#[derive(Debug)]
pub struct Journal {
    files: Vec<JournalFile>,
    pending: Vec<JournalOp>,
}

pub struct JournalView {
    /// The entries of the directory once the pending operations are done.
    pub files: Seq<FileView>,
    /// The operations still to be carried out, oldest first.
    pub pending: Seq<OpView>,
}

impl JournalView {
    /// The journal after `record` has been written as the snapshot `name`.
    pub open spec fn store(self, name: Seq<char>, record: RecordView) -> JournalView {
        JournalView {
            files: stored(self.files, name, record),
            pending: self.pending + store_ops(name, record),
        }
    }

    /// The journal after the file `name` has been removed.
    pub open spec fn discard(self, name: Seq<char>) -> JournalView {
        JournalView {
            files: without(self.files, name),
            pending: self.pending.push(OpView::Remove { name }),
        }
    }

    /// The journal after the host has been asked to make sure of the
    /// directory.
    pub open spec fn ensure_dir(self) -> JournalView {
        JournalView { pending: self.pending.push(OpView::EnsureDir), ..self }
    }

    /// The journal after a prune pass at `now`.
    pub open spec fn prune(self, retention_seconds: Option<u64>, now: i128) -> JournalView {
        JournalView {
            files: pruned(self.files, retention_nanos(retention_seconds), now),
            pending: self.pending + prune_ops(self.files, retention_nanos(retention_seconds), now),
        }
    }

    /// The journal after a recovery scan.
    pub open spec fn scan(self, owned: Option<Seq<char>>) -> JournalView {
        JournalView {
            files: scanned(self.files, owned),
            pending: self.pending + scan_ops(self.files, owned, self.files.len() as int),
        }
    }
}

impl View for Journal {
    type V = JournalView;

    closed spec fn view(&self) -> JournalView {
        JournalView { files: views(self.files@), pending: op_views(self.pending@) }
    }
}

/// The name that the active session owns, as a mathematical value.
pub open spec fn name_view(owned: Option<String>) -> Option<Seq<char>> {
    match owned {
        Some(name) => Some(name@),
        None => None,
    }
}

/// The entry, as a mathematical value, where there is one.
pub open spec fn file_view(file: Option<JournalFile>) -> Option<FileView> {
    match file {
        Some(file) => Some(file@),
        None => None,
    }
}

/// The snapshot, as a mathematical value, where there is one.
pub open spec fn recovery_view(snapshot: Option<RecoverySnapshot>) -> Option<RecoveryView> {
    match snapshot {
        Some(snapshot) => Some(snapshot@),
        None => None,
    }
}

fn position(files: &Vec<JournalFile>, name: &String) -> (at: Option<usize>)
    ensures
        match at {
            Some(i) => first_named(views(files@), name@, i as int),
            None => !listed(views(files@), name@),
        },
{
    let mut i: usize = 0;
    while i < files.len()
        invariant
            i <= files.len(),
            forall|k: int| 0 <= k < i ==> (#[trigger] views(files@)[k]).name != name@,
        decreases files.len() - i,
    {
        if files[i].name == *name {
            return Some(i);
        }
        i = i + 1;
    }
    None
}

fn remove_named(files: &Vec<JournalFile>, name: &String) -> (kept: Vec<JournalFile>)
    ensures
        views(kept@) == without(views(files@), name@),
{
    let mut kept: Vec<JournalFile> = Vec::new();
    let ghost pred = |f: FileView| f.name != name@;
    let mut i: usize = 0;
    assert(views(files@).take(0) =~= Seq::empty());
    while i < files.len()
        invariant
            i <= files.len(),
            pred == (|f: FileView| f.name != name@),
            views(kept@) == views(files@).take(i as int).filter(pred),
        decreases files.len() - i,
    {
        proof {
            lemma_filter_push(views(files@).take(i as int), files@[i as int]@, pred);
            assert(views(files@).take(i + 1) =~= views(files@).take(i as int).push(
                files@[i as int]@,
            ));
        }
        if !(files[i].name == *name) {
            let ghost before = views(kept@);
            kept.push(files[i].duplicate());
            assert(views(kept@) =~= before.push(files@[i as int]@));
        }
        i = i + 1;
    }
    assert(views(files@).take(files@.len() as int) =~= views(files@));
    kept
}

fn name_in(names: &Vec<String>, name: &String) -> (found: bool)
    ensures
        found == names_hold(names@, name@),
{
    let mut i: usize = 0;
    while i < names.len()
        invariant
            i <= names.len(),
            forall|k: int| 0 <= k < i ==> (#[trigger] names@[k])@ != name@,
        decreases names.len() - i,
    {
        if names[i] == *name {
            return true;
        }
        i = i + 1;
    }
    false
}

fn is_expired(saved_at: i64, retention_seconds: u64, now: i128) -> (old: bool)
    ensures
        old == expired(saved_at, retention_seconds * NANOS_PER_SECOND, now),
{
    if !unix_seconds_valid(saved_at) {
        return false;
    }
    let saved: i128 = saved_at as i128;
    let window: i128 = retention_seconds as i128;
    saved * NANOS_PER_SECOND + window * NANOS_PER_SECOND < now
}

fn is_doomed(file: &JournalFile, retention_seconds: Option<u64>, now: i128) -> (gone: bool)
    ensures
        gone == doomed(file@, retention_nanos(retention_seconds), now),
{
    if !file.is_file {
        return false;
    }
    proof {
        lemma_temp_kinds(file.name@);
    }
    match entry_kind(file.name.as_str()) {
        EntryKind::SnapshotTemp => true,
        EntryKind::Temp => true,
        EntryKind::Other => false,
        EntryKind::Snapshot => match retention_seconds {
            Some(seconds) => match &file.record {
                Some(record) => is_expired(record.saved_at, seconds, now),
                None => true,
            },
            None => false,
        },
    }
}

/// What a recovery scan makes of one entry.
struct Scanned {
    snapshot: Option<RecoverySnapshot>,
    file: JournalFile,
    ops: Vec<JournalOp>,
    discard: Option<String>,
}

impl Journal {
    /// The mirror of a directory with the entries `files` and nothing
    /// pending.
    pub fn new(files: Vec<JournalFile>) -> (journal: Self)
        ensures
            journal@ == (JournalView { files: views(files@), pending: Seq::empty() }),
    {
        let journal = Journal { files, pending: Vec::new() };
        assert(op_views(journal.pending@) =~= Seq::empty());
        journal
    }

    /// The entries of the mirror.
    pub fn files(&self) -> (files: &Vec<JournalFile>)
        ensures
            views(files@) == self@.files,
    {
        &self.files
    }

    /// Hands out the pending operations, oldest first, and forgets them.
    pub fn take_pending(&mut self) -> (ops: Vec<JournalOp>)
        ensures
            op_views(ops@) == old(self)@.pending,
            final(self)@ == (JournalView { pending: Seq::empty(), ..old(self)@ }),
    {
        let mut ops: Vec<JournalOp> = Vec::new();
        core::mem::swap(&mut self.pending, &mut ops);
        assert(op_views(self.pending@) =~= Seq::empty());
        ops
    }

    /// Replaces the entries of the mirror by `files`, as read from the
    /// directory; what is pending stays.
    pub fn reload(&mut self, files: Vec<JournalFile>)
        ensures
            final(self)@ == (JournalView { files: views(files@), ..old(self)@ }),
    {
        self.files = files;
    }

    /// Whether the mirror holds an entry named `name`.
    pub fn contains(&self, name: &str) -> (found: bool)
        ensures
            found == listed(self@.files, name@),
    {
        let name = String::from_str(name);
        position(&self.files, &name).is_some()
    }

    /// A copy of the first entry named `name`.
    pub fn find(&self, name: &str) -> (found: Option<JournalFile>)
        ensures
            file_view(found) == lookup(self@.files, name@),
            found is Some <==> listed(self@.files, name@),
    {
        let name = String::from_str(name);
        match position(&self.files, &name) {
            Some(i) => {
                proof {
                    let j = choose|j: int| first_named(self@.files, name@, j);
                    assert(j == i);
                }
                Some(self.files[i].duplicate())
            },
            None => None,
        }
    }

    /// Writes `record` as the snapshot `name`: to the temporary file beside
    /// it, which is then renamed onto it.
    pub fn store(&mut self, name: &str, record: SnapshotRecord)
        ensures
            final(self)@ == old(self)@.store(name@, record@),
    {
        let name = String::from_str(name);
        let temp = temp_name(name.as_str());
        let without_temp = remove_named(&self.files, &temp);
        let mut files = remove_named(&without_temp, &name);
        let ghost base = views(files@);
        files.push(JournalFile { name: name.clone(), is_file: true, record: Some(record.duplicate()) });
        assert(views(files@) =~= base.push(
            FileView { name: name@, is_file: true, record: Some(record@) },
        ));
        self.files = files;
        let ghost before = op_views(self.pending@);
        self.pending.push(JournalOp::EnsureDir);
        self.pending.push(JournalOp::Write { name: temp.clone(), record });
        self.pending.push(JournalOp::Rename { from: temp, to: name });
        assert(op_views(self.pending@) =~= before + store_ops(name@, record@));
    }

    /// Removes the file `name`.
    pub fn discard(&mut self, name: &str)
        ensures
            final(self)@ == old(self)@.discard(name@),
    {
        let name = String::from_str(name);
        let files = remove_named(&self.files, &name);
        self.files = files;
        let ghost before = op_views(self.pending@);
        self.pending.push(JournalOp::Remove { name });
        assert(op_views(self.pending@) =~= before.push(OpView::Remove { name: name@ }));
    }

    /// Asks the host to make sure that the journal directory exists.
    pub fn ensure_dir(&mut self)
        ensures
            final(self)@ == old(self)@.ensure_dir(),
    {
        let ghost before = op_views(self.pending@);
        self.pending.push(JournalOp::EnsureDir);
        assert(op_views(self.pending@) =~= before.push(OpView::EnsureDir));
    }

    /// One prune pass: every temporary file goes, and, where a retention
    /// window is set, every snapshot file that is older than the window or
    /// cannot be read. Everything else stays.
    pub fn prune(&mut self, retention_seconds: Option<u64>, now: i128)
        ensures
            final(self)@ == old(self)@.prune(retention_seconds, now),
    {
        let ghost all = views(self.files@);
        let ghost window = retention_nanos(retention_seconds);
        let ghost gone = |f: FileView| doomed(f, window, now);
        let ghost stays = |f: FileView| !doomed(f, window, now);
        let ghost removal = |f: FileView| OpView::Remove { name: f.name };
        let ghost before = op_views(self.pending@);
        let mut kept: Vec<JournalFile> = Vec::new();
        let mut ops: Vec<JournalOp> = Vec::new();
        let mut i: usize = 0;
        assert(all.take(0) =~= Seq::empty());
        assert(op_views(ops@) =~= all.take(0).filter(gone).map_values(removal));
        while i < self.files.len()
            invariant
                i <= self.files.len(),
                all == views(self.files@),
                window == retention_nanos(retention_seconds),
                gone == (|f: FileView| doomed(f, window, now)),
                stays == (|f: FileView| !doomed(f, window, now)),
                removal == (|f: FileView| OpView::Remove { name: f.name }),
                before == op_views(self.pending@),
                views(kept@) == all.take(i as int).filter(stays),
                op_views(ops@) == all.take(i as int).filter(gone).map_values(removal),
            decreases self.files.len() - i,
        {
            let file = &self.files[i];
            proof {
                lemma_filter_push(all.take(i as int), file@, stays);
                lemma_filter_push(all.take(i as int), file@, gone);
                assert(all.take(i + 1) =~= all.take(i as int).push(file@));
            }
            if is_doomed(file, retention_seconds, now) {
                let ghost logged = op_views(ops@);
                ops.push(JournalOp::Remove { name: file.name.clone() });
                assert(op_views(ops@) =~= logged.push(removal(file@)));
                assert(all.take(i as int).filter(gone).push(file@).map_values(removal)
                    =~= all.take(i as int).filter(gone).map_values(removal).push(removal(file@)));
            } else {
                let ghost held = views(kept@);
                kept.push(file.duplicate());
                assert(views(kept@) =~= held.push(file@));
            }
            i = i + 1;
        }
        assert(all.take(all.len() as int) =~= all);
        self.files = kept;
        self.pending.append(&mut ops);
        assert(op_views(self.pending@) =~= before + prune_ops(all, window, now));
    }

    fn subject_of(&self, file: &JournalFile, owned: &Option<String>) -> (target: Option<JournalFile>)
        ensures
            file_view(target) == subject(self@.files, file@, name_view(*owned)),
            kind_of(file.name@) == EntryKind::SnapshotTemp ==> file.name@.len() >= 9,
    {
        proof {
            lemma_temp_kinds(file.name@);
        }
        if !file.is_file {
            return None;
        }
        let found = match entry_kind(file.name.as_str()) {
            EntryKind::Snapshot => Some(file.duplicate()),
            EntryKind::SnapshotTemp => {
                let name = final_name(file.name.as_str());
                match self.find(name.as_str()) {
                    Some(existing) => Some(existing),
                    None => Some(
                        JournalFile {
                            name,
                            is_file: file.is_file,
                            record: match &file.record {
                                Some(record) => Some(record.duplicate()),
                                None => None,
                            },
                        },
                    ),
                }
            },
            _ => None,
        };
        match found {
            Some(target) => {
                let mine = match owned {
                    Some(name) => *name == target.name,
                    None => false,
                };
                if mine {
                    None
                } else {
                    Some(target)
                }
            },
            None => None,
        }
    }

    fn scan_entry(&self, file: &JournalFile, owned: &Option<String>, now: i128) -> (out: Scanned)
        ensures
            recovery_view(out.snapshot) == offered(self@.files, file@, name_view(*owned), now),
            out.file@ == renamed(self@.files, file@, name_view(*owned)),
            op_views(out.ops@) == scan_ops_of(self@.files, file@, name_view(*owned)),
            forall|name: Seq<char>|
                name_view(out.discard) == Some(name) <==> read_in_vain(
                    self@.files,
                    file@,
                    name_view(*owned),
                    name,
                ),
    {
        let mut ops: Vec<JournalOp> = Vec::new();
        assert(op_views(ops@) =~= Seq::empty());
        match self.subject_of(file, owned) {
            None => Scanned { snapshot: None, file: file.duplicate(), ops, discard: None },
            Some(target) => {
                let is_temp = match entry_kind(file.name.as_str()) {
                    EntryKind::SnapshotTemp => true,
                    _ => false,
                };
                let finalise = is_temp && !self.contains(final_name(file.name.as_str()).as_str());
                let kept = if finalise {
                    ops.push(JournalOp::Rename { from: file.name.clone(), to: target.name.clone() });
                    JournalFile {
                        name: final_name(file.name.as_str()),
                        is_file: file.is_file,
                        record: match &file.record {
                            Some(record) => Some(record.duplicate()),
                            None => None,
                        },
                    }
                } else {
                    file.duplicate()
                };
                let record = if target.is_file {
                    match &target.record {
                        Some(record) => Some(record.duplicate()),
                        None => None,
                    }
                } else {
                    None
                };
                match record {
                    Some(record) => {
                        assert(op_views(ops@) =~= scan_ops_of(
                            self@.files,
                            file@,
                            name_view(*owned),
                        ));
                        Scanned { snapshot: Some(recover(&record, now)), file: kept, ops, discard: None }
                    },
                    None => {
                        ops.push(JournalOp::Remove { name: target.name.clone() });
                        assert(op_views(ops@) =~= scan_ops_of(
                            self@.files,
                            file@,
                            name_view(*owned),
                        ));
                        Scanned { snapshot: None, file: kept, ops, discard: Some(target.name) }
                    },
                }
            },
        }
    }

    /// One recovery scan: reads every snapshot file but the one that the
    /// active session owns, finalising the temporary files of snapshots that
    /// have no final file, and removes what cannot be read. Returns the
    /// snapshots read, in the order of the listing.
    pub fn scan(&mut self, owned: Option<String>, now: i128) -> (found: Vec<RecoverySnapshot>)
        ensures
            recovery_views(found@) == candidates(old(self)@.files, name_view(owned), now),
            final(self)@ == old(self)@.scan(name_view(owned)),
    {
        let ghost all = views(self.files@);
        let ghost mine = name_view(owned);
        let ghost offer = |f: FileView| offered(all, f, mine, now);
        let ghost rename = |f: FileView| renamed(all, f, mine);
        let ghost before = op_views(self.pending@);
        let mut found: Vec<RecoverySnapshot> = Vec::new();
        let mut moved: Vec<JournalFile> = Vec::new();
        let mut ops: Vec<JournalOp> = Vec::new();
        let mut discards: Vec<String> = Vec::new();
        let mut i: usize = 0;
        assert(all.take(0) =~= Seq::empty());
        assert(recovery_views(found@) =~= all.take(0).filter_map(offer));
        assert(views(moved@) =~= all.take(0).map_values(rename));
        assert(op_views(ops@) =~= scan_ops(all, mine, 0));
        while i < self.files.len()
            invariant
                i <= self.files.len(),
                all == views(self.files@),
                mine == name_view(owned),
                before == op_views(self.pending@),
                offer == (|f: FileView| offered(all, f, mine, now)),
                rename == (|f: FileView| renamed(all, f, mine)),
                recovery_views(found@) == all.take(i as int).filter_map(offer),
                views(moved@) == all.take(i as int).map_values(rename),
                op_views(ops@) == scan_ops(all, mine, i as int),
                forall|name: Seq<char>| #[trigger]
                    names_hold(discards@, name) <==> vain_before(all, mine, i as int, name),
            decreases self.files.len() - i,
        {
            let out = self.scan_entry(&self.files[i], &owned, now);
            let ghost file = all[i as int];
            proof {
                lemma_filter_map_push(all.take(i as int), file, offer);
                assert(all.take(i + 1) =~= all.take(i as int).push(file));
                assert(all.take(i + 1).map_values(rename) =~= all.take(i as int).map_values(
                    rename,
                ).push(rename(file)));
            }
            let Scanned { snapshot, file: kept, ops: mut entry_ops, discard } = out;
            match snapshot {
                Some(snapshot) => {
                    let ghost had = recovery_views(found@);
                    found.push(snapshot);
                    assert(recovery_views(found@) =~= had.push(snapshot@));
                },
                None => {},
            }
            let ghost held = views(moved@);
            moved.push(kept);
            assert(views(moved@) =~= held.push(rename(file)));
            let ghost logged = op_views(ops@);
            let ghost added = op_views(entry_ops@);
            ops.append(&mut entry_ops);
            assert(op_views(ops@) =~= logged + added);
            let ghost names = discards@;
            match discard {
                Some(name) => {
                    discards.push(name);
                    assert(discards@[names.len() as int]@ == name@);
                    assert(read_in_vain(all, all[i as int], mine, name@));
                },
                None => {},
            }
            proof {
                assert forall|n: Seq<char>| #[trigger]
                    names_hold(discards@, n) <==> vain_before(all, mine, i + 1, n) by {
                    if names_hold(discards@, n) {
                        let k = choose|k: int|
                            0 <= k < discards@.len() && (#[trigger] discards@[k])@ == n;
                        if k < names.len() {
                            assert(names[k]@ == n);
                            assert(names_hold(names, n));
                            assert(vain_before(all, mine, i as int, n));
                            let j = choose|j: int|
                                0 <= j < i && #[trigger] read_in_vain(all, all[j], mine, n);
                            assert(read_in_vain(all, all[j], mine, n));
                        } else {
                            assert(read_in_vain(all, all[i as int], mine, n));
                        }
                    }
                    if vain_before(all, mine, i + 1, n) {
                        let j = choose|j: int|
                            0 <= j < i + 1 && #[trigger] read_in_vain(all, all[j], mine, n);
                        if j < i {
                            assert(vain_before(all, mine, i as int, n));
                            assert(names_hold(names, n));
                            let k = choose|k: int|
                                0 <= k < names.len() && (#[trigger] names[k])@ == n;
                            assert(discards@[k]@ == n);
                        } else {
                            assert(discards@[names.len() as int]@ == n);
                        }
                    }
                }
            }
            i = i + 1;
        }
        assert(all.take(all.len() as int) =~= all);
        let ghost alive = |g: FileView| !(g.is_file && discarded(all, mine, g.name));
        let mut kept: Vec<JournalFile> = Vec::new();
        let mut k: usize = 0;
        assert(views(moved@).take(0) =~= Seq::empty());
        while k < moved.len()
            invariant
                k <= moved.len(),
                i == all.len(),
                alive == (|g: FileView| !(g.is_file && discarded(all, mine, g.name))),
                views(kept@) == views(moved@).take(k as int).filter(alive),
                forall|name: Seq<char>| #[trigger]
                    names_hold(discards@, name) <==> vain_before(all, mine, i as int, name),
            decreases moved.len() - k,
        {
            let file = &moved[k];
            proof {
                lemma_filter_push(views(moved@).take(k as int), file@, alive);
                assert(views(moved@).take(k + 1) =~= views(moved@).take(k as int).push(file@));
            }
            let gone = file.is_file && name_in(&discards, &file.name);
            if !gone {
                let ghost held = views(kept@);
                kept.push(file.duplicate());
                assert(views(kept@) =~= held.push(file@));
            }
            k = k + 1;
        }
        assert(views(moved@).take(moved@.len() as int) =~= views(moved@));
        self.files = kept;
        self.pending.append(&mut ops);
        assert(op_views(self.pending@) =~= before + scan_ops(all, mine, all.len() as int));
        found
    }
}

/// Sorts recovery snapshots into listing order: newest first, ties by note
/// id.
pub fn sort_by_recency(list: Vec<RecoverySnapshot>) -> (sorted: Vec<RecoverySnapshot>)
    ensures
        recovery_views(sorted@) == by_recency(recovery_views(list@)),
        ordered(recovery_views(sorted@)),
        recovery_views(sorted@).to_multiset() == recovery_views(list@).to_multiset(),
{
    let ghost all = recovery_views(list@);
    let mut sorted: Vec<RecoverySnapshot> = Vec::new();
    let mut i: usize = 0;
    assert(all.take(0) =~= Seq::empty());
    assert(recovery_views(sorted@) =~= by_recency(all.take(0)));
    while i < list.len()
        invariant
            i <= list.len(),
            all == recovery_views(list@),
            recovery_views(sorted@) == by_recency(all.take(i as int)),
        decreases list.len() - i,
    {
        let item = list[i].duplicate();
        let ghost base = recovery_views(sorted@);
        let mut at: usize = sorted.len();
        proof {
            assert(base.take(at as int) =~= base);
            assert(inserted_by_recency(base, item@) + base.skip(at as int) =~= inserted_by_recency(
                base,
                item@,
            ));
        }
        while at > 0 && !is_listed_before(&sorted[at - 1], &item)
            invariant
                at <= sorted.len(),
                base == recovery_views(sorted@),
                inserted_by_recency(base, item@) == inserted_by_recency(base.take(at as int), item@)
                    + base.skip(at as int),
            decreases at,
        {
            proof {
                let head = base.take(at as int);
                assert(head.last() == sorted@[at - 1]@);
                assert(head.drop_last() =~= base.take(at - 1));
                assert(inserted_by_recency(head.drop_last(), item@).push(head.last()) + base.skip(
                    at as int,
                ) =~= inserted_by_recency(base.take(at - 1), item@) + base.skip(at - 1));
            }
            at = at - 1;
        }
        proof {
            let head = base.take(at as int);
            if at > 0 {
                assert(head.last() == sorted@[at - 1]@);
            }
            assert(inserted_by_recency(head, item@) == head.push(item@));
            assert(all.take(i + 1).drop_last() =~= all.take(i as int));
        }
        sorted.insert(at, item);
        assert(recovery_views(sorted@) =~= base.take(at as int).push(item@) + base.skip(at as int));
        i = i + 1;
    }
    proof {
        assert(all.take(all.len() as int) =~= all);
        lemma_by_recency(all);
    }
    sorted
}

fn is_listed_before(a: &RecoverySnapshot, b: &RecoverySnapshot) -> (before: bool)
    ensures
        before == listed_before(a@, b@),
{
    a.saved_at > b.saved_at || (a.saved_at == b.saved_at && a.note_id <= b.note_id)
}


/// Removing a name leaves no entry of that name and keeps every other
/// entry.
pub proof fn lemma_without(files: Seq<FileView>, name: Seq<char>)
    ensures
        !listed(without(files, name), name),
        forall|i: int|
            0 <= i < files.len() && (#[trigger] files[i]).name != name ==> without(
                files,
                name,
            ).contains(files[i]),
        forall|k: int|
            0 <= k < without(files, name).len() ==> (#[trigger] without(files, name)[k]).name
                != name && files.contains(without(files, name)[k]),
{
    broadcast use vstd::seq_lib::group_filter_ensures;

    let pred = |f: FileView| f.name != name;
    let kept = files.filter(pred);
    assert forall|k: int| 0 <= k < kept.len() implies (#[trigger] kept[k]).name != name
        && files.contains(kept[k]) by {
        assert(pred(kept[k]));
        assert(kept.contains(kept[k]));
        files.lemma_filter_contains_rev(pred, kept[k]);
    }
    assert forall|i: int| 0 <= i < files.len() && (#[trigger] files[i]).name != name implies kept.contains(
        files[i],
    ) by {
        assert(pred(files[i]));
    }
}

/// After a snapshot has been written, its file holds the record and its
/// temporary file is gone.
pub proof fn lemma_stored(files: Seq<FileView>, name: Seq<char>, record: RecordView)
    ensures
        lookup(stored(files, name, record), name) == Some(
            FileView { name, is_file: true, record: Some(record) },
        ),
        stored(files, name, record).contains(FileView { name, is_file: true, record: Some(record) }),
        !listed(stored(files, name, record), temp_name_of(name)),
{
    let temp = temp_name_of(name);
    let entry = FileView { name, is_file: true, record: Some(record) };
    let first = without(files, temp);
    let second = without(first, name);
    let out = second.push(entry);
    lemma_without(files, temp);
    lemma_without(first, name);
    assert(temp.len() == name.len() + 4);
    assert(first_named(out, name, second.len() as int));
    let i = choose|i: int| first_named(out, name, i);
    assert(i == second.len());
    assert(out[second.len() as int] == entry);
    if listed(out, temp) {
        let k = choose|k: int| 0 <= k < out.len() && (#[trigger] out[k]).name == temp;
        if k < second.len() {
            assert(second[k].name == temp);
            assert(first.contains(second[k]));
            let j = choose|j: int| 0 <= j < first.len() && first[j] == second[k];
            assert(first[j].name != temp);
        }
    }
}

/// What is found in a sequence is found among what it contributes.
pub proof fn lemma_filter_map_keeps<A, B>(s: Seq<A>, f: spec_fn(A) -> Option<B>, i: int)
    requires
        0 <= i < s.len(),
        f(s[i]) is Some,
    ensures
        s.filter_map(f).contains(f(s[i])->0),
    decreases s.len(),
{
    reveal(Seq::filter_map);
    let rest = s.drop_last();
    let y = f(s[i])->0;
    if i == s.len() - 1 {
        let out = rest.filter_map(f) + seq![y];
        assert(out[out.len() - 1] == y);
    } else {
        lemma_filter_map_keeps(rest, f, i);
        let inner = rest.filter_map(f);
        let k = choose|k: int| 0 <= k < inner.len() && inner[k] == y;
        match f(s.last()) {
            Some(z) => {
                assert((inner + seq![z])[k] == y);
            },
            None => {},
        }
    }
}

/// The snapshot file of a note is a snapshot by its name, and no temporary
/// file.
pub proof fn lemma_snapshot_name(note_id: i64)
    ensures
        kind_of(snapshot_name_of(note_id)) == EntryKind::Snapshot,
        !is_temp_name(snapshot_name_of(note_id)),
{
    let name = snapshot_name_of(note_id);
    let stem = seq!['n', 'o', 't', 'e', '-'] + decimal_of(note_id as int);
    assert(name =~= stem + snapshot_suffix());
    assert(name.subrange(name.len() - 5, name.len() as int) =~= snapshot_suffix());
    lemma_temp_kinds(name);
}

/// After a prune pass with a retention window, no temporary file is left
/// and no snapshot file that is older than the window or unreadable; every
/// snapshot file that is not older than the window is still there, and so
/// is every entry that is no regular file or neither a snapshot nor a
/// temporary file.
pub proof fn lemma_prune_retention(files: Seq<FileView>, retention: Option<int>, now: i128)
    ensures
        forall|k: int|
            0 <= k < pruned(files, retention, now).len() ==> !doomed(
                #[trigger] pruned(files, retention, now)[k],
                retention,
                now,
            ) && files.contains(pruned(files, retention, now)[k]),
        forall|i: int|
            0 <= i < files.len() && !doomed(#[trigger] files[i], retention, now) ==> pruned(
                files,
                retention,
                now,
            ).contains(files[i]),
{
    broadcast use vstd::seq_lib::group_filter_ensures;

    let stays = |f: FileView| !doomed(f, retention, now);
    let kept = files.filter(stays);
    assert forall|k: int| 0 <= k < kept.len() implies !doomed(#[trigger] kept[k], retention, now)
        && files.contains(kept[k]) by {
        assert(stays(kept[k]));
        assert(kept.contains(kept[k]));
        files.lemma_filter_contains_rev(stays, kept[k]);
    }
    assert forall|i: int|
        0 <= i < files.len() && !doomed(#[trigger] files[i], retention, now) implies kept.contains(
        files[i],
    ) by {
        assert(stays(files[i]));
    }
}

/// Spelled out for snapshots: with a retention window set, a readable
/// snapshot file is in the journal after a prune pass if and only if it was
/// there before and is not older than the window.
pub proof fn lemma_prune_by_age(files: Seq<FileView>, window: int, now: i128, file: FileView)
    requires
        file.is_file,
        is_snapshot_name(file.name),
        file.record is Some,
    ensures
        pruned(files, Some(window), now).contains(file) <==> files.contains(file) && !expired(
            file.record->0.saved_at,
            window,
            now,
        ),
{
    lemma_prune_retention(files, Some(window), now);
    lemma_temp_kinds(file.name);
    let kept = pruned(files, Some(window), now);
    if kept.contains(file) {
        let k = choose|k: int| 0 <= k < kept.len() && kept[k] == file;
        assert(!doomed(kept[k], Some(window), now));
    }
    if files.contains(file) && !expired(file.record->0.saved_at, window, now) {
        let i = choose|i: int| 0 <= i < files.len() && files[i] == file;
        assert(!doomed(files[i], Some(window), now));
    }
}

} // verus!
