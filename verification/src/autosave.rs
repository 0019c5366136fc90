//! The autosave runtime: at most one session for the note being edited,
//! debounced saving to the durable store, and a crash-recovery journal.
//!
//! The runtime decides; the host acts. Every operation takes the clock as a
//! value. A save takes three steps: [`AutoSaveRuntime::poll`] or
//! [`AutoSaveRuntime::flush_now`] hands out the body to commit, the host
//! writes it to the store, and [`AutoSaveRuntime::complete_flush`] takes the
//! outcome. Changes to the journal directory are made on the mirror that the
//! runtime keeps and handed to the host as operations to carry out.

use crate::config::AutoSaveConfig;
use crate::journal::{
    by_recency, candidates, doomed, expired, FileView, Journal, JournalFile, JournalOp, JournalView,
    lemma_by_recency, lemma_filter_map_keeps, lemma_prune_retention, lemma_snapshot_name,
    lemma_stored, lemma_without, listed, lookup, NANOS_PER_SECOND, offered, pruned, readable,
    RecordView, recover, recovery_of, recovery_views, RecoverySnapshot, RecoveryView,
    retention_nanos, snapshot_name, snapshot_name_of, SnapshotRecord, sort_by_recency, subject,
    views,
};
use vstd::prelude::*;
use vstd::string::*;

verus! {

/// How long the runtime waits between two prune passes, in milliseconds.
pub const JOURNAL_PRUNE_INTERVAL_MS: u64 = 300_000;

/// The number of nanoseconds in a millisecond.
pub const NANOS_PER_MILLI: i128 = 1_000_000;

/// One reading of the host's clocks.
#[derive(Debug, Clone, Copy)]
pub struct Clock {
    /// The wall clock, in nanoseconds since the Unix epoch.
    pub wall_nanos: i128,
    /// A monotonic clock, in nanoseconds since an origin that the host
    /// chooses once.
    pub mono_nanos: u64,
}

/// Why an operation of the runtime failed.
#[derive(Debug, Clone, Copy, PartialEq, Eq, Structural)]
pub enum AutoSaveError {
    /// The configured retention is too long to be represented.
    RetentionOutOfRange,
    /// The journal holds a snapshot for the note that cannot be read.
    SnapshotUnreadable,
}

/// The state of the runtime, as shown to the user.
#[derive(Debug, Clone)]
pub enum AutoSaveStatus {
    /// Neither saving nor recovery is switched on.
    Disabled,
    /// No note is being edited.
    Inactive,
    /// The session is clean.
    Idle { note_id: i64, last_saved_at: Option<i128> },
    /// The session is dirty and waits for the debounce window to pass.
    Pending { note_id: i64, since: i128 },
    /// The last save failed; the journal holds the body for a retry.
    Error { note_id: i64, message: String, occurred_at: i128 },
}

pub enum StatusView {
    Disabled,
    Inactive,
    Idle { note_id: i64, last_saved_at: Option<i128> },
    Pending { note_id: i64, since: i128 },
    Error { note_id: i64, message: Seq<char>, occurred_at: i128 },
}

impl View for AutoSaveStatus {
    type V = StatusView;

    open spec fn view(&self) -> StatusView {
        match self {
            AutoSaveStatus::Disabled => StatusView::Disabled,
            AutoSaveStatus::Inactive => StatusView::Inactive,
            AutoSaveStatus::Idle { note_id, last_saved_at } => StatusView::Idle {
                note_id: *note_id,
                last_saved_at: *last_saved_at,
            },
            AutoSaveStatus::Pending { note_id, since } => StatusView::Pending {
                note_id: *note_id,
                since: *since,
            },
            AutoSaveStatus::Error { note_id, message, occurred_at } => StatusView::Error {
                note_id: *note_id,
                message: message@,
                occurred_at: *occurred_at,
            },
        }
    }
}

/// What a completed save reports.
#[derive(Debug, Clone)]
pub enum AutoSaveEvent {
    /// The store took the body at `timestamp`.
    Saved { note_id: i64, timestamp: i128 },
    /// The store refused the body.
    Error { note_id: i64, message: String },
}

pub enum EventView {
    Saved { note_id: i64, timestamp: i128 },
    Error { note_id: i64, message: Seq<char> },
}

impl View for AutoSaveEvent {
    type V = EventView;

    open spec fn view(&self) -> EventView {
        match self {
            AutoSaveEvent::Saved { note_id, timestamp } => EventView::Saved {
                note_id: *note_id,
                timestamp: *timestamp,
            },
            AutoSaveEvent::Error { note_id, message } => EventView::Error {
                note_id: *note_id,
                message: message@,
            },
        }
    }
}

/// A body that the host is asked to commit to the durable store.
#[derive(Debug, Clone)]
pub struct FlushRequest {
    pub note_id: i64,
    pub body: String,
}

pub struct RequestView {
    pub note_id: i64,
    pub body: Seq<char>,
}

impl View for FlushRequest {
    type V = RequestView;

    open spec fn view(&self) -> RequestView {
        RequestView { note_id: self.note_id, body: self.body@ }
    }
}

/// Whether a save waits for the debounce window.
#[derive(Debug, Clone, Copy, PartialEq, Eq, Structural)]
pub enum FlushKind {
    Debounced,
    Immediate,
}

#[derive(Debug, Clone)]
struct AutoSaveFailure {
    message: String,
    occurred_at: i128,
}

#[derive(Debug)]
struct Session {
    note_id: i64,
    buffer: String,
    dirty: bool,
    dirty_since: Option<i128>,
    dirty_since_wall: Option<i128>,
    last_saved_at: Option<i128>,
    last_error: Option<AutoSaveFailure>,
    snapshot_name: String,
}

/// The last failed save: its message and when it happened.
pub struct FailureView {
    pub message: Seq<char>,
    pub occurred_at: i128,
}

/// The mathematical state of a session.
pub struct SessionView {
    pub note_id: i64,
    /// The mirror of the editing buffer.
    pub buffer: Seq<char>,
    pub dirty: bool,
    /// When the session became dirty, on the monotonic clock.
    pub dirty_since: Option<i128>,
    /// When the session became dirty, on the wall clock.
    pub dirty_since_wall: Option<i128>,
    pub last_saved_at: Option<i128>,
    pub last_error: Option<FailureView>,
    /// The name of the session's snapshot file.
    pub snapshot_name: Seq<char>,
}

impl View for Session {
    type V = SessionView;

    closed spec fn view(&self) -> SessionView {
        SessionView {
            note_id: self.note_id,
            buffer: self.buffer@,
            dirty: self.dirty,
            dirty_since: self.dirty_since,
            dirty_since_wall: self.dirty_since_wall,
            last_saved_at: self.last_saved_at,
            last_error: match self.last_error {
                Some(failure) => Some(
                    FailureView { message: failure.message@, occurred_at: failure.occurred_at },
                ),
                None => None,
            },
            snapshot_name: self.snapshot_name@,
        }
    }
}

/// The whole second that holds the instant `wall_nanos`, bounded to what a
/// signed 64-bit count holds.
pub open spec fn unix_seconds_of(wall_nanos: i128) -> i64 {
    let seconds = wall_nanos as int / NANOS_PER_SECOND as int;
    if seconds < i64::MIN {
        i64::MIN
    } else if seconds > i64::MAX {
        i64::MAX
    } else {
        seconds as i64
    }
}

/// The whole second that holds the instant `wall_nanos`.
pub fn unix_seconds(wall_nanos: i128) -> (seconds: i64)
    ensures
        seconds == unix_seconds_of(wall_nanos),
{
    let whole: i128 = if wall_nanos >= 0 {
        wall_nanos / NANOS_PER_SECOND
    } else {
        let behind: i128 = -(wall_nanos + 1);
        let steps: i128 = behind / NANOS_PER_SECOND;
        assert(wall_nanos as int / NANOS_PER_SECOND as int == -steps - 1) by (nonlinear_arith)
            requires
                wall_nanos < 0,
                behind == -(wall_nanos + 1),
                steps == behind / NANOS_PER_SECOND,
                NANOS_PER_SECOND == 1_000_000_000,
        ;
        -steps - 1
    };
    if whole < -9223372036854775808 {
        i64::MIN
    } else if whole > 9223372036854775807 {
        i64::MAX
    } else {
        whole as i64
    }
}

/// The time from `since` to `now` on the monotonic clock; nothing where
/// `since` lies ahead.
pub open spec fn elapsed(since: i128, now: u64) -> int {
    if now >= since {
        now - since
    } else {
        0
    }
}

/// The record that a snapshot of `buffer` holds when it is written at `now`.
pub open spec fn record_of(note_id: i64, buffer: Seq<char>, now: Clock) -> RecordView {
    RecordView { note_id, saved_at: unix_seconds_of(now.wall_nanos), body: buffer }
}

/// The mathematical state of an [`AutoSaveRuntime`].
pub struct RuntimeView {
    pub enabled: bool,
    pub crash_recovery: bool,
    /// The retention window in seconds; none retains indefinitely.
    pub retention: Option<u64>,
    pub debounce_ms: u64,
    pub journal_dir: Seq<char>,
    pub session: Option<SessionView>,
    pub prune_interval_ms: u64,
    /// When the journal was last pruned, on the monotonic clock.
    pub last_prune: u64,
    pub journal: JournalView,
}

impl SessionView {
    /// A clean session over `buffer`.
    pub open spec fn clean(note_id: i64, buffer: Seq<char>) -> SessionView {
        SessionView {
            note_id,
            buffer,
            dirty: false,
            dirty_since: None,
            dirty_since_wall: None,
            last_saved_at: None,
            last_error: None,
            snapshot_name: snapshot_name_of(note_id),
        }
    }

    /// The session is consistent: it knows its snapshot file, and while it
    /// is dirty it knows since when.
    pub open spec fn wf(self) -> bool {
        &&& self.snapshot_name == snapshot_name_of(self.note_id)
        &&& self.dirty ==> self.dirty_since is Some && self.dirty_since_wall is Some
    }
}

impl RuntimeView {
    /// The invariant of the runtime: its session, if any, is consistent.
    pub open spec fn wf(self) -> bool {
        match self.session {
            Some(session) => session.wf(),
            None => true,
        }
    }

    /// The debounce window on the monotonic clock.
    pub open spec fn debounce_nanos(self) -> int {
        self.debounce_ms * NANOS_PER_MILLI
    }

    /// The runtime as [`AutoSaveRuntime::new`] leaves it: no session, and the
    /// journal pruned once where crash recovery is on.
    pub open spec fn fresh(
        journal_dir: Seq<char>,
        config: AutoSaveConfig,
        files: Seq<FileView>,
        now: Clock,
    ) -> RuntimeView {
        let listed = JournalView { files, pending: Seq::empty() };
        RuntimeView {
            enabled: config.enabled,
            crash_recovery: config.crash_recovery,
            retention: config.retention_seconds(),
            debounce_ms: config.debounce_ms,
            journal_dir,
            session: None,
            prune_interval_ms: JOURNAL_PRUNE_INTERVAL_MS,
            last_prune: now.mono_nanos,
            journal: if config.crash_recovery {
                listed.ensure_dir().prune(config.retention_seconds(), now.wall_nanos)
            } else {
                listed
            },
        }
    }

    /// What [`AutoSaveRuntime::status`] reports.
    pub open spec fn status(self) -> StatusView {
        if !self.enabled && !self.crash_recovery {
            StatusView::Disabled
        } else {
            match self.session {
                None => StatusView::Inactive,
                Some(session) => match session.last_error {
                    Some(failure) => StatusView::Error {
                        note_id: session.note_id,
                        message: failure.message,
                        occurred_at: failure.occurred_at,
                    },
                    None => match session.dirty_since_wall {
                        Some(since) if session.dirty => StatusView::Pending {
                            note_id: session.note_id,
                            since,
                        },
                        _ => StatusView::Idle {
                            note_id: session.note_id,
                            last_saved_at: session.last_saved_at,
                        },
                    },
                },
            }
        }
    }

    /// Whether the session holds changes that the store has not taken.
    pub open spec fn dirty(self) -> bool {
        match self.session {
            Some(session) => session.dirty,
            None => false,
        }
    }

    /// The journal entry from which a session for `note_id` would recover.
    pub open spec fn recoverable(self, note_id: i64) -> Option<FileView> {
        if self.crash_recovery {
            lookup(self.journal.files, snapshot_name_of(note_id))
        } else {
            None
        }
    }

    /// The journal holds an entry for `note_id` that cannot be read, so that
    /// no session can start.
    pub open spec fn start_fails(self, note_id: i64) -> bool {
        match self.recoverable(note_id) {
            Some(file) => readable(file) is None,
            None => false,
        }
    }

    /// The snapshot that starting a session for `note_id` at `now` recovers.
    pub open spec fn recovered(self, note_id: i64, now: Clock) -> Option<RecoveryView> {
        match self.recoverable(note_id) {
            Some(file) => match readable(file) {
                Some(record) => Some(recovery_of(record, now.wall_nanos)),
                None => None,
            },
            None => None,
        }
    }

    /// The state after [`AutoSaveRuntime::start_session`]: unchanged where
    /// the start fails; else a session that is clean over `initial`, or, where
    /// a snapshot was recovered, dirty over the recovered body since one
    /// debounce window before `now`.
    pub open spec fn started(self, note_id: i64, initial: Seq<char>, now: Clock) -> RuntimeView {
        if self.start_fails(note_id) {
            self
        } else {
            let session = match self.recovered(note_id, now) {
                Some(snapshot) => SessionView {
                    dirty: true,
                    dirty_since: Some((now.mono_nanos - self.debounce_nanos()) as i128),
                    dirty_since_wall: Some(now.wall_nanos),
                    ..SessionView::clean(note_id, snapshot.body)
                },
                None => SessionView::clean(note_id, initial),
            };
            RuntimeView { session: Some(session), ..self }
        }
    }

    /// Whether [`AutoSaveRuntime::update_buffer`] takes `contents`: a session
    /// for `note_id` is active and holds something else.
    pub open spec fn takes(self, note_id: i64, contents: Seq<char>) -> bool {
        match self.session {
            Some(session) => session.note_id == note_id && session.buffer != contents,
            None => false,
        }
    }

    /// The state after [`AutoSaveRuntime::update_buffer`]: unchanged where
    /// the contents are not taken; else the session mirrors `contents`, is
    /// dirty since `now` without a recorded failure, and, where crash recovery
    /// is on, the journal holds a snapshot of `contents`.
    pub open spec fn updated(self, note_id: i64, contents: Seq<char>, now: Clock) -> RuntimeView {
        match self.session {
            Some(session) if self.takes(note_id, contents) => RuntimeView {
                session: Some(
                    SessionView {
                        buffer: contents,
                        dirty: true,
                        dirty_since: Some(now.mono_nanos as i128),
                        dirty_since_wall: Some(now.wall_nanos),
                        last_error: None,
                        ..session
                    },
                ),
                journal: if self.crash_recovery {
                    self.journal.store(session.snapshot_name, record_of(note_id, contents, now))
                } else {
                    self.journal
                },
                ..self
            },
            _ => self,
        }
    }

    /// Whether a prune pass is due at `now`.
    pub open spec fn prune_due(self, now: Clock) -> bool {
        self.crash_recovery && elapsed(self.last_prune as i128, now.mono_nanos)
            >= self.prune_interval_ms * NANOS_PER_MILLI
    }

    /// The state after a prune pass at `now`, where crash recovery is on.
    pub open spec fn pruned(self, now: Clock) -> RuntimeView {
        if self.crash_recovery {
            RuntimeView { journal: self.journal.prune(self.retention, now.wall_nanos), ..self }
        } else {
            self
        }
    }

    /// The state after the periodic prune of a tick at `now`.
    pub open spec fn ticked(self, now: Clock) -> RuntimeView {
        if self.prune_due(now) {
            RuntimeView { last_prune: now.mono_nanos, ..self.pruned(now) }
        } else {
            self
        }
    }

    /// What a save of the given kind asks the host to commit at `now`: the
    /// buffer of a dirty session, for a debounced save only once the session
    /// has been dirty for the debounce window.
    pub open spec fn flush_request(self, kind: FlushKind, now: Clock) -> Option<RequestView> {
        match self.session {
            Some(session) if session.dirty && (kind == FlushKind::Immediate || match session.dirty_since {
                Some(since) => elapsed(since, now.mono_nanos) >= self.debounce_nanos(),
                None => false,
            }) => Some(RequestView { note_id: session.note_id, body: session.buffer }),
            _ => None,
        }
    }

    /// What [`AutoSaveRuntime::poll`] asks the host to commit.
    pub open spec fn poll_request(self, now: Clock) -> Option<RequestView> {
        if self.enabled {
            self.ticked(now).flush_request(FlushKind::Debounced, now)
        } else {
            None
        }
    }

    /// Whether the outcome of `request` applies: the session is still dirty
    /// over the body that was committed.
    pub open spec fn awaits(self, request: RequestView) -> bool {
        match self.session {
            Some(session) => session.dirty && session.note_id == request.note_id && session.buffer
                == request.body,
            None => false,
        }
    }

    /// The state after [`AutoSaveRuntime::complete_flush`]: unchanged where
    /// the outcome does not apply. After a success the session is clean,
    /// saved at `now`, without a failure, and its snapshot is removed from
    /// the journal. After a failure the session stays dirty, records the
    /// failure, and its snapshot is written again.
    pub open spec fn completed(
        self,
        request: RequestView,
        outcome: Result<(), Seq<char>>,
        now: Clock,
    ) -> RuntimeView {
        match self.session {
            Some(session) if self.awaits(request) => match outcome {
                Ok(_) => RuntimeView {
                    session: Some(
                        SessionView {
                            dirty: false,
                            dirty_since: None,
                            dirty_since_wall: None,
                            last_saved_at: Some(now.wall_nanos),
                            last_error: None,
                            ..session
                        },
                    ),
                    journal: if self.crash_recovery {
                        self.journal.discard(session.snapshot_name)
                    } else {
                        self.journal
                    },
                    ..self
                },
                Err(message) => RuntimeView {
                    session: Some(
                        SessionView {
                            last_error: Some(
                                FailureView { message, occurred_at: now.wall_nanos },
                            ),
                            ..session
                        },
                    ),
                    journal: if self.crash_recovery {
                        self.journal.store(
                            session.snapshot_name,
                            record_of(session.note_id, session.buffer, now),
                        )
                    } else {
                        self.journal
                    },
                    ..self
                },
            },
            _ => self,
        }
    }

    /// What [`AutoSaveRuntime::complete_flush`] reports.
    pub open spec fn completion_event(
        self,
        request: RequestView,
        outcome: Result<(), Seq<char>>,
        now: Clock,
    ) -> Option<EventView> {
        if self.awaits(request) {
            match outcome {
                Ok(_) => Some(
                    EventView::Saved { note_id: request.note_id, timestamp: now.wall_nanos },
                ),
                Err(message) => Some(EventView::Error { note_id: request.note_id, message }),
            }
        } else {
            None
        }
    }

    /// The state after [`AutoSaveRuntime::end_session`]: the session for
    /// `note_id` is dropped, and its snapshot removed where that is asked for
    /// and crash recovery is on.
    pub open spec fn ended(self, note_id: i64, clear_snapshot: bool) -> RuntimeView {
        match self.session {
            Some(session) if session.note_id == note_id => RuntimeView {
                session: None,
                journal: if clear_snapshot && self.crash_recovery {
                    self.journal.discard(session.snapshot_name)
                } else {
                    self.journal
                },
                ..self
            },
            _ => self,
        }
    }

    /// The state after [`AutoSaveRuntime::discard_snapshot`].
    pub open spec fn discarded(self, note_id: i64) -> RuntimeView {
        if self.crash_recovery {
            RuntimeView { journal: self.journal.discard(snapshot_name_of(note_id)), ..self }
        } else {
            self
        }
    }

    /// The snapshot file that the active session owns.
    pub open spec fn owned(self) -> Option<Seq<char>> {
        match self.session {
            Some(session) => Some(session.snapshot_name),
            None => None,
        }
    }

    /// The state after [`AutoSaveRuntime::list_recovery`]: a prune pass and
    /// a recovery scan, where crash recovery is on.
    pub open spec fn listed(self, now: Clock) -> RuntimeView {
        if self.crash_recovery {
            RuntimeView {
                last_prune: now.mono_nanos,
                journal: self.pruned(now).journal.scan(self.owned()),
                ..self
            }
        } else {
            self
        }
    }

    /// What [`AutoSaveRuntime::list_recovery`] returns: the snapshots that
    /// the scan reads after the prune pass, newest first.
    pub open spec fn recovery_list(self, now: Clock) -> Seq<RecoveryView> {
        if self.crash_recovery {
            by_recency(candidates(self.pruned(now).journal.files, self.owned(), now.wall_nanos))
        } else {
            Seq::empty()
        }
    }
}

/// The runtime of the autosave journal.
#[derive(Debug)]
pub struct AutoSaveRuntime {
    enabled: bool,
    crash_recovery: bool,
    retention: Option<u64>,
    debounce_ms: u64,
    journal_dir: String,
    session: Option<Session>,
    prune_interval_ms: u64,
    last_prune: u64,
    journal: Journal,
}

spec fn session_view(session: Option<Session>) -> Option<SessionView> {
    match session {
        Some(session) => Some(session@),
        None => None,
    }
}

/// The outcome of a commit, with its message as a mathematical value.
pub open spec fn outcome_view(outcome: Result<(), String>) -> Result<(), Seq<char>> {
    match outcome {
        Ok(_) => Ok(()),
        Err(message) => Err(message@),
    }
}

/// The event, as a mathematical value, where there is one.
pub open spec fn event_view(event: Option<AutoSaveEvent>) -> Option<EventView> {
    match event {
        Some(event) => Some(event@),
        None => None,
    }
}

/// The request, as a mathematical value, where there is one.
pub open spec fn request_view(request: Option<FlushRequest>) -> Option<RequestView> {
    match request {
        Some(request) => Some(request@),
        None => None,
    }
}

/// The snapshot, as a mathematical value, where there is one.
pub open spec fn snapshot_view(snapshot: Option<RecoverySnapshot>) -> Option<RecoveryView> {
    match snapshot {
        Some(snapshot) => Some(snapshot@),
        None => None,
    }
}

impl View for AutoSaveRuntime {
    type V = RuntimeView;

    closed spec fn view(&self) -> RuntimeView {
        RuntimeView {
            enabled: self.enabled,
            crash_recovery: self.crash_recovery,
            retention: self.retention,
            debounce_ms: self.debounce_ms,
            journal_dir: self.journal_dir@,
            session: session_view(self.session),
            prune_interval_ms: self.prune_interval_ms,
            last_prune: self.last_prune,
            journal: self.journal@,
        }
    }
}

impl Session {
    fn new(note_id: i64, buffer: String, snapshot_name: String) -> (session: Self)
        requires
            snapshot_name@ == snapshot_name_of(note_id),
        ensures
            session@ == SessionView::clean(note_id, buffer@),
    {
        Self {
            note_id,
            buffer,
            dirty: false,
            dirty_since: None,
            dirty_since_wall: None,
            last_saved_at: None,
            last_error: None,
            snapshot_name,
        }
    }

    fn mark_dirty_now(&mut self, now: Clock)
        ensures
            final(self)@ == (SessionView {
                dirty: true,
                dirty_since: Some(now.mono_nanos as i128),
                dirty_since_wall: Some(now.wall_nanos),
                last_error: None,
                ..old(self)@
            }),
    {
        self.dirty = true;
        self.dirty_since = Some(now.mono_nanos as i128);
        self.dirty_since_wall = Some(now.wall_nanos);
        self.last_error = None;
    }

    fn mark_dirty_immediate(&mut self, debounce_ms: u64, now: Clock)
        ensures
            final(self)@ == (SessionView {
                dirty: true,
                dirty_since: Some((now.mono_nanos - debounce_ms * NANOS_PER_MILLI) as i128),
                dirty_since_wall: Some(now.wall_nanos),
                last_error: None,
                ..old(self)@
            }),
    {
        let window: i128 = debounce_ms as i128;
        let instant: i128 = now.mono_nanos as i128;
        self.dirty = true;
        self.dirty_since = Some(instant - window * NANOS_PER_MILLI);
        self.dirty_since_wall = Some(now.wall_nanos);
        self.last_error = None;
    }
}

impl AutoSaveRuntime {
    /// Sets the runtime up over the journal directory `journal_dir`, whose
    /// entries the host has read into `files`, and prunes the journal once.
    /// Fails where the configured retention cannot be represented.
    pub fn new(journal_dir: String, config: &AutoSaveConfig, files: Vec<JournalFile>, now: Clock) -> (made:
        Result<Self, AutoSaveError>)
        ensures
            match made {
                Ok(runtime) => config.retention_in_range() && runtime@ == RuntimeView::fresh(
                    journal_dir@,
                    *config,
                    views(files@),
                    now,
                ) && runtime@.wf(),
                Err(error) => !config.retention_in_range() && error
                    == AutoSaveError::RetentionOutOfRange,
            },
    {
        if config.snapshot_retention_hours > crate::config::MAX_RETENTION_HOURS {
            return Err(AutoSaveError::RetentionOutOfRange);
        }
        let retention = config.snapshot_retention();
        let mut journal = Journal::new(files);
        if config.crash_recovery {
            journal.ensure_dir();
        }
        let mut runtime = Self {
            enabled: config.enabled,
            crash_recovery: config.crash_recovery,
            retention,
            debounce_ms: config.debounce_ms,
            journal_dir,
            session: None,
            prune_interval_ms: JOURNAL_PRUNE_INTERVAL_MS,
            last_prune: now.mono_nanos,
            journal,
        };
        runtime.prune_journal(now);
        runtime.last_prune = now.mono_nanos;
        Ok(runtime)
    }

    /// The journal directory.
    pub fn journal_dir(&self) -> (dir: &str)
        ensures
            dir@ == self@.journal_dir,
    {
        self.journal_dir.as_str()
    }

    /// The mirror of the journal directory.
    pub fn journal(&self) -> (journal: &Journal)
        ensures
            journal@ == self@.journal,
    {
        &self.journal
    }

    /// Hands out the journal operations that the host has to carry out,
    /// oldest first.
    pub fn take_journal_ops(&mut self) -> (ops: Vec<JournalOp>)
        ensures
            crate::journal::op_views(ops@) == old(self)@.journal.pending,
            final(self)@ == (RuntimeView {
                journal: JournalView { pending: Seq::empty(), ..old(self)@.journal },
                ..old(self)@
            }),
    {
        self.journal.take_pending()
    }

    /// Takes a fresh listing of the journal directory as the mirror's
    /// entries.
    pub fn reload_journal(&mut self, files: Vec<JournalFile>)
        ensures
            final(self)@ == (RuntimeView {
                journal: JournalView { files: views(files@), ..old(self)@.journal },
                ..old(self)@
            }),
    {
        self.journal.reload(files);
    }

    /// The state of the runtime, as shown to the user.
    pub fn status(&self) -> (status: AutoSaveStatus)
        ensures
            status@ == self@.status(),
    {
        if !self.enabled && !self.crash_recovery {
            return AutoSaveStatus::Disabled;
        }
        match &self.session {
            None => AutoSaveStatus::Inactive,
            Some(session) => {
                match &session.last_error {
                    Some(failure) => AutoSaveStatus::Error {
                        note_id: session.note_id,
                        message: failure.message.clone(),
                        occurred_at: failure.occurred_at,
                    },
                    None => {
                        if session.dirty {
                            match session.dirty_since_wall {
                                Some(since) => AutoSaveStatus::Pending {
                                    note_id: session.note_id,
                                    since,
                                },
                                None => AutoSaveStatus::Idle {
                                    note_id: session.note_id,
                                    last_saved_at: session.last_saved_at,
                                },
                            }
                        } else {
                            AutoSaveStatus::Idle {
                                note_id: session.note_id,
                                last_saved_at: session.last_saved_at,
                            }
                        }
                    },
                }
            },
        }
    }

    /// Whether the next tick prunes the journal, so that the host has to
    /// read the directory anew before it.
    pub fn prune_due(&self, now: Clock) -> (due: bool)
        ensures
            due == self@.prune_due(now),
    {
        if !self.crash_recovery {
            return false;
        }
        let waited: u64 = if now.mono_nanos >= self.last_prune {
            now.mono_nanos - self.last_prune
        } else {
            0
        };
        let interval: i128 = self.prune_interval_ms as i128;
        (waited as i128) >= interval * NANOS_PER_MILLI
    }

    /// Whether a note is being edited.
    pub fn has_active_session(&self) -> (active: bool)
        ensures
            active == self@.session is Some,
    {
        self.session.is_some()
    }

    /// Whether the session holds changes that the store has not taken.
    pub fn has_dirty_changes(&self) -> (dirty: bool)
        ensures
            dirty == self@.dirty(),
    {
        match &self.session {
            Some(session) => session.dirty,
            None => false,
        }
    }

    /// Starts the session for `note_id`. Where the journal holds a snapshot
    /// for the note, the session starts from its body, dirty and due for a
    /// save at once, and the snapshot is returned; else it starts clean from
    /// `initial_body`. Fails, changing nothing, where the journal holds an
    /// entry for the note that cannot be read.
    pub fn start_session(&mut self, note_id: i64, initial_body: &str, now: Clock) -> (recovered: Result<
        Option<RecoverySnapshot>,
        AutoSaveError,
    >)
        ensures
            final(self)@ == old(self)@.started(note_id, initial_body@, now),
            old(self)@.wf() ==> final(self)@.wf(),
            match recovered {
                Ok(snapshot) => !old(self)@.start_fails(note_id) && snapshot_view(snapshot) == old(
                    self,
                )@.recovered(note_id, now),
                Err(error) => old(self)@.start_fails(note_id) && error
                    == AutoSaveError::SnapshotUnreadable,
            },
    {
        let snapshot = if self.crash_recovery {
            match self.read_snapshot(note_id, now) {
                Ok(snapshot) => snapshot,
                Err(error) => {
                    return Err(error);
                },
            }
        } else {
            None
        };
        let buffer = match &snapshot {
            Some(snapshot) => snapshot.body.clone(),
            None => String::from_str(initial_body),
        };
        let mut session = Session::new(note_id, buffer, snapshot_name(note_id));
        if snapshot.is_some() {
            session.mark_dirty_immediate(self.debounce_ms, now);
        }
        self.session = Some(session);
        Ok(snapshot)
    }

    /// Takes the contents of the editing buffer of `note_id`. Nothing
    /// happens where no session for the note is active or the contents are
    /// what the session holds already. Else the session is dirty as of `now`,
    /// and, where crash recovery is on, a snapshot of the contents is written
    /// to the journal.
    pub fn update_buffer(&mut self, note_id: i64, contents: &str, now: Clock) -> (taken: bool)
        ensures
            taken == old(self)@.takes(note_id, contents@),
            final(self)@ == old(self)@.updated(note_id, contents@, now),
            old(self)@.wf() ==> final(self)@.wf(),
    {
        let contents = String::from_str(contents);
        let taken = match &self.session {
            Some(session) => session.note_id == note_id && !(session.buffer == contents),
            None => false,
        };
        if !taken {
            return false;
        }
        let mut session = self.session.take().unwrap();
        session.buffer = contents;
        session.mark_dirty_now(now);
        if self.crash_recovery {
            Self::write_snapshot(&mut self.journal, &session, now);
        }
        self.session = Some(session);
        true
    }

    /// One tick at `now`: prunes the journal where a pass is due and, where
    /// saving is on, hands out the body to commit once the session has been
    /// dirty for the debounce window.
    pub fn poll(&mut self, now: Clock) -> (request: Option<FlushRequest>)
        ensures
            final(self)@ == old(self)@.ticked(now),
            old(self)@.wf() ==> final(self)@.wf(),
            request_view(request) == old(self)@.poll_request(now),
    {
        self.maybe_prune_journal(now);
        if !self.enabled {
            return None;
        }
        self.flush_internal(FlushKind::Debounced, now)
    }

    /// Hands out the body to commit at once, whatever the debounce window:
    /// the buffer of the session, where it is dirty.
    pub fn flush_now(&self, now: Clock) -> (request: Option<FlushRequest>)
        ensures
            request_view(request) == self@.flush_request(FlushKind::Immediate, now),
    {
        self.flush_internal(FlushKind::Immediate, now)
    }

    /// Takes the outcome of committing `request` to the store. On success
    /// the session is clean and its snapshot is removed from the journal; on
    /// failure the failure is recorded, the snapshot is written again, and
    /// the session stays dirty for the next attempt. Nothing happens where
    /// the session no longer holds the body that was committed.
    pub fn complete_flush(
        &mut self,
        request: &FlushRequest,
        outcome: Result<(), String>,
        now: Clock,
    ) -> (event: Option<AutoSaveEvent>)
        ensures
            final(self)@ == old(self)@.completed(request@, outcome_view(outcome), now),
            old(self)@.wf() ==> final(self)@.wf(),
            event_view(event) == old(self)@.completion_event(request@, outcome_view(outcome), now),
    {
        let awaited = match &self.session {
            Some(session) => session.dirty && session.note_id == request.note_id && session.buffer
                == request.body,
            None => false,
        };
        if !awaited {
            return None;
        }
        let session = self.session.take().unwrap();
        match outcome {
            Ok(_) => {
                let saved = Session {
                    dirty: false,
                    dirty_since: None,
                    dirty_since_wall: None,
                    last_saved_at: Some(now.wall_nanos),
                    last_error: None,
                    ..session
                };
                if self.crash_recovery {
                    self.journal.discard(saved.snapshot_name.as_str());
                }
                let note_id = saved.note_id;
                self.session = Some(saved);
                Some(AutoSaveEvent::Saved { note_id, timestamp: now.wall_nanos })
            },
            Err(message) => {
                let failed = Session {
                    last_error: Some(
                        AutoSaveFailure { message: message.clone(), occurred_at: now.wall_nanos },
                    ),
                    ..session
                };
                if self.crash_recovery {
                    Self::write_snapshot(&mut self.journal, &failed, now);
                }
                let note_id = failed.note_id;
                self.session = Some(failed);
                Some(AutoSaveEvent::Error { note_id, message })
            },
        }
    }

    /// Ends the session for `note_id`; with `clear_snapshot`, its snapshot
    /// is removed from the journal too. Nothing happens where no session for
    /// the note is active.
    pub fn end_session(&mut self, note_id: i64, clear_snapshot: bool)
        ensures
            final(self)@ == old(self)@.ended(note_id, clear_snapshot),
            old(self)@.wf() ==> final(self)@.wf(),
    {
        let mine = match &self.session {
            Some(session) => session.note_id == note_id,
            None => false,
        };
        if !mine {
            return ;
        }
        let session = self.session.take().unwrap();
        if clear_snapshot && self.crash_recovery {
            self.journal.discard(session.snapshot_name.as_str());
        }
    }

    /// Closes the editing of `note_id` after the last save before it was
    /// attempted, with `flushed` as what that save reported. Where the save
    /// failed the session stays, with its snapshot, so that no unsaved work
    /// is lost, and the editing goes on. Else the session ends and its
    /// snapshot is removed. Tells whether the editing is closed.
    pub fn close_session(&mut self, note_id: i64, flushed: &Option<AutoSaveEvent>) -> (closed: bool)
        ensures
            closed == !(flushed matches Some(AutoSaveEvent::Error { .. })),
            final(self)@ == if closed {
                old(self)@.ended(note_id, true)
            } else {
                old(self)@
            },
            old(self)@.wf() ==> final(self)@.wf(),
    {
        match flushed {
            Some(AutoSaveEvent::Error { .. }) => false,
            _ => {
                self.end_session(note_id, true);
                true
            },
        }
    }

    /// Removes the snapshot of `note_id` from the journal, whatever the
    /// session.
    pub fn discard_snapshot(&mut self, note_id: i64)
        ensures
            final(self)@ == old(self)@.discarded(note_id),
            old(self)@.wf() ==> final(self)@.wf(),
    {
        if !self.crash_recovery {
            return ;
        }
        self.journal.discard(snapshot_name(note_id).as_str());
    }

    /// Lists the snapshots that wait for recovery, newest first and ties by
    /// note id, after a prune pass. The snapshot that the active session
    /// owns is not listed; what cannot be read is removed.
    pub fn list_recovery(&mut self, now: Clock) -> (snapshots: Vec<RecoverySnapshot>)
        ensures
            final(self)@ == old(self)@.listed(now),
            old(self)@.wf() ==> final(self)@.wf(),
            recovery_views(snapshots@) == old(self)@.recovery_list(now),
    {
        if !self.crash_recovery {
            let none: Vec<RecoverySnapshot> = Vec::new();
            assert(recovery_views(none@) =~= Seq::empty());
            return none;
        }
        self.prune_journal(now);
        self.last_prune = now.mono_nanos;
        let owned = match &self.session {
            Some(session) => Some(session.snapshot_name.clone()),
            None => None,
        };
        let found = self.journal.scan(owned, now.wall_nanos);
        sort_by_recency(found)
    }

    /// Hands out the body to commit for a save of the kind `mode`: the
    /// buffer of the session where it is dirty and, for a debounced save, has
    /// been dirty for the debounce window.
    pub fn flush_internal(&self, mode: FlushKind, now: Clock) -> (request: Option<FlushRequest>)
        ensures
            request_view(request) == self@.flush_request(mode, now),
    {
        match &self.session {
            None => None,
            Some(session) => {
                if !session.dirty {
                    return None;
                }
                if mode == FlushKind::Debounced {
                    let ready = match session.dirty_since {
                        Some(since) => {
                            let instant: i128 = now.mono_nanos as i128;
                            let window: i128 = self.debounce_ms as i128;
                            if instant >= since {
                                instant - window * NANOS_PER_MILLI >= since
                            } else {
                                window == 0
                            }
                        },
                        None => false,
                    };
                    if !ready {
                        return None;
                    }
                }
                Some(FlushRequest { note_id: session.note_id, body: session.buffer.clone() })
            },
        }
    }

    fn write_snapshot(journal: &mut Journal, session: &Session, now: Clock)
        ensures
            final(journal)@ == old(journal)@.store(
                session@.snapshot_name,
                record_of(session@.note_id, session@.buffer, now),
            ),
    {
        let record = SnapshotRecord {
            note_id: session.note_id,
            saved_at: unix_seconds(now.wall_nanos),
            body: session.buffer.clone(),
        };
        journal.store(session.snapshot_name.as_str(), record);
    }

    fn read_snapshot(&self, note_id: i64, now: Clock) -> (read: Result<
        Option<RecoverySnapshot>,
        AutoSaveError,
    >)
        requires
            self@.crash_recovery,
        ensures
            match read {
                Ok(snapshot) => !self@.start_fails(note_id) && snapshot_view(snapshot)
                    == self@.recovered(note_id, now),
                Err(error) => self@.start_fails(note_id) && error
                    == AutoSaveError::SnapshotUnreadable,
            },
    {
        let name = snapshot_name(note_id);
        match self.journal.find(name.as_str()) {
            None => Ok(None),
            Some(file) => {
                if !file.is_file {
                    return Err(AutoSaveError::SnapshotUnreadable);
                }
                match &file.record {
                    Some(record) => Ok(Some(recover(record, now.wall_nanos))),
                    None => Err(AutoSaveError::SnapshotUnreadable),
                }
            },
        }
    }

    fn maybe_prune_journal(&mut self, now: Clock)
        ensures
            final(self)@ == old(self)@.ticked(now),
    {
        if !self.crash_recovery {
            return ;
        }
        let waited: u64 = if now.mono_nanos >= self.last_prune {
            now.mono_nanos - self.last_prune
        } else {
            0
        };
        let interval: i128 = self.prune_interval_ms as i128;
        if (waited as i128) < interval * NANOS_PER_MILLI {
            return ;
        }
        self.prune_journal(now);
        self.last_prune = now.mono_nanos;
    }

    fn prune_journal(&mut self, now: Clock)
        ensures
            final(self)@ == old(self)@.pruned(now),
    {
        if !self.crash_recovery {
            return ;
        }
        self.journal.prune(self.retention, now.wall_nanos);
    }
}


/// With a debounce window of zero, an update that the session takes and a
/// tick after it always ask for the new contents to be committed. Once the
/// store has accepted them, the completion reports `Saved`, the session is
/// clean, and, where crash recovery is on, the journal holds no snapshot
/// for the note.
pub proof fn lemma_update_then_poll_saves(
    r: RuntimeView,
    note_id: i64,
    contents: Seq<char>,
    at_update: Clock,
    at_poll: Clock,
)
    requires
        r.wf(),
        r.enabled,
        r.debounce_ms == 0,
        r.takes(note_id, contents),
    ensures
        ({
            let request = RequestView { note_id, body: contents };
            let updated = r.updated(note_id, contents, at_update);
            let ticked = updated.ticked(at_poll);
            let saved = ticked.completed(request, Ok(()), at_poll);
            &&& updated.poll_request(at_poll) == Some(request)
            &&& ticked.completion_event(request, Ok(()), at_poll) == Some(
                EventView::Saved { note_id, timestamp: at_poll.wall_nanos },
            )
            &&& !saved.dirty()
            &&& saved.status() == (StatusView::Idle {
                note_id,
                last_saved_at: Some(at_poll.wall_nanos),
            })
            &&& r.crash_recovery ==> !listed(saved.journal.files, snapshot_name_of(note_id))
            &&& saved.wf()
        }),
{
    let request = RequestView { note_id, body: contents };
    let updated = r.updated(note_id, contents, at_update);
    let ticked = updated.ticked(at_poll);
    assert(ticked.session == updated.session);
    assert(ticked.awaits(request));
    if r.crash_recovery {
        lemma_without(ticked.journal.files, snapshot_name_of(note_id));
    }
}

/// Where the store refuses the body, the completion reports `Error`, the
/// status is `Error` with the store's message, the session stays dirty with
/// the same body due for a retry, and, where crash recovery is on, the
/// journal holds the snapshot of the note with the body that was refused.
pub proof fn lemma_failed_flush_keeps_snapshot(
    r: RuntimeView,
    request: RequestView,
    message: Seq<char>,
    now: Clock,
)
    requires
        r.wf(),
        r.enabled || r.crash_recovery,
        r.awaits(request),
    ensures
        ({
            let failed = r.completed(request, Err(message), now);
            let entry = FileView {
                name: snapshot_name_of(request.note_id),
                is_file: true,
                record: Some(record_of(request.note_id, request.body, now)),
            };
            &&& r.completion_event(request, Err(message), now) == Some(
                EventView::Error { note_id: request.note_id, message },
            )
            &&& failed.status() == (StatusView::Error {
                note_id: request.note_id,
                message,
                occurred_at: now.wall_nanos,
            })
            &&& failed.dirty()
            &&& failed.flush_request(FlushKind::Immediate, now) == Some(request)
            &&& r.crash_recovery ==> lookup(failed.journal.files, snapshot_name_of(request.note_id))
                == Some(entry)
            &&& failed.wf()
        }),
{
    if r.crash_recovery {
        lemma_stored(
            r.journal.files,
            snapshot_name_of(request.note_id),
            record_of(request.note_id, request.body, now),
        );
    }
}

/// The same from the save that was asked for: whatever a save of either
/// kind hands out is what its completion waits for, and where the store
/// refuses it the session keeps the same body, dirty, hands it out again at
/// the next immediate save, and, where crash recovery is on, the journal
/// holds the snapshot of the note with that body.
pub proof fn lemma_refused_save_is_retried(
    r: RuntimeView,
    kind: FlushKind,
    message: Seq<char>,
    now: Clock,
    later: Clock,
)
    requires
        r.wf(),
        r.enabled || r.crash_recovery,
        r.flush_request(kind, now) is Some,
    ensures
        ({
            let request = r.flush_request(kind, now)->0;
            let failed = r.completed(request, Err(message), now);
            let entry = FileView {
                name: snapshot_name_of(request.note_id),
                is_file: true,
                record: Some(record_of(request.note_id, request.body, now)),
            };
            &&& r.session matches Some(session) && request.note_id == session.note_id
                && request.body == session.buffer
            &&& r.awaits(request)
            &&& r.completion_event(request, Err(message), now) == Some(
                EventView::Error { note_id: request.note_id, message },
            )
            &&& failed.status() == (StatusView::Error {
                note_id: request.note_id,
                message,
                occurred_at: now.wall_nanos,
            })
            &&& failed.dirty()
            &&& failed.flush_request(FlushKind::Immediate, later) == Some(request)
            &&& r.crash_recovery ==> lookup(failed.journal.files, snapshot_name_of(request.note_id))
                == Some(entry)
        }),
{
    let request = r.flush_request(kind, now)->0;
    lemma_failed_flush_keeps_snapshot(r, request, message, now);
}

/// A draft survives a crash. After an update that the session took, with
/// crash recovery on, a runtime set up afresh over the entries that the
/// journal then holds lists a snapshot of the note with exactly the
/// contents of that update, provided the snapshot is not older than the
/// retention window of the new runtime when it is set up and when it lists.
pub proof fn lemma_draft_survives_restart(
    r: RuntimeView,
    note_id: i64,
    contents: Seq<char>,
    at_update: Clock,
    journal_dir: Seq<char>,
    config: AutoSaveConfig,
    at_restart: Clock,
    at_listing: Clock,
)
    requires
        r.wf(),
        r.crash_recovery,
        r.takes(note_id, contents),
        config.crash_recovery,
        match config.retention_seconds() {
            Some(window) => !expired(
                unix_seconds_of(at_update.wall_nanos),
                window * NANOS_PER_SECOND,
                at_restart.wall_nanos,
            ) && !expired(
                unix_seconds_of(at_update.wall_nanos),
                window * NANOS_PER_SECOND,
                at_listing.wall_nanos,
            ),
            None => true,
        },
    ensures
        ({
            let crashed = r.updated(note_id, contents, at_update);
            let restarted = RuntimeView::fresh(journal_dir, config, crashed.journal.files, at_restart);
            restarted.recovery_list(at_listing).contains(
                recovery_of(record_of(note_id, contents, at_update), at_listing.wall_nanos),
            )
        }),
{
    broadcast use vstd::seq_lib::group_to_multiset_ensures;

    let record = record_of(note_id, contents, at_update);
    let name = snapshot_name_of(note_id);
    let entry = FileView { name, is_file: true, record: Some(record) };
    let crashed = r.updated(note_id, contents, at_update);
    let restarted = RuntimeView::fresh(journal_dir, config, crashed.journal.files, at_restart);
    let window = retention_nanos(config.retention_seconds());
    lemma_stored(r.journal.files, name, record);
    lemma_snapshot_name(note_id);
    assert(crashed.journal.files.contains(entry));
    assert(!doomed(entry, window, at_restart.wall_nanos));
    assert(!doomed(entry, window, at_listing.wall_nanos));
    lemma_prune_retention(crashed.journal.files, window, at_restart.wall_nanos);
    let first = restarted.journal.files;
    assert(first == pruned(crashed.journal.files, window, at_restart.wall_nanos));
    assert(first.contains(entry));
    lemma_prune_retention(first, window, at_listing.wall_nanos);
    let second = pruned(first, window, at_listing.wall_nanos);
    assert(second.contains(entry));
    let i = choose|i: int| 0 <= i < second.len() && second[i] == entry;
    let offer = |f: FileView| offered(second, f, None, at_listing.wall_nanos);
    assert(subject(second, entry, None) == Some(entry));
    assert(offer(second[i]) == Some(recovery_of(record, at_listing.wall_nanos)));
    lemma_filter_map_keeps(second, offer, i);
    let found = candidates(second, None, at_listing.wall_nanos);
    lemma_by_recency(found);
    assert(found.contains(recovery_of(record, at_listing.wall_nanos)));
    assert(found.to_multiset().count(recovery_of(record, at_listing.wall_nanos)) > 0);
}

/// A prune pass of the runtime with a retention window leaves no snapshot
/// file that is older than the window, and keeps every readable snapshot
/// file that is not.
pub proof fn lemma_prune_keeps_window(r: RuntimeView, now: Clock, file: FileView)
    requires
        r.crash_recovery,
        r.retention is Some,
        file.is_file,
        crate::journal::is_snapshot_name(file.name),
        file.record is Some,
    ensures
        r.pruned(now).journal.files.contains(file) <==> r.journal.files.contains(file) && !expired(
            file.record->0.saved_at,
            r.retention->0 * NANOS_PER_SECOND,
            now.wall_nanos,
        ),
{
    crate::journal::lemma_prune_by_age(
        r.journal.files,
        r.retention->0 * NANOS_PER_SECOND,
        now.wall_nanos,
        file,
    );
}

} // verus!
