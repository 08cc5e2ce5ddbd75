//! The decisions of one index build, as a state machine. The caller performs
//! each action (counting rows, reading a row, committing, waiting for merges)
//! and reports what happened as the next event.
use vstd::prelude::*;

verus! {

/// Where a build stands.
#[derive(Clone, Copy, Debug, PartialEq, Eq, Structural)]
pub enum Phase {
    Idle,
    Counting,
    Opening,
    Streaming,
    Committing,
    Merging,
    Done,
    Failed,
}

/// What the caller reports after performing an action.
#[derive(Clone, Copy, Debug, PartialEq, Eq, Structural)]
pub enum BuildEvent {
    /// The build was asked to start.
    Started,
    /// The source was read through once and holds this many rows.
    Counted { rows: u64 },
    /// The source could not be opened or read.
    SourceFailed,
    /// The index writer was opened.
    WriterOpened,
    /// The index writer could not be opened.
    WriterFailed,
    /// A row could not be decoded into a record; it is skipped.
    RowRejected,
    /// A row's document was accepted by the writer.
    DocumentAdded,
    /// The writer refused a row's document; it is skipped.
    DocumentRejected,
    /// The source has no more rows.
    StreamEnded,
    /// The accumulated writes were committed.
    Committed,
    /// The commit failed.
    CommitFailed,
    /// Background merges finished.
    MergesDone,
    /// Waiting for background merges failed.
    MergeFailed,
}

/// What the caller should do next.
#[derive(Clone, Copy, Debug, PartialEq, Eq, Structural)]
pub enum BuildAction {
    /// Count the rows of the source.
    CountRows,
    /// Open the index writer; only ever asked for once the source was counted.
    OpenWriter,
    /// Read, decode and add the next row.
    NextRow,
    /// Commit the accumulated writes.
    Commit,
    /// Block until background merges finish.
    WaitForMerges,
    /// The build is complete.
    Finish,
    /// The build failed and must stop.
    Abort,
    /// The event does not apply in this phase; nothing changes.
    Ignore,
}

/// The state of one build: its phase, the row count used to size progress,
/// and the accounting of every row consumed so far.
#[derive(Clone, Copy, Debug, PartialEq, Eq, Structural)]
pub struct BuildState {
    pub phase: Phase,
    pub total_rows: u64,
    pub rows_consumed: u64,
    pub documents_added: u64,
    pub errors_reported: u64,
}

impl BuildState {
    /// Every consumed row was either added or reported as an error.
    pub open spec fn wf(self) -> bool {
        self.documents_added + self.errors_reported == self.rows_consumed
    }

    pub open spec fn is_terminal(self) -> bool {
        self.phase == Phase::Done || self.phase == Phase::Failed
    }

    /// A fresh, idle build.
    pub fn new() -> (s: BuildState)
        ensures
            s == spec_initial(),
            s.wf(),
    {
        BuildState {
            phase: Phase::Idle,
            total_rows: 0,
            rows_consumed: 0,
            documents_added: 0,
            errors_reported: 0,
        }
    }

    /// Advances the build by one event and returns the next action.
    pub fn step(&mut self, event: BuildEvent) -> (a: BuildAction)
        requires
            old(self).rows_consumed < u64::MAX,
        ensures
            (*final(self), a) == spec_step(*old(self), event),
    {
        let s = *self;
        if s.phase == Phase::Done || s.phase == Phase::Failed {
            return BuildAction::Ignore;
        }
        match event {
            BuildEvent::SourceFailed | BuildEvent::WriterFailed | BuildEvent::CommitFailed
            | BuildEvent::MergeFailed => {
                self.phase = Phase::Failed;
                BuildAction::Abort
            },
            BuildEvent::Started => {
                if s.phase == Phase::Idle {
                    self.phase = Phase::Counting;
                    BuildAction::CountRows
                } else {
                    BuildAction::Ignore
                }
            },
            BuildEvent::Counted { rows } => {
                if s.phase == Phase::Counting {
                    self.phase = Phase::Opening;
                    self.total_rows = rows;
                    BuildAction::OpenWriter
                } else {
                    BuildAction::Ignore
                }
            },
            BuildEvent::WriterOpened => {
                if s.phase == Phase::Opening {
                    self.phase = Phase::Streaming;
                    BuildAction::NextRow
                } else {
                    BuildAction::Ignore
                }
            },
            BuildEvent::RowRejected | BuildEvent::DocumentRejected => {
                if s.phase == Phase::Streaming {
                    self.rows_consumed = s.rows_consumed + 1;
                    self.errors_reported = if s.errors_reported < u64::MAX {
                        s.errors_reported + 1
                    } else {
                        s.errors_reported
                    };
                    BuildAction::NextRow
                } else {
                    BuildAction::Ignore
                }
            },
            BuildEvent::DocumentAdded => {
                if s.phase == Phase::Streaming {
                    self.rows_consumed = s.rows_consumed + 1;
                    self.documents_added = if s.documents_added < u64::MAX {
                        s.documents_added + 1
                    } else {
                        s.documents_added
                    };
                    BuildAction::NextRow
                } else {
                    BuildAction::Ignore
                }
            },
            BuildEvent::StreamEnded => {
                if s.phase == Phase::Streaming {
                    self.phase = Phase::Committing;
                    BuildAction::Commit
                } else {
                    BuildAction::Ignore
                }
            },
            BuildEvent::Committed => {
                if s.phase == Phase::Committing {
                    self.phase = Phase::Merging;
                    BuildAction::WaitForMerges
                } else {
                    BuildAction::Ignore
                }
            },
            BuildEvent::MergesDone => {
                if s.phase == Phase::Merging {
                    self.phase = Phase::Done;
                    BuildAction::Finish
                } else {
                    BuildAction::Ignore
                }
            },
        }
    }
}

pub open spec fn spec_initial() -> BuildState {
    BuildState {
        phase: Phase::Idle,
        total_rows: 0,
        rows_consumed: 0,
        documents_added: 0,
        errors_reported: 0,
    }
}

pub open spec fn is_fatal(e: BuildEvent) -> bool {
    e is SourceFailed || e is WriterFailed || e is CommitFailed || e is MergeFailed
}

pub open spec fn is_row_event(e: BuildEvent) -> bool {
    e is RowRejected || e is DocumentAdded || e is DocumentRejected
}

pub open spec fn sat_inc(x: u64) -> u64 {
    if x < u64::MAX { (x + 1) as u64 } else { x }
}

/// The transition of the build on `e` from `s`, with the action it calls for.
/// Terminal phases absorb every event; a fatal event fails any other phase;
/// an event that does not belong to the current phase changes nothing.
pub open spec fn spec_step(s: BuildState, e: BuildEvent) -> (BuildState, BuildAction) {
    if s.is_terminal() {
        (s, BuildAction::Ignore)
    } else if is_fatal(e) {
        (BuildState { phase: Phase::Failed, ..s }, BuildAction::Abort)
    } else {
        match e {
            BuildEvent::Started => if s.phase == Phase::Idle {
                (BuildState { phase: Phase::Counting, ..s }, BuildAction::CountRows)
            } else {
                (s, BuildAction::Ignore)
            },
            BuildEvent::Counted { rows } => if s.phase == Phase::Counting {
                (BuildState { phase: Phase::Opening, total_rows: rows, ..s }, BuildAction::OpenWriter)
            } else {
                (s, BuildAction::Ignore)
            },
            BuildEvent::WriterOpened => if s.phase == Phase::Opening {
                (BuildState { phase: Phase::Streaming, ..s }, BuildAction::NextRow)
            } else {
                (s, BuildAction::Ignore)
            },
            BuildEvent::DocumentAdded => if s.phase == Phase::Streaming {
                (
                    BuildState {
                        rows_consumed: (s.rows_consumed + 1) as u64,
                        documents_added: sat_inc(s.documents_added),
                        ..s
                    },
                    BuildAction::NextRow,
                )
            } else {
                (s, BuildAction::Ignore)
            },
            BuildEvent::RowRejected | BuildEvent::DocumentRejected => if s.phase == Phase::Streaming {
                (
                    BuildState {
                        rows_consumed: (s.rows_consumed + 1) as u64,
                        errors_reported: sat_inc(s.errors_reported),
                        ..s
                    },
                    BuildAction::NextRow,
                )
            } else {
                (s, BuildAction::Ignore)
            },
            BuildEvent::StreamEnded => if s.phase == Phase::Streaming {
                (BuildState { phase: Phase::Committing, ..s }, BuildAction::Commit)
            } else {
                (s, BuildAction::Ignore)
            },
            BuildEvent::Committed => if s.phase == Phase::Committing {
                (BuildState { phase: Phase::Merging, ..s }, BuildAction::WaitForMerges)
            } else {
                (s, BuildAction::Ignore)
            },
            BuildEvent::MergesDone => if s.phase == Phase::Merging {
                (BuildState { phase: Phase::Done, ..s }, BuildAction::Finish)
            } else {
                (s, BuildAction::Ignore)
            },
            _ => (s, BuildAction::Ignore),
        }
    }
}

/// The state reached from `s` after the events `es`, in order.
pub open spec fn run(s: BuildState, es: Seq<BuildEvent>) -> BuildState
    decreases es.len(),
{
    if es.len() == 0 {
        s
    } else {
        run(spec_step(s, es[0]).0, es.drop_first())
    }
}

/// The number of row events in `es`.
pub open spec fn row_events(es: Seq<BuildEvent>) -> nat
    decreases es.len(),
{
    if es.len() == 0 {
        0
    } else {
        row_events(es.drop_first()) + if is_row_event(es[0]) { 1nat } else { 0nat }
    }
}

/// No row is lost: along any run of events, every consumed row is counted
/// either as an added document or as a reported error, the count of
/// consumed rows never goes down and grows by at most one per row event,
/// and once the row total is set by counting it does not change.
pub proof fn lemma_rows_accounted(s: BuildState, es: Seq<BuildEvent>)
    requires
        s.wf(),
        s.rows_consumed + es.len() < u64::MAX,
    ensures
        run(s, es).wf(),
        s.rows_consumed <= run(s, es).rows_consumed <= s.rows_consumed + row_events(es),
        s.phase != Phase::Idle && s.phase != Phase::Counting ==> run(s, es).total_rows == s.total_rows,
    decreases es.len(),
{
    if es.len() > 0 {
        let t = spec_step(s, es[0]).0;
        lemma_rows_accounted(t, es.drop_first());
    }
}

/// Every row event taken while streaming consumes exactly one row, counted
/// once, as an added document or as a reported error.
pub proof fn lemma_row_event_consumes_one(s: BuildState, e: BuildEvent)
    requires
        s.wf(),
        s.phase == Phase::Streaming,
        is_row_event(e),
        s.rows_consumed < u64::MAX,
    ensures
        spec_step(s, e).0.wf(),
        spec_step(s, e).0.rows_consumed == s.rows_consumed + 1,
        spec_step(s, e).0.documents_added == s.documents_added + if e is DocumentAdded { 1int } else { 0int },
        spec_step(s, e).0.errors_reported == s.errors_reported + if e is DocumentAdded { 0int } else { 1int },
        spec_step(s, e).0.phase == Phase::Streaming,
        spec_step(s, e).1 == BuildAction::NextRow,
{
}

/// The writer is asked for only after the source was counted: no other
/// phase or event leads to opening it, so a source that cannot be read
/// fails the build before any writer exists.
pub proof fn lemma_writer_opened_after_count(s: BuildState, e: BuildEvent)
    ensures
        spec_step(s, e).1 == BuildAction::OpenWriter ==> s.phase == Phase::Counting && e is Counted,
{
}

/// A failed build stays failed: a writer that could not be opened (another
/// writer holds the index) or any other fatal error ends it, and no later
/// event adds a document, consumes a row or changes anything else.
pub proof fn lemma_failed_absorbs(s: BuildState, es: Seq<BuildEvent>)
    requires
        s.phase == Phase::Failed,
    ensures
        run(s, es) == s,
    decreases es.len(),
{
    if es.len() > 0 {
        lemma_failed_absorbs(spec_step(s, es[0]).0, es.drop_first());
    }
}

/// While streaming, `n` row events consume exactly `n` rows, each added or
/// reported, and leave the row total alone: after as many row events as the
/// source was counted to hold, the consumed count equals that total.
pub proof fn lemma_streaming_rows(s: BuildState, es: Seq<BuildEvent>)
    requires
        s.wf(),
        s.phase == Phase::Streaming,
        forall|i: int| 0 <= i < es.len() ==> is_row_event(#[trigger] es[i]),
        s.rows_consumed + es.len() < u64::MAX,
    ensures
        run(s, es).phase == Phase::Streaming,
        run(s, es).rows_consumed == s.rows_consumed + es.len(),
        run(s, es).documents_added + run(s, es).errors_reported == s.rows_consumed + es.len(),
        run(s, es).total_rows == s.total_rows,
        s.rows_consumed == 0 && es.len() == s.total_rows ==> run(s, es).rows_consumed
            == run(s, es).total_rows,
    decreases es.len(),
{
    if es.len() > 0 {
        assert(is_row_event(es[0]));
        let t = spec_step(s, es[0]).0;
        let rest = es.drop_first();
        assert forall|i: int| 0 <= i < rest.len() implies is_row_event(#[trigger] rest[i]) by {
            assert(rest[i] == es[i + 1]);
        }
        lemma_streaming_rows(t, rest);
    }
}

} // verus!
