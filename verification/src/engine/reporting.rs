use vstd::prelude::*;

use crate::engine::error::EngineError;

verus! {

/// The default number of metric reports the queue holds.
pub const DEFAULT_METRIC_BUFFER_CAPACITY: usize = 65_536;

/// A point-in-time view of metric reporting.
#[derive(Clone, Debug, PartialEq, Eq)]
pub struct MetricReporterDiagnostics {
    pub pending_reports: u64,
    pub queue_full_errors: u64,
    pub persisted_reports: u64,
    pub writer_state: &'static str,
    pub last_write_error: Option<String>,
    pub last_flush_run_id: Option<String>,
    pub last_flush_status: &'static str,
    pub last_flush_error: Option<String>,
}

/// The background writer's state.
#[derive(Clone, Copy, Debug, PartialEq, Eq, Structural)]
pub enum WriterState {
    Running,
    Failed,
    Closed,
}

/// What became of one hand-off to the report queue.
#[derive(Clone, Copy, Debug, PartialEq, Eq, Structural)]
pub enum SendOutcome {
    Queued,
    QueueFull,
    Disconnected,
}

/// The counters behind reporting diagnostics. Counters wrap around on
/// overflow, as atomic additions do.
pub struct DiagnosticsCounters {
    pending_reports: u64,
    queue_full_errors: u64,
    persisted_reports: u64,
    writer_state: WriterState,
    last_write_error: Option<String>,
}

/// The abstract value of the counters.
pub struct CountersView {
    pub pending_reports: u64,
    pub queue_full_errors: u64,
    pub persisted_reports: u64,
    pub writer_state: WriterState,
    pub last_write_error: Option<Seq<char>>,
}

/// `a + 1` with wrap-around.
pub open spec fn wrap_inc(a: u64) -> u64 {
    if a == u64::MAX {
        0
    } else {
        (a + 1) as u64
    }
}

/// `a - 1` with wrap-around.
pub open spec fn wrap_dec(a: u64) -> u64 {
    if a == 0 {
        u64::MAX
    } else {
        (a - 1) as u64
    }
}

/// The writer state word diagnostics report: a failed or closed writer says
/// so; a running one is `drained` when nothing is pending.
pub open spec fn writer_state_word(state: WriterState, pending: u64) -> Seq<char> {
    match state {
        WriterState::Failed => "failed"@,
        WriterState::Closed => "closed"@,
        WriterState::Running => if pending == 0 {
            "drained"@
        } else {
            "running"@
        },
    }
}

fn increment(a: u64) -> (b: u64)
    ensures
        b == wrap_inc(a),
{
    if a == u64::MAX {
        0
    } else {
        a + 1
    }
}

fn decrement(a: u64) -> (b: u64)
    ensures
        b == wrap_dec(a),
{
    if a == 0 {
        u64::MAX
    } else {
        a - 1
    }
}

impl DiagnosticsCounters {
    pub closed spec fn spec_view(&self) -> CountersView {
        CountersView {
            pending_reports: self.pending_reports,
            queue_full_errors: self.queue_full_errors,
            persisted_reports: self.persisted_reports,
            writer_state: self.writer_state,
            last_write_error: match self.last_write_error {
                Some(m) => Some(m@),
                None => None,
            },
        }
    }

    /// Counters of a fresh reporter: nothing counted, writer running.
    pub fn new() -> (counters: DiagnosticsCounters)
        ensures
            counters.spec_view() == (CountersView {
                pending_reports: 0,
                queue_full_errors: 0,
                persisted_reports: 0,
                writer_state: WriterState::Running,
                last_write_error: None,
            }),
    {
        DiagnosticsCounters {
            pending_reports: 0,
            queue_full_errors: 0,
            persisted_reports: 0,
            writer_state: WriterState::Running,
            last_write_error: None,
        }
    }

    /// Records a report that entered the queue: the writer counts as running.
    pub fn increment_accepted(&mut self)
        ensures
            final(self).spec_view() == (CountersView {
                writer_state: WriterState::Running,
                ..old(self).spec_view()
            }),
    {
        self.writer_state = WriterState::Running;
    }

    pub fn increment_queue_full(&mut self)
        ensures
            final(self).spec_view() == (CountersView {
                queue_full_errors: wrap_inc(old(self).spec_view().queue_full_errors),
                ..old(self).spec_view()
            }),
    {
        self.queue_full_errors = increment(self.queue_full_errors);
    }

    pub fn increment_persisted(&mut self)
        ensures
            final(self).spec_view() == (CountersView {
                persisted_reports: wrap_inc(old(self).spec_view().persisted_reports),
                ..old(self).spec_view()
            }),
    {
        self.persisted_reports = increment(self.persisted_reports);
    }

    pub fn set_writer_failed(&mut self)
        ensures
            final(self).spec_view() == (CountersView {
                writer_state: WriterState::Failed,
                ..old(self).spec_view()
            }),
    {
        self.writer_state = WriterState::Failed;
    }

    pub fn set_writer_closed(&mut self)
        ensures
            final(self).spec_view() == (CountersView {
                writer_state: WriterState::Closed,
                ..old(self).spec_view()
            }),
    {
        self.writer_state = WriterState::Closed;
    }

    pub fn set_last_write_error(&mut self, message: String)
        ensures
            final(self).spec_view() == (CountersView {
                last_write_error: Some(message@),
                ..old(self).spec_view()
            }),
    {
        self.last_write_error = Some(message);
    }

    pub fn increment_pending(&mut self)
        ensures
            final(self).spec_view() == (CountersView {
                pending_reports: wrap_inc(old(self).spec_view().pending_reports),
                ..old(self).spec_view()
            }),
    {
        self.pending_reports = increment(self.pending_reports);
    }

    pub fn decrement_pending(&mut self)
        ensures
            final(self).spec_view() == (CountersView {
                pending_reports: wrap_dec(old(self).spec_view().pending_reports),
                ..old(self).spec_view()
            }),
    {
        self.pending_reports = decrement(self.pending_reports);
    }

    pub fn pending_reports(&self) -> (pending: u64)
        ensures
            pending == self.spec_view().pending_reports,
    {
        self.pending_reports
    }

    /// Settles one hand-off whose report was counted as pending beforehand: a
    /// queued report stays pending; a full queue uncounts it, counts the
    /// refusal and fails; a closed queue uncounts it and drops it silently.
    pub fn record_send_outcome(&mut self, outcome: SendOutcome) -> (result: Result<(), EngineError>)
        ensures
            match outcome {
                SendOutcome::Queued => result is Ok && final(self).spec_view() == (CountersView {
                    writer_state: WriterState::Running,
                    ..old(self).spec_view()
                }),
                SendOutcome::QueueFull => result == Err::<(), EngineError>(
                    EngineError::MetricQueueFull,
                ) && final(self).spec_view() == (CountersView {
                    pending_reports: wrap_dec(old(self).spec_view().pending_reports),
                    queue_full_errors: wrap_inc(old(self).spec_view().queue_full_errors),
                    ..old(self).spec_view()
                }),
                SendOutcome::Disconnected => result is Ok && final(self).spec_view() == (
                CountersView {
                    pending_reports: wrap_dec(old(self).spec_view().pending_reports),
                    ..old(self).spec_view()
                }),
            },
    {
        match outcome {
            SendOutcome::Queued => {
                self.increment_accepted();
                Ok(())
            },
            SendOutcome::QueueFull => {
                self.decrement_pending();
                self.increment_queue_full();
                Err(EngineError::MetricQueueFull)
            },
            SendOutcome::Disconnected => {
                self.decrement_pending();
                Ok(())
            },
        }
    }

    /// Settles one report the writer took off the queue: a failed write keeps
    /// its message and marks the writer failed, a successful one is counted as
    /// persisted; either way it stops being pending.
    pub fn record_write(&mut self, written: Result<(), String>)
        ensures
            match written {
                Ok(()) => final(self).spec_view() == (CountersView {
                    persisted_reports: wrap_inc(old(self).spec_view().persisted_reports),
                    pending_reports: wrap_dec(old(self).spec_view().pending_reports),
                    ..old(self).spec_view()
                }),
                Err(message) => final(self).spec_view() == (CountersView {
                    last_write_error: Some(message@),
                    writer_state: WriterState::Failed,
                    pending_reports: wrap_dec(old(self).spec_view().pending_reports),
                    ..old(self).spec_view()
                }),
            },
    {
        match written {
            Ok(()) => self.increment_persisted(),
            Err(message) => {
                self.set_last_write_error(message);
                self.set_writer_failed();
            },
        }
        self.decrement_pending();
    }

    /// The diagnostics a reader sees now; flush fields report no flush.
    pub fn snapshot(&self) -> (diagnostics: MetricReporterDiagnostics)
        ensures
            diagnostics.pending_reports == self.spec_view().pending_reports,
            diagnostics.queue_full_errors == self.spec_view().queue_full_errors,
            diagnostics.persisted_reports == self.spec_view().persisted_reports,
            diagnostics.writer_state@ == writer_state_word(
                self.spec_view().writer_state,
                self.spec_view().pending_reports,
            ),
            match diagnostics.last_write_error {
                Some(m) => self.spec_view().last_write_error == Some(m@),
                None => self.spec_view().last_write_error is None,
            },
            diagnostics.last_flush_run_id is None,
            diagnostics.last_flush_status@ == "none"@,
            diagnostics.last_flush_error is None,
    {
        let pending_reports = self.pending_reports;
        let writer_state = match self.writer_state {
            WriterState::Failed => "failed",
            WriterState::Closed => "closed",
            WriterState::Running => if pending_reports == 0 {
                "drained"
            } else {
                "running"
            },
        };
        MetricReporterDiagnostics {
            pending_reports,
            queue_full_errors: self.queue_full_errors,
            persisted_reports: self.persisted_reports,
            writer_state,
            last_write_error: match &self.last_write_error {
                Some(message) => Some(message.clone()),
                None => None,
            },
            last_flush_run_id: None,
            last_flush_status: "none",
            last_flush_error: None,
        }
    }

    /// Closes the writer after a shutdown whose drain finished in time.
    pub fn finish_shutdown(&mut self, drained: bool)
        ensures
            drained ==> final(self).spec_view() == (CountersView {
                writer_state: WriterState::Closed,
                ..old(self).spec_view()
            }),
            !drained ==> final(self).spec_view() == old(self).spec_view(),
    {
        if drained {
            self.set_writer_closed();
        }
    }
}

/// A report counted as pending and then settled, whether written, refused
/// by a full queue or dropped by a closed one, leaves the pending count as it
/// was before the report arrived.
pub proof fn law_settled_report_leaves_pending_unchanged(pending: u64)
    ensures
        wrap_dec(wrap_inc(pending)) == pending,
{
}

} // verus!
