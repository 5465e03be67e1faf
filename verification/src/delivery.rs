//! The course of one flush once its batch has left the queue: the log mirror
//! first, if there is one, then the request, and then nothing more.
//!
//! Delivery is best effort. A failed append to the log mirror does not hold
//! the request back, and a failed request is not repeated: the batch is lost.
//! The caller does the I/O and reports how each step went.

use vstd::prelude::*;

verus! {

/// How the log mirror fared in one flush.
#[derive(Clone, Copy, Debug, PartialEq, Eq, Structural)]
pub enum Mirror {
    /// No log mirror is set.
    Skipped,
    /// Every record was appended.
    Written,
    /// A record could not be serialized or written.
    Failed,
}

/// Where one flush stands.
#[derive(Clone, Copy, Debug, PartialEq, Eq, Structural)]
pub enum Delivery {
    /// The batch was drained and nothing was attempted yet.
    Drained,
    /// The batch is being appended to the log mirror.
    Mirroring,
    /// The request is on its way.
    Posting { mirror: Mirror },
    /// The flush is over; the batch was delivered or is lost.
    Finished { mirror: Mirror, delivered: bool },
}

/// What the caller reports.
#[derive(Clone, Copy, Debug, PartialEq, Eq, Structural)]
pub enum Progress {
    /// The flush begins; `mirror` tells whether a log mirror is set.
    Begun { mirror: bool },
    /// The append to the log mirror ended.
    Mirrored { ok: bool },
    /// The request ended; a body that could not be serialized counts as a
    /// failed request.
    Posted { ok: bool },
}

/// What the caller does next.
#[derive(Clone, Copy, Debug, PartialEq, Eq, Structural)]
pub enum Action {
    /// Serialize each event and append the records to the log mirror.
    AppendToLog,
    /// Build the request body, serialize it and post it.
    Post,
    /// Stop. A failure is recorded, never retried.
    Stop,
    /// The report does not belong to this stage; it is ignored.
    Ignore,
}

impl Delivery {
    /// How far the flush has come: each stage has a higher rank than the one
    /// before it.
    pub open spec fn rank(self) -> nat {
        match self {
            Delivery::Drained => 0,
            Delivery::Mirroring => 1,
            Delivery::Posting { .. } => 2,
            Delivery::Finished { .. } => 3,
        }
    }

    /// The stage after a report.
    pub open spec fn next(self, progress: Progress) -> Delivery {
        match (self, progress) {
            (Delivery::Drained, Progress::Begun { mirror: true }) => Delivery::Mirroring,
            (Delivery::Drained, Progress::Begun { mirror: false }) => Delivery::Posting {
                mirror: Mirror::Skipped,
            },
            (Delivery::Mirroring, Progress::Mirrored { ok: true }) => Delivery::Posting {
                mirror: Mirror::Written,
            },
            (Delivery::Mirroring, Progress::Mirrored { ok: false }) => Delivery::Posting {
                mirror: Mirror::Failed,
            },
            (Delivery::Posting { mirror }, Progress::Posted { ok }) => Delivery::Finished {
                mirror,
                delivered: ok,
            },
            _ => self,
        }
    }

    /// What a report asks of the caller.
    pub open spec fn action(self, progress: Progress) -> Action {
        match (self, progress) {
            (Delivery::Drained, Progress::Begun { mirror: true }) => Action::AppendToLog,
            (Delivery::Drained, Progress::Begun { mirror: false }) => Action::Post,
            (Delivery::Mirroring, Progress::Mirrored { .. }) => Action::Post,
            (Delivery::Posting { .. }, Progress::Posted { .. }) => Action::Stop,
            _ => Action::Ignore,
        }
    }

    /// Takes one report and says what to do next.
    pub fn step(self, progress: Progress) -> (step: (Delivery, Action))
        ensures
            step.0 == self.next(progress),
            step.1 == self.action(progress),
    {
        match self {
            Delivery::Drained => match progress {
                Progress::Begun { mirror } => if mirror {
                    (Delivery::Mirroring, Action::AppendToLog)
                } else {
                    (Delivery::Posting { mirror: Mirror::Skipped }, Action::Post)
                },
                _ => (self, Action::Ignore),
            },
            Delivery::Mirroring => match progress {
                Progress::Mirrored { ok } => {
                    let mirror = if ok {
                        Mirror::Written
                    } else {
                        Mirror::Failed
                    };
                    (Delivery::Posting { mirror }, Action::Post)
                },
                _ => (self, Action::Ignore),
            },
            Delivery::Posting { mirror } => match progress {
                Progress::Posted { ok } => (Delivery::Finished { mirror, delivered: ok }, Action::Stop),
                _ => (self, Action::Ignore),
            },
            Delivery::Finished { .. } => (self, Action::Ignore),
        }
    }
}

/// The stage after a run of reports, first to last.
pub open spec fn stage_after(delivery: Delivery, reports: Seq<Progress>) -> Delivery
    decreases reports.len(),
{
    if reports.len() == 0 {
        delivery
    } else {
        stage_after(delivery, reports.drop_last()).next(reports.last())
    }
}

/// How often a run of reports asks for `action`.
pub open spec fn times_asked(delivery: Delivery, reports: Seq<Progress>, action: Action) -> nat
    decreases reports.len(),
{
    if reports.len() == 0 {
        0
    } else {
        let earlier = times_asked(delivery, reports.drop_last(), action);
        if stage_after(delivery, reports.drop_last()).action(reports.last()) == action {
            earlier + 1
        } else {
            earlier
        }
    }
}

/// A flush only moves forward. The log mirror is asked for only at the very
/// beginning, the request only on the way into the posting stage, and the end
/// only on the way out of it; a report that asks for nothing changes nothing.
pub proof fn lemma_delivery_moves_forward(delivery: Delivery, progress: Progress)
    ensures
        delivery.next(progress).rank() >= delivery.rank(),
        delivery.action(progress) == Action::AppendToLog ==> delivery.rank() == 0
            && delivery.next(progress).rank() == 1,
        delivery.action(progress) == Action::Post ==> delivery.rank() < 2 && delivery.next(
            progress,
        ).rank() == 2,
        delivery.action(progress) == Action::Stop ==> delivery.rank() == 2 && delivery.next(
            progress,
        ).rank() == 3,
        delivery.action(progress) == Action::Ignore ==> delivery.next(progress) == delivery,
{
}

/// A failed append to the log mirror does not hold the request back, and the
/// request follows the log mirror, never the other way round.
pub proof fn lemma_log_failure_does_not_stop_the_request(ok: bool)
    ensures
        Delivery::Mirroring.action(Progress::Mirrored { ok }) == Action::Post,
        Delivery::Mirroring.next(Progress::Mirrored { ok }) is Posting,
        forall|progress: Progress, mirror: Mirror|
            (#[trigger] (Delivery::Posting { mirror }).action(progress)) != Action::AppendToLog,
        forall|progress: Progress, mirror: Mirror, delivered: bool|
            (#[trigger] (Delivery::Finished { mirror, delivered }).action(progress))
                != Action::AppendToLog,
{
}

/// A failed request ends the flush: the batch counts as lost, and whatever is
/// reported afterwards, nothing is asked for again.
pub proof fn lemma_failed_request_is_final(mirror: Mirror, later: Progress)
    ensures
        (Delivery::Posting { mirror }).next(Progress::Posted { ok: false }) == (Delivery::Finished {
            mirror,
            delivered: false,
        }),
        (Delivery::Posting { mirror }).action(Progress::Posted { ok: false }) == Action::Stop,
        (Delivery::Finished { mirror, delivered: false }).next(later) == (Delivery::Finished {
            mirror,
            delivered: false,
        }),
        (Delivery::Finished { mirror, delivered: false }).action(later) == Action::Ignore,
{
}

/// Whatever is reported and in whatever order, one flush asks for the log
/// mirror at most once, for the request at most once, and never for either
/// again after a failure: there is no retry.
pub proof fn lemma_no_retry(reports: Seq<Progress>)
    ensures
        times_asked(Delivery::Drained, reports, Action::AppendToLog) <= 1,
        times_asked(Delivery::Drained, reports, Action::Post) <= 1,
        times_asked(Delivery::Drained, reports, Action::Stop) <= 1,
        times_asked(Delivery::Drained, reports, Action::AppendToLog) == 1 ==> stage_after(
            Delivery::Drained,
            reports,
        ).rank() >= 1,
        times_asked(Delivery::Drained, reports, Action::Post) == 1 ==> stage_after(
            Delivery::Drained,
            reports,
        ).rank() >= 2,
        times_asked(Delivery::Drained, reports, Action::Stop) == 1 ==> stage_after(
            Delivery::Drained,
            reports,
        ).rank() >= 3,
    decreases reports.len(),
{
    if reports.len() > 0 {
        lemma_no_retry(reports.drop_last());
        lemma_delivery_moves_forward(
            stage_after(Delivery::Drained, reports.drop_last()),
            reports.last(),
        );
    }
}

} // verus!
