//! The mathematical model of the state container and of its transitions.
//!
//! Time is a count of seconds on a clock that the caller chooses; the model
//! only compares and adds such counts.

use crate::event::{EventModel, QueuedEvent};
use crate::policy::BuildProfile;
use vstd::prelude::*;

verus! {

/// Everything the state container holds, as plain mathematical values.
pub struct TelemetryState {
    /// Present while a user is signed in and has opted in.
    pub metrics_id: Option<Seq<char>>,
    /// Identifies this installation of the application.
    pub installation_id: Option<Seq<char>>,
    pub app_version: Option<Seq<char>>,
    pub release_channel: Option<Seq<char>>,
    pub os_name: Seq<char>,
    pub os_version: Option<Seq<char>>,
    pub architecture: Seq<char>,
    /// The pending events, oldest first.
    pub queue: Seq<QueuedEvent>,
    /// The pending debounce timer: the time of the admission that armed it.
    pub armed_at: Option<nat>,
    /// Where flushed events are mirrored, if anywhere.
    pub log_file: Option<Seq<char>>,
    pub is_staff: Option<bool>,
    pub profile: BuildProfile,
}

/// What one admission did.
pub enum Outcome {
    /// Telemetry was off: the event is gone and nothing changed.
    Discarded,
    /// The event waits in the queue; no installation id is known, so nothing
    /// was scheduled.
    Held,
    /// The event waits in the queue and the debounce timer was armed anew.
    Debounced { delay: nat },
    /// The queue reached its limit and was drained into this batch.
    Flushed { batch: Seq<QueuedEvent> },
}

/// The wire payload of one flush: identity fields and the drained events.
pub struct Envelope {
    pub token: Seq<char>,
    pub installation_id: Option<Seq<char>>,
    pub app_version: Option<Seq<char>>,
    pub os_name: Seq<char>,
    pub os_version: Option<Seq<char>>,
    pub architecture: Seq<char>,
    pub release_channel: Option<Seq<char>>,
    pub events: Seq<QueuedEvent>,
}

impl TelemetryState {
    /// The state at process start: identity as far as it is known, an empty
    /// queue, no timer.
    pub open spec fn initial(
        os_name: Seq<char>,
        os_version: Option<Seq<char>>,
        architecture: Seq<char>,
        app_version: Option<Seq<char>>,
        release_channel: Option<Seq<char>>,
        profile: BuildProfile,
    ) -> TelemetryState {
        TelemetryState {
            metrics_id: None,
            installation_id: None,
            app_version,
            release_channel,
            os_name,
            os_version,
            architecture,
            queue: Seq::empty(),
            armed_at: None,
            log_file: None,
            is_staff: None,
            profile,
        }
    }

    /// What every reachable state satisfies: a timer is pending exactly while
    /// an installation id is known and events wait, and once the id is known
    /// the queue stays below the limit.
    pub open spec fn wf(self) -> bool {
        &&& self.armed_at is Some <==> self.installation_id is Some && self.queue.len() > 0
        &&& self.installation_id is Some ==> self.queue.len() < self.profile.spec_max_queue_len()
    }

    /// Neither events nor a timer are pending.
    pub open spec fn idle(self) -> bool {
        self.queue.len() == 0 && self.armed_at is None
    }

    /// The state after a flush took the whole queue and cleared the timer.
    pub open spec fn drained(self) -> TelemetryState {
        TelemetryState { queue: Seq::empty(), armed_at: None, ..self }
    }

    /// The event as the queue would hold it if it were submitted now.
    pub open spec fn stamped(self, event: EventModel) -> QueuedEvent {
        QueuedEvent { signed_in: self.metrics_id is Some, event }
    }

    /// Whether the queue with one more event reaches the limit while an
    /// installation id is known.
    pub open spec fn at_limit_with_one_more(self) -> bool {
        self.installation_id is Some && self.queue.len() + 1 >= self.profile.spec_max_queue_len()
    }

    /// The state after one admission at time `now`.
    pub open spec fn after_report(self, event: EventModel, enabled: bool, now: nat) -> TelemetryState {
        if !enabled {
            self
        } else if self.installation_id is None {
            TelemetryState { queue: self.queue.push(self.stamped(event)), ..self }
        } else if self.at_limit_with_one_more() {
            self.drained()
        } else {
            TelemetryState {
                queue: self.queue.push(self.stamped(event)),
                armed_at: Some(now),
                ..self
            }
        }
    }

    /// What one admission hands back.
    pub open spec fn report_outcome(self, event: EventModel, enabled: bool) -> Outcome {
        if !enabled {
            Outcome::Discarded
        } else if self.installation_id is None {
            Outcome::Held
        } else if self.at_limit_with_one_more() {
            Outcome::Flushed { batch: self.queue.push(self.stamped(event)) }
        } else {
            Outcome::Debounced { delay: self.profile.spec_debounce_secs() as nat }
        }
    }

    /// The state after the start signal. With an installation id the id is
    /// recorded and whatever waits is flushed. Without one the id is unknown
    /// from now on: the events keep waiting and no timer stays pending.
    pub open spec fn after_start(self, installation_id: Option<Seq<char>>) -> TelemetryState {
        if installation_id is None {
            TelemetryState { installation_id: None, armed_at: None, ..self }
        } else if self.queue.len() > 0 {
            TelemetryState { installation_id, ..self }.drained()
        } else {
            TelemetryState { installation_id, ..self }
        }
    }

    /// The batch that the start signal flushes: the whole queue, if the
    /// signal brings an installation id and any event waits.
    pub open spec fn start_batch(self, installation_id: Option<Seq<char>>) -> Option<
        Seq<QueuedEvent>,
    > {
        if installation_id is Some && self.queue.len() > 0 {
            Some(self.queue)
        } else {
            None
        }
    }

    /// The state after sign-in information arrived.
    pub open spec fn after_user_info(
        self,
        metrics_id: Option<Seq<char>>,
        is_staff: bool,
        enabled: bool,
    ) -> TelemetryState {
        if enabled {
            TelemetryState { metrics_id, is_staff: Some(is_staff), ..self }
        } else {
            self
        }
    }

    /// Whether a flush is due at `now`: an installation id is known, a timer
    /// is pending, and it has run its full delay.
    pub open spec fn debounce_due(self, now: nat) -> bool {
        &&& self.installation_id is Some
        &&& self.armed_at matches Some(armed)
        &&& now >= armed + self.profile.spec_debounce_secs()
    }

    /// The state after a timer woke at `now`: a flush if one is due, no
    /// change if the waker was superseded or no installation id is known.
    pub open spec fn after_debounce(self, now: nat) -> TelemetryState {
        if self.debounce_due(now) {
            self.drained()
        } else {
            self
        }
    }

    /// The batch that a timer waking at `now` flushes.
    pub open spec fn debounce_batch(self, now: nat) -> Option<Seq<QueuedEvent>> {
        if self.debounce_due(now) {
            Some(self.queue)
        } else {
            None
        }
    }

    /// The state after the log mirror was set or removed.
    pub open spec fn with_log_file(self, log_file: Option<Seq<char>>) -> TelemetryState {
        TelemetryState { log_file, ..self }
    }

    /// The payload for a drained batch, with the identity as it stands now.
    pub open spec fn envelope(self, token: Seq<char>, events: Seq<QueuedEvent>) -> Envelope {
        Envelope {
            token,
            installation_id: self.installation_id,
            app_version: self.app_version,
            os_name: self.os_name,
            os_version: self.os_version,
            architecture: self.architecture,
            release_channel: self.release_channel,
            events,
        }
    }
}

} // verus!
