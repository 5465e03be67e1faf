//! The state container: identity, the event queue and the pending debounce
//! timer, with the operations that admit and flush events.
//!
//! The container does no I/O and starts no task. Each operation says in its
//! result what the caller must do next: deliver a batch, or wake the
//! container again after a delay.
//!
//! Time is a count of whole seconds on a clock of the caller's choosing.

use crate::event::{
    events_of, label_of, lemma_events_of_empty, lemma_events_of_push, text_of, ClickhouseEvent,
    ClickhouseEventWrapper,
};
use crate::delivery::Progress;
use crate::model::{Outcome, TelemetryState};
use crate::policy::BuildProfile;
use crate::wire::ClickhouseEventRequestBody;
use vstd::prelude::*;

verus! {

/// The opt-in switches that a caller reads from its settings at call time.
#[derive(Clone, Copy, Debug, PartialEq, Eq, Structural)]
pub struct TelemetrySettings {
    pub metrics: bool,
}

/// What an admission asks of the caller.
#[derive(Debug, PartialEq, Eq)]
pub enum Admission {
    /// Telemetry was off: the event is gone and nothing changed.
    Discarded,
    /// The event waits for an installation id; nothing to do.
    Held,
    /// Wake the container after `delay_secs` seconds. Earlier wake-ups that
    /// are still on their way no longer count.
    Debounced { delay_secs: u64 },
    /// Deliver this batch now.
    Flushed { batch: Vec<ClickhouseEventWrapper> },
}

impl View for Admission {
    type V = Outcome;

    open spec fn view(&self) -> Outcome {
        match *self {
            Admission::Discarded => Outcome::Discarded,
            Admission::Held => Outcome::Held,
            Admission::Debounced { delay_secs } => Outcome::Debounced { delay: delay_secs as nat },
            Admission::Flushed { batch } => Outcome::Flushed { batch: events_of(batch@) },
        }
    }
}

/// The state container.
pub struct Telemetry {
    metrics_id: Option<String>,
    installation_id: Option<String>,
    app_version: Option<String>,
    release_channel: Option<&'static str>,
    os_name: &'static str,
    os_version: Option<String>,
    architecture: &'static str,
    clickhouse_events_queue: Vec<ClickhouseEventWrapper>,
    flush_clickhouse_events_task: Option<u64>,
    log_file: Option<String>,
    is_staff: Option<bool>,
    profile: BuildProfile,
}

/// A copy of an optional string.
fn copy_of(value: &Option<String>) -> (copy: Option<String>)
    ensures
        copy == *value,
{
    match value {
        Some(text) => Some(text.clone()),
        None => None,
    }
}

impl View for Telemetry {
    type V = TelemetryState;

    closed spec fn view(&self) -> TelemetryState {
        TelemetryState {
            metrics_id: text_of(self.metrics_id),
            installation_id: text_of(self.installation_id),
            app_version: text_of(self.app_version),
            release_channel: label_of(self.release_channel),
            os_name: self.os_name@,
            os_version: text_of(self.os_version),
            architecture: self.architecture@,
            queue: events_of(self.clickhouse_events_queue@),
            armed_at: match self.flush_clickhouse_events_task {
                Some(armed) => Some(armed as nat),
                None => None,
            },
            log_file: text_of(self.log_file),
            is_staff: self.is_staff,
            profile: self.profile,
        }
    }
}

impl Telemetry {
    /// A container with the identity known at process start, no installation
    /// id, no signed-in user, an empty queue and no timer.
    pub fn new(
        os_name: &'static str,
        os_version: Option<String>,
        architecture: &'static str,
        app_version: Option<String>,
        release_channel: Option<&'static str>,
        profile: BuildProfile,
    ) -> (telemetry: Telemetry)
        ensures
            telemetry@ == TelemetryState::initial(
                os_name@,
                text_of(os_version),
                architecture@,
                text_of(app_version),
                label_of(release_channel),
                profile,
            ),
            telemetry@.wf(),
    {
        proof {
            lemma_events_of_empty();
        }
        Telemetry {
            metrics_id: None,
            installation_id: None,
            app_version,
            release_channel,
            os_name,
            os_version,
            architecture,
            clickhouse_events_queue: Vec::new(),
            flush_clickhouse_events_task: None,
            log_file: None,
            is_staff: None,
            profile,
        }
    }

    /// The path of the log mirror, if one is set.
    pub fn log_file_path(&self) -> (path: Option<String>)
        ensures
            text_of(path) == self@.log_file,
    {
        copy_of(&self.log_file)
    }

    /// Sets or removes the log mirror. Nothing else changes.
    pub fn set_log_file(&mut self, path: Option<String>)
        ensures
            final(self)@ == old(self)@.with_log_file(text_of(path)),
            old(self)@.wf() ==> final(self)@.wf(),
    {
        self.log_file = path;
    }

    /// Takes the whole queue and clears the pending timer. The events come
    /// out in the order in which they were admitted.
    pub fn flush_clickhouse_events(&mut self) -> (batch: Vec<ClickhouseEventWrapper>)
        ensures
            events_of(batch@) == old(self)@.queue,
            final(self)@ == old(self)@.drained(),
            final(self)@.idle(),
            old(self)@.wf() ==> final(self)@.wf(),
    {
        let mut batch: Vec<ClickhouseEventWrapper> = Vec::new();
        std::mem::swap(&mut batch, &mut self.clickhouse_events_queue);
        self.flush_clickhouse_events_task = None;
        proof {
            lemma_events_of_empty();
        }
        batch
    }

    /// The start signal. With an installation id, the id is recorded and, if
    /// any event waits, the whole queue is flushed at once, however long it
    /// is. Without one, the id is unknown from now on: nothing is handed out,
    /// the events keep waiting, and a pending timer is dropped.
    pub fn start(&mut self, installation_id: Option<String>) -> (batch: Option<Vec<ClickhouseEventWrapper>>)
        ensures
            final(self)@ == old(self)@.after_start(text_of(installation_id)),
            batch is Some <==> installation_id is Some && old(self)@.queue.len() > 0,
            batch matches Some(events) ==> events_of(events@) == old(self)@.queue,
            batch is Some ==> final(self)@.idle() && final(self)@.installation_id is Some,
            installation_id is None ==> final(self)@.queue == old(self)@.queue
                && final(self)@.armed_at is None,
            old(self)@.wf() ==> final(self)@.wf() && final(self)@.armed_at is None,
    {
        let known = installation_id.is_some();
        self.installation_id = installation_id;
        if !known {
            self.flush_clickhouse_events_task = None;
            None
        } else if self.clickhouse_events_queue.len() > 0 {
            Some(self.flush_clickhouse_events())
        } else {
            None
        }
    }

    /// Records who is signed in. With metrics switched off the call changes
    /// nothing.
    pub fn set_authenticated_user_info(
        &mut self,
        metrics_id: Option<String>,
        is_staff: bool,
        telemetry_settings: TelemetrySettings,
    )
        ensures
            final(self)@ == old(self)@.after_user_info(
                text_of(metrics_id),
                is_staff,
                telemetry_settings.metrics,
            ),
            old(self)@.wf() ==> final(self)@.wf(),
    {
        if !telemetry_settings.metrics {
            return ;
        }
        self.metrics_id = metrics_id;
        self.is_staff = Some(is_staff);
    }

    /// Admits one event at time `now`.
    ///
    /// With metrics switched off the event is discarded. Otherwise it joins
    /// the queue, stamped with the sign-in state of this moment. While no
    /// installation id is known that is all. Once the queue reaches the
    /// profile's limit it is drained into the returned batch and the timer is
    /// cleared. Below the limit the timer is armed anew at `now`, replacing
    /// any earlier one.
    pub fn report_clickhouse_event(
        &mut self,
        event: ClickhouseEvent,
        telemetry_settings: TelemetrySettings,
        now: u64,
    ) -> (admission: Admission)
        ensures
            final(self)@ == old(self)@.after_report(event@, telemetry_settings.metrics, now as nat),
            admission@ == old(self)@.report_outcome(event@, telemetry_settings.metrics),
            !telemetry_settings.metrics ==> final(self)@ == old(self)@,
            admission is Flushed ==> final(self)@.idle() && final(self)@.installation_id is Some,
            old(self)@.wf() ==> final(self)@.wf(),
    {
        if !telemetry_settings.metrics {
            return Admission::Discarded;
        }
        let signed_in = self.metrics_id.is_some();
        let wrapper = ClickhouseEventWrapper { signed_in, event };
        proof {
            lemma_events_of_push(self.clickhouse_events_queue@, wrapper);
        }
        self.clickhouse_events_queue.push(wrapper);

        if self.installation_id.is_some() {
            if self.clickhouse_events_queue.len() >= self.profile.max_queue_len() {
                Admission::Flushed { batch: self.flush_clickhouse_events() }
            } else {
                self.flush_clickhouse_events_task = Some(now);
                Admission::Debounced { delay_secs: self.profile.debounce_secs() }
            }
        } else {
            Admission::Held
        }
    }

    /// A debounce timer woke at time `now`. If an installation id is known
    /// and the pending timer has run its full delay, the whole queue is
    /// flushed; a waker that was superseded, or that comes after a flush or
    /// while no id is known, changes nothing.
    pub fn debounce_elapsed(&mut self, now: u64) -> (batch: Option<Vec<ClickhouseEventWrapper>>)
        ensures
            final(self)@ == old(self)@.after_debounce(now as nat),
            batch is Some <==> old(self)@.debounce_due(now as nat),
            batch matches Some(events) ==> events_of(events@) == old(self)@.queue,
            batch is Some ==> final(self)@.idle() && final(self)@.installation_id is Some,
            old(self)@.wf() ==> final(self)@.wf(),
    {
        if self.installation_id.is_none() {
            return None;
        }
        match self.flush_clickhouse_events_task {
            Some(armed) => {
                if now >= armed && now - armed >= self.profile.debounce_secs() {
                    Some(self.flush_clickhouse_events())
                } else {
                    None
                }
            },
            None => None,
        }
    }

    /// The first report of a delivery: whether this flush is mirrored to the
    /// log is decided here, by whether a log mirror is set at this moment.
    pub fn begin_delivery(&self) -> (progress: Progress)
        ensures
            progress == (Progress::Begun { mirror: self@.log_file is Some }),
    {
        Progress::Begun { mirror: self.log_file.is_some() }
    }

    /// The request body for a drained batch: the identity as it stands at
    /// this moment, the caller's token, and the events in their order.
    pub fn request_body(
        &self,
        token: &'static str,
        events: Vec<ClickhouseEventWrapper>,
    ) -> (body: ClickhouseEventRequestBody)
        ensures
            body@ == self@.envelope(token@, events_of(events@)),
            body.events == events,
    {
        ClickhouseEventRequestBody {
            token,
            installation_id: copy_of(&self.installation_id),
            app_version: copy_of(&self.app_version),
            os_name: self.os_name,
            os_version: copy_of(&self.os_version),
            architecture: self.architecture,
            release_channel: self.release_channel,
            events,
        }
    }

    /// The metrics id of the signed-in user, if any.
    pub fn metrics_id(&self) -> (id: Option<String>)
        ensures
            text_of(id) == self@.metrics_id,
    {
        copy_of(&self.metrics_id)
    }

    /// The installation id, once the start signal has delivered one.
    pub fn installation_id(&self) -> (id: Option<String>)
        ensures
            text_of(id) == self@.installation_id,
    {
        copy_of(&self.installation_id)
    }

    /// Whether the signed-in user is staff, once known.
    pub fn is_staff(&self) -> (staff: Option<bool>)
        ensures
            staff == self@.is_staff,
    {
        self.is_staff
    }

    /// The build profile that fixes the queue limit and the debounce delay.
    pub fn profile(&self) -> (profile: BuildProfile)
        ensures
            profile == self@.profile,
    {
        self.profile
    }

    /// The events that wait, oldest first.
    pub fn queued_events(&self) -> (queue: &Vec<ClickhouseEventWrapper>)
        ensures
            events_of(queue@) == self@.queue,
    {
        &self.clickhouse_events_queue
    }

    /// The time at which the pending debounce timer was armed, if one is
    /// pending.
    pub fn flush_armed_at(&self) -> (armed: Option<u64>)
        ensures
            armed is Some <==> self@.armed_at is Some,
            armed matches Some(at) ==> self@.armed_at == Some(at as nat),
    {
        self.flush_clickhouse_events_task
    }
}

} // verus!
