//! Events as producers submit them, and as the queue holds them.

use vstd::prelude::*;

verus! {

/// What an optional string holds, as an optional sequence of characters.
pub open spec fn text_of(value: Option<String>) -> Option<Seq<char>> {
    match value {
        Some(text) => Some(text@),
        None => None,
    }
}

/// What an optional string slice holds, as an optional sequence of characters.
pub open spec fn label_of(value: Option<&'static str>) -> Option<Seq<char>> {
    match value {
        Some(text) => Some(text@),
        None => None,
    }
}

/// One usage event. The set of variants is closed, and an event never changes
/// once it is made.
#[derive(Clone, Debug, PartialEq, Eq)]
pub enum ClickhouseEvent {
    Editor {
        operation: &'static str,
        file_extension: Option<String>,
        vim_mode: bool,
        copilot_enabled: bool,
        copilot_enabled_for_language: bool,
    },
    Copilot {
        suggestion_id: Option<String>,
        suggestion_accepted: bool,
        file_extension: Option<String>,
    },
}

/// The mathematical value of a [`ClickhouseEvent`].
pub enum EventModel {
    Editor {
        operation: Seq<char>,
        file_extension: Option<Seq<char>>,
        vim_mode: bool,
        copilot_enabled: bool,
        copilot_enabled_for_language: bool,
    },
    Copilot {
        suggestion_id: Option<Seq<char>>,
        suggestion_accepted: bool,
        file_extension: Option<Seq<char>>,
    },
}

impl View for ClickhouseEvent {
    type V = EventModel;

    open spec fn view(&self) -> EventModel {
        match *self {
            ClickhouseEvent::Editor {
                operation,
                file_extension,
                vim_mode,
                copilot_enabled,
                copilot_enabled_for_language,
            } => EventModel::Editor {
                operation: operation@,
                file_extension: text_of(file_extension),
                vim_mode,
                copilot_enabled,
                copilot_enabled_for_language,
            },
            ClickhouseEvent::Copilot {
                suggestion_id,
                suggestion_accepted,
                file_extension,
            } => EventModel::Copilot {
                suggestion_id: text_of(suggestion_id),
                suggestion_accepted,
                file_extension: text_of(file_extension),
            },
        }
    }
}

/// An event together with the sign-in state that held when it was submitted.
/// The flag is taken at submission and never recomputed.
#[derive(Clone, Debug, PartialEq, Eq)]
pub struct ClickhouseEventWrapper {
    pub signed_in: bool,
    pub event: ClickhouseEvent,
}

/// The mathematical value of a [`ClickhouseEventWrapper`].
pub struct QueuedEvent {
    pub signed_in: bool,
    pub event: EventModel,
}

impl View for ClickhouseEventWrapper {
    type V = QueuedEvent;

    open spec fn view(&self) -> QueuedEvent {
        QueuedEvent { signed_in: self.signed_in, event: self.event@ }
    }
}

/// The mathematical value of a run of queued events, in queue order.
pub open spec fn events_of(queue: Seq<ClickhouseEventWrapper>) -> Seq<QueuedEvent> {
    Seq::new(queue.len(), |i: int| queue[i]@)
}

/// Appending to a queue appends the same event to its mathematical value.
pub proof fn lemma_events_of_push(queue: Seq<ClickhouseEventWrapper>, item: ClickhouseEventWrapper)
    ensures
        events_of(queue.push(item)) == events_of(queue).push(item@),
{
    assert(events_of(queue.push(item)) =~= events_of(queue).push(item@));
}

/// The empty queue has the empty sequence as its value.
pub proof fn lemma_events_of_empty()
    ensures
        events_of(Seq::<ClickhouseEventWrapper>::empty()) == Seq::<QueuedEvent>::empty(),
{
    assert(events_of(Seq::<ClickhouseEventWrapper>::empty()) =~= Seq::<QueuedEvent>::empty());
}

} // verus!
