//! The decisions of the playback poller, as a state machine. The caller
//! performs each action (a provider query, a delivery into a one-slot
//! channel, a sleep) and hands back what came of it as the next event.
use crate::state::{
    is_outcome_of, spec_check, state_from, track_to_check, Playback, StateError, StateResult,
    State, REFRESH_RATE_MS,
};
use vstd::prelude::*;

verus! {

/// Where the poller stands.
#[derive(Clone, Debug)]
pub enum PollPhase {
    /// Waiting for the next tick of the cadence.
    Sleeping,
    /// Waiting for the provider's answer about current playback.
    Fetching,
    /// Waiting for the answer to whether the playing track is liked.
    CheckingLiked(Playback),
    /// Waiting for the consumer to take the delivered outcome.
    Delivering,
    /// The consumer has gone away; nothing more happens.
    Stopped,
}

/// What came of the last action.
#[derive(Debug)]
pub enum PollEvent {
    /// The cadence has elapsed (also the first event of all).
    Tick,
    /// The provider's answer about current playback, or its failure message.
    Playback(Result<Option<Playback>, String>),
    /// The answer to the liked query, or its failure message, with the time
    /// (in milliseconds of the display's clock) at which it came.
    Liked(Result<Vec<bool>, String>, u64),
    /// The consumer has taken the delivered outcome.
    Delivered,
    /// Delivery failed for good: the consumer has gone away.
    ReceiverGone,
}

/// What the caller is to do next.
#[derive(Debug)]
pub enum PollAction {
    /// Ask the provider for current playback.
    FetchPlayback,
    /// Ask the provider whether the track with this id is liked.
    CheckLiked(String),
    /// Hand this outcome to the consumer, waiting until the slot is free.
    Deliver(StateResult<State>),
    /// Sleep this many milliseconds, then report a tick.
    Sleep(u64),
    /// End the loop.
    Stop,
    /// The event does not apply in this phase: keep waiting for the awaited one.
    Wait,
}

/// One step of the poller: in phase `before`, `event` leads to phase `after`
/// and to `action`.
pub open spec fn is_step(before: PollPhase, event: PollEvent, after: PollPhase, action: PollAction) -> bool {
    match (before, event) {
        (PollPhase::Sleeping, PollEvent::Tick) => after is Fetching && action is FetchPlayback,
        (PollPhase::Fetching, PollEvent::Playback(Err(m))) => after is Delivering && action
            == PollAction::Deliver(Err(StateError::Client(m))),
        (PollPhase::Fetching, PollEvent::Playback(Ok(current))) => match spec_check(current) {
            Ok(id) => after == PollPhase::CheckingLiked(current->Some_0) && action
                is CheckLiked && action->CheckLiked_0@ == id@,
            Err(e) => after is Delivering && action == PollAction::Deliver(Err(e)),
        },
        (PollPhase::CheckingLiked(p), PollEvent::Liked(Err(m), _)) => after is Delivering
            && action == PollAction::Deliver(Err(StateError::Client(m))),
        (PollPhase::CheckingLiked(p), PollEvent::Liked(Ok(liked), at)) => after is Delivering
            && action is Deliver && is_outcome_of(Some(p), liked@, at, action->Deliver_0),
        (PollPhase::Delivering, PollEvent::Delivered) => after is Sleeping && action
            == PollAction::Sleep(REFRESH_RATE_MS),
        (PollPhase::Delivering, PollEvent::ReceiverGone) => after is Stopped && action is Stop,
        (b, _) => after == b && action is Wait,
    }
}

/// The polling machine: query, deliver, sleep, repeat, until the consumer
/// goes away.
pub struct Poller {
    pub phase: PollPhase,
}

impl Poller {
    /// A poller waiting for its first tick.
    pub fn new() -> (r: Poller)
        ensures
            r.phase is Sleeping,
    {
        Poller { phase: PollPhase::Sleeping }
    }

    /// Takes one event and gives the next phase and the action to perform.
    pub fn step(self, event: PollEvent) -> (r: (Poller, PollAction))
        ensures
            is_step(self.phase, event, r.0.phase, r.1),
    {
        match (self.phase, event) {
            (PollPhase::Sleeping, PollEvent::Tick) => (
                Poller { phase: PollPhase::Fetching },
                PollAction::FetchPlayback,
            ),
            (PollPhase::Fetching, PollEvent::Playback(Err(m))) => (
                Poller { phase: PollPhase::Delivering },
                PollAction::Deliver(Err(StateError::Client(m))),
            ),
            (PollPhase::Fetching, PollEvent::Playback(Ok(current))) => {
                match track_to_check(&current) {
                    Ok(id) => {
                        let p = current.unwrap();
                        (Poller { phase: PollPhase::CheckingLiked(p) }, PollAction::CheckLiked(id))
                    },
                    Err(e) => (Poller { phase: PollPhase::Delivering }, PollAction::Deliver(Err(e))),
                }
            },
            (PollPhase::CheckingLiked(p), PollEvent::Liked(Err(m), _)) => (
                Poller { phase: PollPhase::Delivering },
                PollAction::Deliver(Err(StateError::Client(m))),
            ),
            (PollPhase::CheckingLiked(p), PollEvent::Liked(Ok(liked), at)) => {
                let outcome = state_from(Some(p), &liked, at);
                (Poller { phase: PollPhase::Delivering }, PollAction::Deliver(outcome))
            },
            (PollPhase::Delivering, PollEvent::Delivered) => (
                Poller { phase: PollPhase::Sleeping },
                PollAction::Sleep(REFRESH_RATE_MS),
            ),
            (PollPhase::Delivering, PollEvent::ReceiverGone) => (
                Poller { phase: PollPhase::Stopped },
                PollAction::Stop,
            ),
            (b, _) => (Poller { phase: b }, PollAction::Wait),
        }
    }
}

/// `event` is what performing `action` yields.
pub open spec fn answers(action: PollAction, event: PollEvent) -> bool {
    match action {
        PollAction::FetchPlayback => event is Playback,
        PollAction::CheckLiked(_) => event is Liked,
        PollAction::Deliver(_) => event is Delivered || event is ReceiverGone,
        PollAction::Sleep(_) => event is Tick,
        _ => false,
    }
}

/// A caller that answers every action with what performing it yields never
/// sees the poller wait: each step asks for a new action, until it stops.
pub proof fn lemma_answered_actions_never_wait(
    before: PollPhase,
    e1: PollEvent,
    mid: PollPhase,
    a1: PollAction,
    e2: PollEvent,
    after: PollPhase,
    a2: PollAction,
)
    requires
        is_step(before, e1, mid, a1),
        answers(a1, e2),
        is_step(mid, e2, after, a2),
    ensures
        !(a2 is Wait),
{
}

/// Backpressure: while an outcome waits in the slot, no event but the
/// consumer taking it starts another query or another delivery. The poller
/// stays where it is, or stops if the consumer has gone away.
pub proof fn lemma_no_second_delivery(event: PollEvent, after: PollPhase, action: PollAction)
    requires
        is_step(PollPhase::Delivering, event, after, action),
        !(event is Delivered),
    ensures
        !(action is FetchPlayback),
        !(action is CheckLiked),
        !(action is Deliver),
        after is Delivering || after is Stopped,
{
}

/// Outcomes reach the consumer one cycle at a time: after a delivery, the
/// next query starts only after the consumer has taken it and the poller has
/// slept for the cadence.
pub proof fn lemma_delivery_then_sleep(event: PollEvent, after: PollPhase, action: PollAction)
    requires
        is_step(PollPhase::Delivering, event, after, action),
        event is Delivered,
    ensures
        after is Sleeping,
        action == PollAction::Sleep(REFRESH_RATE_MS),
{
}

} // verus!
