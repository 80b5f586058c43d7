//! What the display keeps of playback between polls, and how it merges each
//! delivered outcome.
use crate::poller::{is_step, PollAction, PollEvent, PollPhase};
use crate::state::{is_snapshot_of, spec_check, Playback, State, StateError, StateResult};
use vstd::prelude::*;

verus! {

/// Progress extrapolated from snapshot `s` to time `now_ms`: the progress
/// reported plus the time since the snapshot (none if `now_ms` is earlier),
/// not bounded by the track's duration.
pub open spec fn spec_progress_at(s: State, now_ms: u64) -> int {
    s.progress_ms + if now_ms >= s.refreshed_at_ms {
        now_ms - s.refreshed_at_ms
    } else {
        0int
    }
}

/// The snapshot on display after merging `message` into `shown`.
pub open spec fn spec_merge(shown: State, message: Option<StateResult<State>>) -> State {
    match message {
        Some(Ok(s)) => s,
        _ => shown,
    }
}

/// The playback snapshot on display.
pub struct NowPlaying {
    pub state: State,
}

impl NowPlaying {
    /// A display with nothing played yet: the default snapshot.
    pub fn new() -> (r: NowPlaying)
        ensures
            r.state.progress_ms == 0,
            r.state.duration_ms == 0,
            r.state.track@ == Seq::<char>::empty(),
            r.state.artists@ == Seq::<String>::empty(),
    {
        NowPlaying { state: State::default() }
    }

    /// Merges what one non-blocking receive gave: a new snapshot replaces the
    /// one on display whole; nothing, or a failed poll, leaves it as it was.
    /// A failure is handed back for logging.
    pub fn receive(&mut self, message: Option<StateResult<State>>) -> (r: Option<StateError>)
        ensures
            final(self).state == spec_merge(old(self).state, message),
            match message {
                Some(Err(e)) => r == Some(e),
                _ => r is None,
            },
    {
        match message {
            Some(Ok(s)) => {
                self.state = s;
                None
            },
            Some(Err(e)) => Some(e),
            None => None,
        }
    }

    /// The progress to show at time `now_ms` (milliseconds of the clock the
    /// snapshots were stamped with), saturated at the largest `i64`.
    pub fn progress_at(&self, now_ms: u64) -> (r: i64)
        ensures
            spec_progress_at(self.state, now_ms) <= i64::MAX ==> r == spec_progress_at(
                self.state,
                now_ms,
            ),
            spec_progress_at(self.state, now_ms) > i64::MAX ==> r == i64::MAX,
    {
        let elapsed: u64 = if now_ms >= self.state.refreshed_at_ms {
            now_ms - self.state.refreshed_at_ms
        } else {
            0
        };
        let total: i128 = self.state.progress_ms as i128 + elapsed as i128;
        if total > i64::MAX as i128 {
            i64::MAX
        } else {
            total as i64
        }
    }
}

/// When the provider reports that nothing is playing, the poller delivers
/// exactly that outcome, and merging it leaves whatever was on display as it
/// was.
pub proof fn lemma_no_playback_keeps_display(
    after: PollPhase,
    action: PollAction,
    shown: State,
)
    requires
        is_step(PollPhase::Fetching, PollEvent::Playback(Ok(None)), after, action),
    ensures
        action matches PollAction::Deliver(Err(StateError::NoContext)),
        after is Delivering,
        spec_merge(shown, Some(action->Deliver_0)) == shown,
{
}

/// A complete playback answer, once delivered and merged, is on display
/// field for field as the provider gave it, and its progress runs on with
/// the time since the snapshot was taken.
pub proof fn lemma_delivered_snapshot_shown(
    p: Playback,
    liked: Vec<bool>,
    at: u64,
    after: PollPhase,
    action: PollAction,
    shown: State,
    elapsed: u64,
)
    requires
        spec_check(Some(p)) is Ok,
        liked@.len() > 0,
        is_step(PollPhase::CheckingLiked(p), PollEvent::Liked(Ok(liked), at), after, action),
        at + elapsed <= u64::MAX,
    ensures
        action is Deliver,
        is_snapshot_of(spec_merge(shown, Some(action->Deliver_0)), p, liked@[0], at),
        spec_progress_at(spec_merge(shown, Some(action->Deliver_0)), (at + elapsed) as u64)
            == p.progress_ms->Some_0 + elapsed,
{
}

} // verus!
