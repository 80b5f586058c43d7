//! Playback state: what one poll of the playback provider yields, the
//! polling machine that paces queries and deliveries, and what the display
//! does with each delivered outcome.
use vstd::prelude::*;

verus! {

/// Milliseconds between the end of one delivery and the next query.
pub const REFRESH_RATE_MS: u64 = 5000;

#[derive(PartialEq, Eq, Structural, Clone, Copy, Debug)]
pub enum RepeatState {
    Off,
    Context,
    Track,
}

/// Why a poll produced no playback snapshot.
#[derive(Clone, Debug)]
pub enum StateError {
    /// The provider failed (transport or authorization); its message.
    Client(String),
    /// Nothing is playing at the moment.
    NoContext,
    /// The provider reported playback without the fields a snapshot needs.
    MissingState,
}

pub type StateResult<T> = Result<T, StateError>;

/// A track as the provider describes it.
#[derive(Clone, Debug)]
pub struct TrackInfo {
    pub id: Option<String>,
    pub name: String,
    pub album: String,
    pub artists: Vec<String>,
    /// Cover art locations, preferred first.
    pub images: Vec<String>,
    pub duration_ms: i64,
}

/// The provider's answer about current playback, when something is active.
#[derive(Clone, Debug)]
pub struct Playback {
    pub progress_ms: Option<i64>,
    /// The playing item, when it is a track.
    pub item: Option<TrackInfo>,
    pub shuffle_state: bool,
    pub repeat_state: RepeatState,
}

/// One snapshot of playback, made by one successful poll.
#[derive(Clone, Debug)]
pub struct State {
    pub liked: bool,
    pub shuffled: bool,
    pub repeat_state: RepeatState,
    pub progress_ms: i64,
    pub duration_ms: i64,
    /// When the snapshot was taken, in milliseconds of the display's clock.
    pub refreshed_at_ms: u64,
    pub track: String,
    pub album: String,
    pub artists: Vec<String>,
    pub cover_art_url: String,
}

impl Default for State {
    fn default() -> (r: State)
        ensures
            !r.liked,
            !r.shuffled,
            r.repeat_state == RepeatState::Off,
            r.progress_ms == 0,
            r.duration_ms == 0,
            r.refreshed_at_ms == 0,
            r.track@ == Seq::<char>::empty(),
            r.album@ == Seq::<char>::empty(),
            r.artists@ == Seq::<String>::empty(),
            r.cover_art_url@ == Seq::<char>::empty(),
    {
        State {
            liked: false,
            shuffled: false,
            repeat_state: RepeatState::Off,
            progress_ms: 0,
            duration_ms: 0,
            refreshed_at_ms: 0,
            track: String::new(),
            album: String::new(),
            artists: Vec::new(),
            cover_art_url: String::new(),
        }
    }
}

/// The outcome owed for a provider answer, before the liked check: `Ok` with
/// the track to check when the answer is complete.
pub open spec fn spec_check(current: Option<Playback>) -> Result<String, StateError> {
    match current {
        None => Err(StateError::NoContext),
        Some(p) => match (p.progress_ms, p.item) {
            (Some(_), Some(t)) => match t.id {
                Some(id) => Ok(id),
                None => Err(StateError::MissingState),
            },
            _ => Err(StateError::MissingState),
        },
    }
}

/// The track whose liked flag must be queried for `current`, or why no
/// snapshot can be made of it.
pub fn track_to_check(current: &Option<Playback>) -> (r: StateResult<String>)
    ensures
        r matches Ok(id) ==> spec_check(*current) matches Ok(sid) && id@ == sid@,
        r matches Err(StateError::NoContext) <==> spec_check(*current) matches Err(StateError::NoContext),
        r matches Err(StateError::MissingState) <==> spec_check(*current) matches Err(StateError::MissingState),
        !(r matches Err(StateError::Client(_))),
{
    match current {
        None => Err(StateError::NoContext),
        Some(p) => match (&p.progress_ms, &p.item) {
            (Some(_), Some(t)) => match &t.id {
                Some(id) => Ok(id.clone()),
                None => Err(StateError::MissingState),
            },
            _ => Err(StateError::MissingState),
        },
    }
}

/// `s` is the snapshot of playback `p` with the given liked flag, taken at
/// `at`: every field comes from the provider's answer as it is.
pub open spec fn is_snapshot_of(s: State, p: Playback, liked: bool, at: u64) -> bool {
    let t = p.item->Some_0;
    &&& s.liked == liked
    &&& s.shuffled == p.shuffle_state
    &&& s.repeat_state == p.repeat_state
    &&& s.progress_ms == p.progress_ms->Some_0
    &&& s.duration_ms == t.duration_ms
    &&& s.refreshed_at_ms == at
    &&& s.track == t.name
    &&& s.album == t.album
    &&& s.artists == t.artists
    &&& s.cover_art_url@ == (if t.images@.len() > 0 {
        t.images@[0]@
    } else {
        Seq::<char>::empty()
    })
}

/// `r` is the outcome owed for the provider's answer `current` and the
/// answer `liked` to the liked query, at time `at`.
pub open spec fn is_outcome_of(
    current: Option<Playback>,
    liked: Seq<bool>,
    at: u64,
    r: StateResult<State>,
) -> bool {
    match spec_check(current) {
        Err(StateError::NoContext) => r matches Err(StateError::NoContext),
        Err(_) => r matches Err(StateError::MissingState),
        Ok(_) => if liked.len() == 0 {
            r matches Err(StateError::MissingState)
        } else {
            r matches Ok(s) && is_snapshot_of(s, current->Some_0, liked[0], at)
        },
    }
}

/// The outcome of one poll from the provider's answers: the playback
/// answer and the answer to "is this track liked" (its first entry).
pub fn state_from(current: Option<Playback>, liked: &Vec<bool>, refreshed_at_ms: u64) -> (r:
    StateResult<State>)
    ensures
        is_outcome_of(current, liked@, refreshed_at_ms, r),
{
    match current {
        None => Err(StateError::NoContext),
        Some(p) => match (p.progress_ms, p.item) {
            (Some(progress), Some(t)) => {
                if t.id.is_none() || liked.len() == 0 {
                    return Err(StateError::MissingState);
                }
                let cover_art_url = if t.images.len() > 0 {
                    t.images[0].clone()
                } else {
                    String::new()
                };
                Ok(
                    State {
                        liked: liked[0],
                        shuffled: p.shuffle_state,
                        repeat_state: p.repeat_state,
                        progress_ms: progress,
                        duration_ms: t.duration_ms,
                        refreshed_at_ms,
                        track: t.name,
                        album: t.album,
                        artists: t.artists,
                        cover_art_url,
                    },
                )
            },
            _ => Err(StateError::MissingState),
        },
    }
}

} // verus!
