//! The canonical playback state, the change detector that alone writes it, and
//! the read-only queries on it.
//!
//! Instants are milliseconds on a clock of the caller's choosing. The state
//! only ever stores them and subtracts them.

use crate::track::{
    identity_of, normalized, paused_of, radio_identity, radio_mix_view, tick_of, viewed,
    IdentityView, ProviderResult, ProviderTick, RawTrackView, TickView, TrackIdentity, TrackInfo,
    TrackInfoView, UNKNOWN,
};
use vstd::prelude::*;

verus! {

/// The time from one poll of the player to the next.
pub const POLL_INTERVAL_MS: u64 = 1000;

/// A change of the playback state that subscribers are told about.
#[derive(Debug, PartialEq, Eq)]
pub enum ChangeEvent {
    /// Playback started, or went on to another song. Holds the new snapshot.
    Playing(TrackInfo),
    /// Playback stopped. Holds the last snapshot with nothing played and the
    /// paused duration.
    Paused(TrackInfo),
}

/// A [`ChangeEvent`] as contracts see it.
pub enum EventView {
    Playing(TrackInfoView),
    Paused(TrackInfoView),
}

impl EventView {
    /// The snapshot that the event carries.
    pub open spec fn track(self) -> TrackInfoView {
        match self {
            EventView::Playing(track) => track,
            EventView::Paused(track) => track,
        }
    }
}

impl View for ChangeEvent {
    type V = EventView;

    open spec fn view(&self) -> EventView {
        match self {
            ChangeEvent::Playing(track) => EventView::Playing(track@),
            ChangeEvent::Paused(track) => EventView::Paused(track@),
        }
    }
}

impl Clone for ChangeEvent {
    fn clone(&self) -> (copy: Self)
        ensures
            copy@ == self@,
    {
        match self {
            ChangeEvent::Playing(track) => ChangeEvent::Playing(track.clone()),
            ChangeEvent::Paused(track) => ChangeEvent::Paused(track.clone()),
        }
    }
}

impl ChangeEvent {
    /// The snapshot that the event carries.
    pub fn track(&self) -> (track: &TrackInfo)
        ensures
            track@ == self@.track(),
    {
        match self {
            ChangeEvent::Playing(track) => track,
            ChangeEvent::Paused(track) => track,
        }
    }

    /// Whether the event says that playback stopped.
    pub fn is_paused(&self) -> (paused: bool)
        ensures
            paused == (self@ is Paused),
    {
        match self {
            ChangeEvent::Playing(_) => false,
            ChangeEvent::Paused(_) => true,
        }
    }
}

/// The playback state of the whole process. There is one of it, made at start
/// and written by the change detector only.
#[derive(Debug)]
pub struct AppState {
    last_snapshot: Option<TrackInfo>,
    last_identity: Option<TrackIdentity>,
    is_playing: bool,
    last_change_time: u64,
    presence_synced: bool,
}

/// An [`AppState`] as contracts see it.
pub struct StateView {
    /// The snapshot written at the last start of a song, if there was one.
    pub last_snapshot: Option<TrackInfoView>,
    /// The identity that new snapshots are compared with.
    pub last_identity: Option<IdentityView>,
    pub is_playing: bool,
    /// The instant of the last tick that changed the state.
    pub last_change_time: nat,
    /// Whether the presence display already shows the current song.
    pub presence_synced: bool,
}

/// What holds of every state: the identity kept is that of the snapshot kept,
/// and while something plays there is a snapshot of it.
pub open spec fn consistent(state: StateView) -> bool {
    &&& state.last_identity == match state.last_snapshot {
        Some(track) => Some(identity_of(track)),
        None => None,
    }
    &&& state.is_playing ==> state.last_snapshot is Some
}

/// The state at start: nothing seen, nothing playing.
pub open spec fn initial_state(now: nat) -> StateView {
    StateView {
        last_snapshot: None,
        last_identity: None,
        is_playing: false,
        last_change_time: now,
        presence_synced: false,
    }
}

/// The snapshot that a tick reports as playing, if it reports any.
pub open spec fn reported(tick: TickView) -> Option<TrackInfoView> {
    match tick {
        TickView::Idle => None,
        TickView::PlayingUnknown => Some(radio_mix_view()),
        TickView::Playing(track) => Some(track),
    }
}

/// Whether a tick changes the state. A tick that reports nothing playing does
/// so while something plays. One that reports a track does so while nothing
/// plays, or while another song plays.
pub open spec fn changes(state: StateView, tick: TickView) -> bool {
    match reported(tick) {
        None => state.is_playing,
        Some(track) => !state.is_playing || state.last_identity != Some(identity_of(track)),
    }
}

/// The state after a tick at the instant `now`.
pub open spec fn next_state(state: StateView, tick: TickView, now: nat) -> StateView {
    if !changes(state, tick) {
        state
    } else {
        match reported(tick) {
            None => StateView { is_playing: false, last_change_time: now, ..state },
            Some(track) => StateView {
                last_snapshot: Some(track),
                last_identity: Some(identity_of(track)),
                is_playing: true,
                last_change_time: now,
                presence_synced: false,
            },
        }
    }
}

/// The event that a tick gives rise to, if any.
pub open spec fn emitted(state: StateView, tick: TickView) -> Option<EventView> {
    if !changes(state, tick) {
        None
    } else {
        match reported(tick) {
            None => match state.last_snapshot {
                Some(last) => Some(EventView::Paused(paused_of(last))),
                None => None,
            },
            Some(track) => Some(EventView::Playing(track)),
        }
    }
}

/// The time between the last tick that changed the state and `now`; zero
/// where `now` is the earlier of the two.
pub open spec fn age_at(state: StateView, now: nat) -> nat {
    if now >= state.last_change_time {
        (now - state.last_change_time) as nat
    } else {
        0
    }
}

/// The state after the presence display was brought up to date for the song
/// `identity`: the flag is raised where that song is still the one playing,
/// and nothing changes where it is not.
pub open spec fn marked_synced(state: StateView, identity: IdentityView) -> StateView {
    if state.is_playing && state.last_identity == Some(identity) {
        StateView { presence_synced: true, ..state }
    } else {
        state
    }
}

/// Whether the presence display already shows the song `identity`.
pub open spec fn shows(state: StateView, identity: IdentityView) -> bool {
    state.is_playing && state.presence_synced && state.last_identity == Some(identity)
}

impl View for AppState {
    type V = StateView;

    closed spec fn view(&self) -> StateView {
        StateView {
            last_snapshot: viewed(self.last_snapshot),
            last_identity: viewed(self.last_identity),
            is_playing: self.is_playing,
            last_change_time: self.last_change_time as nat,
            presence_synced: self.presence_synced,
        }
    }
}

impl AppState {
    #[verifier::type_invariant]
    spec fn well_formed(self) -> bool {
        consistent(self@)
    }

    /// The state at the start of the process, at the instant `now`.
    pub fn new(now: u64) -> (state: AppState)
        ensures
            state@ == initial_state(now as nat),
    {
        AppState {
            last_snapshot: None,
            last_identity: None,
            is_playing: false,
            last_change_time: now,
            presence_synced: false,
        }
    }

    /// The change detector: takes in one tick at the instant `now`, writes the
    /// state where the tick changes it, and hands back the event to publish.
    pub fn apply_tick(&mut self, tick: ProviderTick, now: u64) -> (event: Option<ChangeEvent>)
        ensures
            consistent(old(self)@),
            final(self)@ == next_state(old(self)@, tick@, now as nat),
            viewed(event) == emitted(old(self)@, tick@),
    {
        proof {
            use_type_invariant(&*self);
        }
        match tick {
            ProviderTick::Idle => {
                if !self.is_playing {
                    return None;
                }
                let event = match &self.last_snapshot {
                    Some(last) => Some(ChangeEvent::Paused(last.paused())),
                    None => None,
                };
                self.is_playing = false;
                self.last_change_time = now;
                event
            },
            ProviderTick::PlayingUnknown => self.play(TrackInfo::radio_mix(), now),
            ProviderTick::Playing(track) => self.play(track, now),
        }
    }

    /// One whole poll: turns its outcome into a tick and takes the tick in.
    /// `None` is a poll that failed.
    pub fn observe(&mut self, poll: Option<ProviderResult>, now: u64) -> (event: Option<
        ChangeEvent,
    >)
        ensures
            consistent(old(self)@),
            final(self)@ == next_state(old(self)@, tick_of(poll), now as nat),
            viewed(event) == emitted(old(self)@, tick_of(poll)),
    {
        self.apply_tick(ProviderTick::from_poll(poll), now)
    }

    /// Takes in a snapshot that is playing at the instant `now`.
    fn play(&mut self, track: TrackInfo, now: u64) -> (event: Option<ChangeEvent>)
        ensures
            final(self)@ == next_state(old(self)@, TickView::Playing(track@), now as nat),
            viewed(event) == emitted(old(self)@, TickView::Playing(track@)),
    {
        let same_song = self.is_playing && match &self.last_identity {
            Some(identity) => identity.names(&track),
            None => false,
        };
        if same_song {
            return None;
        }
        *self = AppState {
            last_snapshot: Some(track.clone()),
            last_identity: Some(track.identity()),
            is_playing: true,
            last_change_time: now,
            presence_synced: false,
        };
        Some(ChangeEvent::Playing(track))
    }

    /// The snapshot written at the last start of a song.
    pub fn current_snapshot(&self) -> (snapshot: Option<TrackInfo>)
        ensures
            viewed(snapshot) == self@.last_snapshot,
    {
        match &self.last_snapshot {
            Some(track) => Some(track.clone()),
            None => None,
        }
    }

    /// The identity that new snapshots are compared with.
    pub fn last_identity(&self) -> (identity: Option<TrackIdentity>)
        ensures
            viewed(identity) == self@.last_identity,
    {
        match &self.last_identity {
            Some(identity) => Some(identity.clone()),
            None => None,
        }
    }

    /// Whether something is playing.
    pub fn is_playing(&self) -> (playing: bool)
        ensures
            playing == self@.is_playing,
    {
        self.is_playing
    }

    /// The instant of the last tick that changed the state.
    pub fn last_change_time(&self) -> (instant: u64)
        ensures
            instant == self@.last_change_time,
    {
        self.last_change_time
    }

    /// The time since the last tick that changed the state, seen from the
    /// instant `now`.
    pub fn age_since_last_change(&self, now: u64) -> (age: u64)
        ensures
            age == age_at(self@, now as nat),
    {
        if now >= self.last_change_time {
            now - self.last_change_time
        } else {
            0
        }
    }

    /// Whether the presence display already shows the current song.
    pub fn presence_synced(&self) -> (synced: bool)
        ensures
            synced == self@.presence_synced,
    {
        self.presence_synced
    }

    /// Whether the presence display already shows the song of `track`: that
    /// song is the one playing, and the flag is up.
    pub fn presence_shows(&self, track: &TrackInfo) -> (shown: bool)
        ensures
            shown == shows(self@, identity_of(track@)),
    {
        self.is_playing && self.presence_synced && match &self.last_identity {
            Some(last) => last.names(track),
            None => false,
        }
    }

    /// Records that the presence display now shows the song `identity`.
    /// Returns whether this raised the flag.
    pub fn mark_presence_synced(&mut self, identity: &TrackIdentity) -> (raised: bool)
        ensures
            consistent(old(self)@),
            final(self)@ == marked_synced(old(self)@, identity@),
            raised == (final(self)@.presence_synced && !old(self)@.presence_synced),
    {
        proof {
            use_type_invariant(&*self);
        }
        let current = self.is_playing && match &self.last_identity {
            Some(last) => last.same_as(identity),
            None => false,
        };
        if current && !self.presence_synced {
            self.presence_synced = true;
            true
        } else {
            false
        }
    }
}

/// The events that a run of ticks gives rise to, in order, starting from
/// `state`. Each tick comes with its instant.
pub open spec fn events_of(state: StateView, ticks: Seq<(TickView, nat)>) -> Seq<EventView>
    decreases ticks.len(),
{
    if ticks.len() == 0 {
        Seq::empty()
    } else {
        let rest = events_of(next_state(state, ticks[0].0, ticks[0].1), ticks.drop_first());
        match emitted(state, ticks[0].0) {
            Some(event) => seq![event] + rest,
            None => rest,
        }
    }
}

/// Whether a tick reports the song `song` as playing.
pub open spec fn reports(tick: (TickView, nat), song: IdentityView) -> bool {
    reported(tick.0) matches Some(track) && identity_of(track) == song
}

/// A tick keeps a consistent state consistent.
pub proof fn tick_keeps_consistency(state: StateView, tick: TickView, now: nat)
    requires
        consistent(state),
    ensures
        consistent(next_state(state, tick, now)),
{
}

/// A tick either changes the state, stamps it with its instant and gives rise
/// to an event, or leaves the state as it was and gives rise to none.
pub proof fn tick_writes_or_is_silent(state: StateView, tick: TickView, now: nat)
    requires
        consistent(state),
    ensures
        changes(state, tick) ==> emitted(state, tick) is Some && next_state(
            state,
            tick,
            now,
        ).last_change_time == now,
        !changes(state, tick) ==> emitted(state, tick) is None && next_state(state, tick, now)
            == state,
{
}

/// A tick that starts a song, or goes on to another, lowers the presence
/// flag; so does none that stops playback or changes nothing.
pub proof fn a_new_song_lowers_the_flag(state: StateView, tick: TickView, now: nat)
    ensures
        changes(state, tick) && reported(tick) is Some ==> !next_state(
            state,
            tick,
            now,
        ).presence_synced,
        !(changes(state, tick) && reported(tick) is Some) ==> next_state(
            state,
            tick,
            now,
        ).presence_synced == state.presence_synced,
{
}

/// A tick leaves the snapshot as it was or puts the reported one in its
/// place, whole: what is read of the state before or after a tick is never
/// made up of the fields of two snapshots.
pub proof fn snapshot_is_replaced_whole(state: StateView, tick: TickView, now: nat)
    ensures
        next_state(state, tick, now).last_snapshot == state.last_snapshot || next_state(
            state,
            tick,
            now,
        ).last_snapshot == reported(tick),
{
}

/// However many ticks in a row report one and the same song, they give rise
/// to one event at most, and to none where that song is playing already.
pub proof fn one_song_is_announced_once(
    state: StateView,
    ticks: Seq<(TickView, nat)>,
    song: IdentityView,
)
    requires
        forall|i: int| 0 <= i < ticks.len() ==> reports(#[trigger] ticks[i], song),
    ensures
        events_of(state, ticks).len() <= 1,
        state.is_playing && state.last_identity == Some(song) ==> events_of(state, ticks).len()
            == 0,
    decreases ticks.len(),
{
    if ticks.len() > 0 {
        assert(reports(ticks[0], song));
        let later = ticks.drop_first();
        assert forall|i: int| 0 <= i < later.len() implies reports(#[trigger] later[i], song) by {
            assert(later[i] == ticks[i + 1]);
        }
        one_song_is_announced_once(next_state(state, ticks[0].0, ticks[0].1), later, song);
    }
}

/// From the start, the run "nothing, song `a`, song `a` again, song `b`,
/// nothing" gives rise to three events: `a` playing, `b` playing, and `b`
/// paused.
pub proof fn start_change_stop(a: TrackInfoView, b: TrackInfoView, start: nat, at: Seq<nat>)
    requires
        identity_of(a) != identity_of(b),
        at.len() == 5,
    ensures
        events_of(
            initial_state(start),
            seq![
                (TickView::Idle, at[0]),
                (TickView::Playing(a), at[1]),
                (TickView::Playing(a), at[2]),
                (TickView::Playing(b), at[3]),
                (TickView::Idle, at[4]),
            ],
        ) == seq![
            EventView::Playing(a),
            EventView::Playing(b),
            EventView::Paused(paused_of(b)),
        ],
        identity_of(paused_of(b)) == identity_of(b),
{
    let t0 = (TickView::Idle, at[0]);
    let t1 = (TickView::Playing(a), at[1]);
    let t2 = (TickView::Playing(a), at[2]);
    let t3 = (TickView::Playing(b), at[3]);
    let t4 = (TickView::Idle, at[4]);
    let s0 = initial_state(start);
    let s1 = next_state(s0, t0.0, t0.1);
    let s2 = next_state(s1, t1.0, t1.1);
    let s3 = next_state(s2, t2.0, t2.1);
    let s4 = next_state(s3, t3.0, t3.1);
    let s5 = next_state(s4, t4.0, t4.1);
    assert(seq![t4].drop_first() =~= Seq::<(TickView, nat)>::empty());
    assert(events_of(s5, Seq::<(TickView, nat)>::empty()) =~= Seq::<EventView>::empty());
    assert(events_of(s4, seq![t4]) =~= seq![EventView::Paused(paused_of(b))]);
    assert(seq![t3, t4].drop_first() =~= seq![t4]);
    assert(events_of(s3, seq![t3, t4]) =~= seq![
        EventView::Playing(b),
        EventView::Paused(paused_of(b)),
    ]);
    assert(seq![t2, t3, t4].drop_first() =~= seq![t3, t4]);
    assert(events_of(s2, seq![t2, t3, t4]) =~= events_of(s3, seq![t3, t4]));
    assert(seq![t1, t2, t3, t4].drop_first() =~= seq![t2, t3, t4]);
    assert(events_of(s1, seq![t1, t2, t3, t4]) =~= seq![EventView::Playing(a)] + events_of(
        s2,
        seq![t2, t3, t4],
    ));
    assert(seq![t0, t1, t2, t3, t4].drop_first() =~= seq![t1, t2, t3, t4]);
    assert(events_of(s0, seq![t0, t1, t2, t3, t4]) =~= events_of(s1, seq![t1, t2, t3, t4]));
}

/// While nothing plays, a tick without a track name gives rise to one event,
/// which holds the radio snapshot. The same tick once more gives rise to
/// none, and leaves the state as the first one wrote it.
pub proof fn radio_is_announced_once(state: StateView, first: nat, second: nat)
    requires
        !state.is_playing,
    ensures
        emitted(state, TickView::PlayingUnknown) == Some(EventView::Playing(radio_mix_view())),
        identity_of(radio_mix_view()) == radio_identity(),
        emitted(next_state(state, TickView::PlayingUnknown, first), TickView::PlayingUnknown)
            is None,
        next_state(
            next_state(state, TickView::PlayingUnknown, first),
            TickView::PlayingUnknown,
            second,
        ) == next_state(state, TickView::PlayingUnknown, first),
{
}

/// Where the player names no artist, the event that its report gives rise to
/// names the artist [`UNKNOWN`].
pub proof fn missing_artist_is_unknown(state: StateView, raw: RawTrackView)
    requires
        raw.artist_name is None,
    ensures
        emitted(state, normalized(raw)) matches Some(event) ==> event.track().artist_name
            == UNKNOWN@,
{
}

} // verus!
