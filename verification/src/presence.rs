//! The presence display: what it should show for a track, and what to do
//! about each thing that the subscription to the hub brings.
//!
//! The calls to the display are the caller's to make. [`Synchronizer::react`]
//! says which one is due, and [`presence_payload`] what to send with it.

use crate::hub::{ends_stream, Delivery};
use crate::state::{
    changes, marked_synced, next_state, shows, AppState, ChangeEvent, EventView, StateView,
};
use crate::text::{decimal, push_decimal, same_text};
use crate::track::{identity_of, paused_of, TickView, TrackInfo, TrackInfoView, UNKNOWN};
use vstd::prelude::*;

verus! {

/// The kind of activity that the display is told of: listening.
pub const LISTENING: u8 = 2;

/// What the headline of the display begins with.
pub const DETAILS_HEAD: &'static str = "Listening to ";

/// What the second line of the display begins with.
pub const STATE_HEAD: &'static str = "by ";

/// The name of the player, which the caption of the large image begins with.
pub const PLAYER_NAME: &'static str = "Apple Music";

/// What stands between the player's name and the genre.
pub const GENRE_HEAD: &'static str = " - ";

/// What stands before the play count.
pub const PLAYS_HEAD: &'static str = " (Played ";

/// What stands after the play count.
pub const PLAYS_TAIL: &'static str = " times)";

/// The small image of a favourite track.
pub const FAVOURITE_IMAGE: &'static str = "favourite";

/// The small image of any other track.
pub const UNFAVOURITE_IMAGE: &'static str = "unfavourite";

/// The caption of [`FAVOURITE_IMAGE`].
pub const FAVOURITE_TEXT: &'static str = "Favourited";

/// The caption of [`UNFAVOURITE_IMAGE`].
pub const UNFAVOURITE_TEXT: &'static str = "Not Favourited";

/// When the track began and when it will end, in seconds since the Unix epoch.
#[derive(Debug, Clone, Copy, PartialEq, Eq)]
pub struct Timestamps {
    pub start: i64,
    pub end: i64,
}

/// Everything that the display is told about a track.
#[derive(Debug, PartialEq, Eq)]
pub struct PresencePayload {
    pub activity_type: u8,
    pub details: String,
    pub state: String,
    pub large_image: String,
    pub large_text: String,
    pub small_image: String,
    pub small_text: String,
    pub timestamps: Option<Timestamps>,
}

/// A [`PresencePayload`] as contracts see it.
pub struct PayloadView {
    pub activity_type: int,
    pub details: Seq<char>,
    pub state: Seq<char>,
    pub large_image: Seq<char>,
    pub large_text: Seq<char>,
    pub small_image: Seq<char>,
    pub small_text: Seq<char>,
    /// Start and end.
    pub timestamps: Option<(int, int)>,
}

impl View for PresencePayload {
    type V = PayloadView;

    open spec fn view(&self) -> PayloadView {
        PayloadView {
            activity_type: self.activity_type as int,
            details: self.details@,
            state: self.state@,
            large_image: self.large_image@,
            large_text: self.large_text@,
            small_image: self.small_image@,
            small_text: self.small_text@,
            timestamps: match self.timestamps {
                Some(times) => Some((times.start as int, times.end as int)),
                None => None,
            },
        }
    }
}

/// The quotient of `x` by a positive `d`, rounded toward zero.
pub open spec fn toward_zero(x: int, d: int) -> int
    recommends
        d > 0,
{
    if x >= 0 {
        x / d
    } else {
        -((-x) / d)
    }
}

/// `x`, or the nearest value that an `i64` holds.
pub open spec fn clamped(x: int) -> int {
    if x < i64::MIN {
        i64::MIN as int
    } else if x > i64::MAX {
        i64::MAX as int
    } else {
        x
    }
}

/// Start and end of a track of known length, seen `now_secs` seconds after
/// the epoch: the start lies the time played before now, in whole seconds
/// rounded toward zero, and the end lies the whole seconds of the track's
/// length after the start. A track of no known length has neither.
pub open spec fn timestamps_at(track: TrackInfoView, now_secs: nat) -> Option<(int, int)> {
    if track.duration_ms > 0 {
        let start = clamped(toward_zero(now_secs * 1000 - track.progress_ms, 1000));
        Some((start, clamped(start + track.duration_ms / 1000)))
    } else {
        None
    }
}

/// The caption of the large image: the player's name, then the genre where
/// one is known, then the play count where the track was played before.
pub open spec fn large_text_of(track: TrackInfoView) -> Seq<char> {
    PLAYER_NAME@ + (if track.genre != UNKNOWN@ {
        GENRE_HEAD@ + track.genre
    } else {
        Seq::empty()
    }) + (if track.played_count > 0 {
        PLAYS_HEAD@ + decimal(track.played_count) + PLAYS_TAIL@
    } else {
        Seq::empty()
    })
}

/// What the display is told about `track`, with `image` as its large image,
/// at `now_secs` seconds after the epoch.
pub open spec fn payload_of(track: TrackInfoView, image: Seq<char>, now_secs: nat) -> PayloadView {
    PayloadView {
        activity_type: LISTENING as int,
        details: DETAILS_HEAD@ + track.track_name,
        state: STATE_HEAD@ + track.artist_name,
        large_image: image,
        large_text: large_text_of(track),
        small_image: if track.favourited {
            FAVOURITE_IMAGE@
        } else {
            UNFAVOURITE_IMAGE@
        },
        small_text: if track.favourited {
            FAVOURITE_TEXT@
        } else {
            UNFAVOURITE_TEXT@
        },
        timestamps: timestamps_at(track, now_secs),
    }
}

/// `x` brought into the range of an `i64`.
fn clamp(x: i128) -> (near: i64)
    ensures
        near == clamped(x as int),
{
    if x < i64::MIN as i128 {
        i64::MIN
    } else if x > i64::MAX as i128 {
        i64::MAX
    } else {
        x as i64
    }
}

/// Start and end of `track` for the display, at `now_secs` seconds after the
/// epoch; `None` where the track has no known length.
pub fn presence_timestamps(track: &TrackInfo, now_secs: u64) -> (times: Option<Timestamps>)
    ensures
        match times {
            Some(t) => timestamps_at(track@, now_secs as nat) == Some((t.start as int, t.end as int)),
            None => timestamps_at(track@, now_secs as nat) is None,
        },
{
    if track.duration_ms > 0 {
        let since: i128 = (now_secs as i128) * 1000 - (track.progress_ms as i128);
        let whole: i128 = if since >= 0 {
            since / 1000
        } else {
            -((-since) / 1000)
        };
        let start = clamp(whole);
        let end = clamp((start as i128) + ((track.duration_ms / 1000) as i128));
        Some(Timestamps { start, end })
    } else {
        None
    }
}

/// The caption of the large image for `track`.
pub fn large_text(track: &TrackInfo) -> (caption: String)
    ensures
        caption@ == large_text_of(track@),
{
    let mut caption = PLAYER_NAME.to_owned();
    if !same_text(track.genre.as_str(), UNKNOWN) {
        caption.append(GENRE_HEAD);
        caption.append(track.genre.as_str());
    }
    if track.played_count > 0 {
        caption.append(PLAYS_HEAD);
        push_decimal(&mut caption, track.played_count);
        caption.append(PLAYS_TAIL);
    }
    assert(caption@ =~= large_text_of(track@));
    caption
}

/// What to tell the display about `track`, with `image` as its large image,
/// at `now_secs` seconds after the epoch.
pub fn presence_payload(track: &TrackInfo, image: String, now_secs: u64) -> (payload:
    PresencePayload)
    ensures
        payload@ == payload_of(track@, image@, now_secs as nat),
{
    let mut details = DETAILS_HEAD.to_owned();
    details.append(track.track_name.as_str());
    let mut state = STATE_HEAD.to_owned();
    state.append(track.artist_name.as_str());
    let (small_image, small_text) = if track.favourited {
        (FAVOURITE_IMAGE.to_owned(), FAVOURITE_TEXT.to_owned())
    } else {
        (UNFAVOURITE_IMAGE.to_owned(), UNFAVOURITE_TEXT.to_owned())
    };
    PresencePayload {
        activity_type: LISTENING,
        details,
        state,
        large_image: image,
        large_text: large_text(track),
        small_image,
        small_text,
        timestamps: presence_timestamps(track, now_secs),
    }
}

/// What happens to the display when playback stops.
#[derive(Debug, Clone, Copy, PartialEq, Eq)]
pub enum PausePolicy {
    /// The display goes on showing the track, without its times.
    KeepPresence,
    /// The display is cleared.
    ClearPresence,
}

/// What the caller is to do with the display.
#[derive(Debug, PartialEq, Eq)]
pub enum PresenceAction {
    /// Nothing.
    Skip,
    /// Look for the cover of this track, and show the track.
    Update(TrackInfo),
    /// Show nothing, and go on listening.
    Clear,
    /// Show nothing, and stop listening: the stream of events has ended.
    Stop,
}

/// A [`PresenceAction`] as contracts see it.
pub enum ActionView {
    Skip,
    Update(TrackInfoView),
    Clear,
    Stop,
}

impl View for PresenceAction {
    type V = ActionView;

    open spec fn view(&self) -> ActionView {
        match self {
            PresenceAction::Skip => ActionView::Skip,
            PresenceAction::Update(track) => ActionView::Update(track@),
            PresenceAction::Clear => ActionView::Clear,
            PresenceAction::Stop => ActionView::Stop,
        }
    }
}

/// What an event asks of the display. A track that starts is shown, unless
/// the display shows that song already. A track that stops is shown in its
/// paused form, or the display is cleared, as the policy has it.
pub open spec fn planned(event: EventView, state: StateView, policy: PausePolicy) -> ActionView {
    match event {
        EventView::Playing(track) => if shows(state, identity_of(track)) {
            ActionView::Skip
        } else {
            ActionView::Update(track)
        },
        EventView::Paused(track) => match policy {
            PausePolicy::KeepPresence => ActionView::Update(track),
            PausePolicy::ClearPresence => ActionView::Clear,
        },
    }
}

/// What a delivery asks of the display. Once the stream has ended nothing
/// more is asked. Before that, its end asks for the one stop, an event for
/// what [`planned`] says, and anything else for nothing.
pub open spec fn reaction(
    finished: bool,
    delivery: Delivery,
    state: StateView,
    policy: PausePolicy,
) -> ActionView {
    if finished {
        ActionView::Skip
    } else if ends_stream(delivery) {
        ActionView::Stop
    } else {
        match delivery {
            Delivery::Event(event) => planned(event@, state, policy),
            _ => ActionView::Skip,
        }
    }
}

/// Decides what an event asks of the display, given the playback state as it
/// is when the event is read.
pub fn plan(event: ChangeEvent, state: &AppState, policy: PausePolicy) -> (action: PresenceAction)
    ensures
        action@ == planned(event@, state@, policy),
{
    match event {
        ChangeEvent::Playing(track) => if state.presence_shows(&track) {
            PresenceAction::Skip
        } else {
            PresenceAction::Update(track)
        },
        ChangeEvent::Paused(track) => match policy {
            PausePolicy::KeepPresence => PresenceAction::Update(track),
            PausePolicy::ClearPresence => PresenceAction::Clear,
        },
    }
}

/// The subscriber that keeps the presence display in step with the hub.
#[derive(Debug)]
pub struct Synchronizer {
    policy: PausePolicy,
    finished: bool,
}

/// A [`Synchronizer`] as contracts see it.
pub struct SynchronizerView {
    pub policy: PausePolicy,
    /// Whether the stream of events has ended.
    pub finished: bool,
}

impl View for Synchronizer {
    type V = SynchronizerView;

    closed spec fn view(&self) -> SynchronizerView {
        SynchronizerView { policy: self.policy, finished: self.finished }
    }
}

impl Synchronizer {
    /// A synchronizer at the start of its stream.
    pub fn new(policy: PausePolicy) -> (synchronizer: Synchronizer)
        ensures
            synchronizer@ == (SynchronizerView { policy, finished: false }),
    {
        Synchronizer { policy, finished: false }
    }

    /// Whether the stream of events has ended.
    pub fn is_finished(&self) -> (finished: bool)
        ensures
            finished == self@.finished,
    {
        self.finished
    }

    /// Takes in what the subscription brought and says what to do with the
    /// display. `state` is the playback state at this moment.
    pub fn react(&mut self, delivery: Delivery, state: &AppState) -> (action: PresenceAction)
        ensures
            action@ == reaction(old(self)@.finished, delivery, state@, old(self)@.policy),
            final(self)@ == (SynchronizerView {
                policy: old(self)@.policy,
                finished: old(self)@.finished || ends_stream(delivery),
            }),
    {
        if self.finished {
            return PresenceAction::Skip;
        }
        if delivery.ends() {
            self.finished = true;
            return PresenceAction::Stop;
        }
        match delivery {
            Delivery::Event(event) => plan(event, state, self.policy),
            _ => PresenceAction::Skip,
        }
    }
}

/// A track of no known length is shown without times, whatever the hour.
/// The paused form of a track is such a track.
pub proof fn no_length_no_times(track: TrackInfoView, image: Seq<char>, now_secs: nat)
    requires
        track.duration_ms <= 0,
    ensures
        payload_of(track, image, now_secs).timestamps is None,
        payload_of(paused_of(track), image, now_secs).timestamps is None,
{
}

/// One song is shown once. While the song `first` plays and the display does
/// not show it yet, its event asks for an update. Once that update is
/// recorded, the flag is up, a further event for the same song asks for
/// nothing, and recording again changes nothing. This lasts until a tick
/// changes the state: a tick that changes nothing leaves the flag alone.
pub proof fn one_update_per_song(
    state: StateView,
    first: TrackInfoView,
    second: TrackInfoView,
    policy: PausePolicy,
    tick: TickView,
    now: nat,
)
    requires
        state.is_playing,
        state.last_identity == Some(identity_of(first)),
        !state.presence_synced,
        identity_of(second) == identity_of(first),
    ensures
        planned(EventView::Playing(first), state, policy) == ActionView::Update(first),
        marked_synced(state, identity_of(first)).presence_synced,
        planned(
            EventView::Playing(second),
            marked_synced(state, identity_of(first)),
            policy,
        ) == ActionView::Skip,
        marked_synced(marked_synced(state, identity_of(first)), identity_of(second))
            == marked_synced(state, identity_of(first)),
        !changes(marked_synced(state, identity_of(first)), tick) ==> next_state(
            marked_synced(state, identity_of(first)),
            tick,
            now,
        ).presence_synced,
{
}

/// How many times a run of deliveries asks for the stop. Each delivery comes
/// with the playback state at the moment it is read.
pub open spec fn stops_in(
    finished: bool,
    run: Seq<(Delivery, StateView)>,
    policy: PausePolicy,
) -> nat
    decreases run.len(),
{
    if run.len() == 0 {
        0
    } else {
        let later = stops_in(finished || ends_stream(run[0].0), run.drop_first(), policy);
        if reaction(finished, run[0].0, run[0].1, policy) is Stop {
            1 + later
        } else {
            later
        }
    }
}

/// Whether the stream ends somewhere in a run of deliveries.
pub open spec fn ends_within(run: Seq<(Delivery, StateView)>) -> bool {
    exists|i: int| 0 <= i < run.len() && ends_stream(#[trigger] run[i].0)
}

/// The stop is asked for once, when the stream ends, and never again; and it
/// is not asked for while the stream goes on.
pub proof fn stop_is_asked_once(
    finished: bool,
    run: Seq<(Delivery, StateView)>,
    policy: PausePolicy,
)
    ensures
        finished ==> stops_in(finished, run, policy) == 0,
        !finished && ends_within(run) ==> stops_in(finished, run, policy) == 1,
        !finished && !ends_within(run) ==> stops_in(finished, run, policy) == 0,
    decreases run.len(),
{
    if run.len() > 0 {
        let later = run.drop_first();
        stop_is_asked_once(finished || ends_stream(run[0].0), later, policy);
        if !finished && !ends_stream(run[0].0) {
            if ends_within(run) {
                let i = choose|i: int| 0 <= i < run.len() && ends_stream(#[trigger] run[i].0);
                assert(later[i - 1] == run[i]);
                assert(ends_stream(later[i - 1].0));
            }
            if ends_within(later) {
                let j = choose|j: int| 0 <= j < later.len() && ends_stream(#[trigger] later[j].0);
                assert(run[j + 1] == later[j]);
                assert(ends_stream(run[j + 1].0));
            }
        }
    }
}

} // verus!
