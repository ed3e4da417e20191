//! Track snapshots: what the player reports, and what the service keeps of it.
//!
//! Times are whole milliseconds. The player's position and length arrive as
//! fractions of a second; whoever polls it rounds them before they get here.

use vstd::prelude::*;

verus! {

/// Stands in for a text field that the player left out.
pub const UNKNOWN: &'static str = "Unknown";

/// Track name of the snapshot that stands for radio or a mix, where the player
/// is playing and names no track.
pub const RADIO_MIX: &'static str = "Radio/Mix";

/// The duration that marks a snapshot as paused.
pub const PAUSED_DURATION_MS: i64 = -1000;

/// One normalized reading of the current track.
#[derive(Debug, PartialEq, Eq)]
pub struct TrackInfo {
    pub track_name: String,
    pub artist_name: String,
    /// Time played so far.
    pub progress_ms: i64,
    /// Length of the track; zero or less where it is unknown or playback has paused.
    pub duration_ms: i64,
    pub genre: String,
    pub favourited: bool,
    pub played_count: u32,
    pub album: String,
}

/// A [`TrackInfo`] as contracts see it.
pub struct TrackInfoView {
    pub track_name: Seq<char>,
    pub artist_name: Seq<char>,
    pub progress_ms: int,
    pub duration_ms: int,
    pub genre: Seq<char>,
    pub favourited: bool,
    pub played_count: nat,
    pub album: Seq<char>,
}

impl View for TrackInfo {
    type V = TrackInfoView;

    open spec fn view(&self) -> TrackInfoView {
        TrackInfoView {
            track_name: self.track_name@,
            artist_name: self.artist_name@,
            progress_ms: self.progress_ms as int,
            duration_ms: self.duration_ms as int,
            genre: self.genre@,
            favourited: self.favourited,
            played_count: self.played_count as nat,
            album: self.album@,
        }
    }
}

impl Clone for TrackInfo {
    fn clone(&self) -> (copy: Self)
        ensures
            copy@ == self@,
    {
        TrackInfo {
            track_name: self.track_name.clone(),
            artist_name: self.artist_name.clone(),
            progress_ms: self.progress_ms,
            duration_ms: self.duration_ms,
            genre: self.genre.clone(),
            favourited: self.favourited,
            played_count: self.played_count,
            album: self.album.clone(),
        }
    }
}

/// The key by which two snapshots count as the same song: track name and
/// artist name, compared character by character. Case and spacing matter.
pub type IdentityView = (Seq<char>, Seq<char>);

/// The identity of a snapshot.
pub open spec fn identity_of(track: TrackInfoView) -> IdentityView {
    (track.track_name, track.artist_name)
}

/// The identity of the radio snapshot.
pub open spec fn radio_identity() -> IdentityView {
    (RADIO_MIX@, UNKNOWN@)
}

/// The snapshot that stands for radio or a mix.
pub open spec fn radio_mix_view() -> TrackInfoView {
    TrackInfoView {
        track_name: RADIO_MIX@,
        artist_name: UNKNOWN@,
        progress_ms: 0,
        duration_ms: 0,
        genre: UNKNOWN@,
        favourited: false,
        played_count: 0,
        album: UNKNOWN@,
    }
}

/// `track` as it is announced when playback stops: nothing played, and the
/// paused duration.
pub open spec fn paused_of(track: TrackInfoView) -> TrackInfoView {
    TrackInfoView { progress_ms: 0, duration_ms: PAUSED_DURATION_MS as int, ..track }
}

/// Track name and artist name of a snapshot, kept apart from it for comparing.
#[derive(Debug, PartialEq, Eq)]
pub struct TrackIdentity {
    pub track_name: String,
    pub artist_name: String,
}

impl View for TrackIdentity {
    type V = IdentityView;

    open spec fn view(&self) -> IdentityView {
        (self.track_name@, self.artist_name@)
    }
}

impl Clone for TrackIdentity {
    fn clone(&self) -> (copy: Self)
        ensures
            copy@ == self@,
    {
        TrackIdentity { track_name: self.track_name.clone(), artist_name: self.artist_name.clone() }
    }
}

impl TrackIdentity {
    /// Whether both name the same song.
    pub fn same_as(&self, other: &TrackIdentity) -> (same: bool)
        ensures
            same == (self@ == other@),
    {
        self.track_name == other.track_name && self.artist_name == other.artist_name
    }

    /// Whether this is the identity of `track`.
    pub fn names(&self, track: &TrackInfo) -> (same: bool)
        ensures
            same == (self@ == identity_of(track@)),
    {
        self.track_name == track.track_name && self.artist_name == track.artist_name
    }
}

impl TrackInfo {
    /// The identity of this snapshot.
    pub fn identity(&self) -> (id: TrackIdentity)
        ensures
            id@ == identity_of(self@),
    {
        TrackIdentity { track_name: self.track_name.clone(), artist_name: self.artist_name.clone() }
    }

    /// The snapshot that stands for radio or a mix.
    pub fn radio_mix() -> (track: TrackInfo)
        ensures
            track@ == radio_mix_view(),
    {
        TrackInfo {
            track_name: RADIO_MIX.to_owned(),
            artist_name: UNKNOWN.to_owned(),
            progress_ms: 0,
            duration_ms: 0,
            genre: UNKNOWN.to_owned(),
            favourited: false,
            played_count: 0,
            album: UNKNOWN.to_owned(),
        }
    }

    /// This snapshot as it is announced when playback stops.
    pub fn paused(&self) -> (track: TrackInfo)
        ensures
            track@ == paused_of(self@),
    {
        TrackInfo {
            track_name: self.track_name.clone(),
            artist_name: self.artist_name.clone(),
            progress_ms: 0,
            duration_ms: PAUSED_DURATION_MS,
            genre: self.genre.clone(),
            favourited: self.favourited,
            played_count: self.played_count,
            album: self.album.clone(),
        }
    }
}

/// A track as the player reports it: any text field may be missing, and the
/// play count is whatever integer the player holds.
#[derive(Debug, PartialEq, Eq)]
pub struct TrackInfoC {
    pub track_name: Option<String>,
    pub artist_name: Option<String>,
    pub progress_ms: i64,
    pub duration_ms: i64,
    pub genre: Option<String>,
    pub favourited: bool,
    pub played_count: i32,
    pub album: Option<String>,
}

/// A [`TrackInfoC`] as contracts see it.
pub struct RawTrackView {
    pub track_name: Option<Seq<char>>,
    pub artist_name: Option<Seq<char>>,
    pub progress_ms: int,
    pub duration_ms: int,
    pub genre: Option<Seq<char>>,
    pub favourited: bool,
    pub played_count: int,
    pub album: Option<Seq<char>>,
}

/// The view of a value that may be missing.
pub open spec fn viewed<T: View>(value: Option<T>) -> Option<T::V> {
    match value {
        Some(inner) => Some(inner@),
        None => None,
    }
}

impl View for TrackInfoC {
    type V = RawTrackView;

    open spec fn view(&self) -> RawTrackView {
        RawTrackView {
            track_name: viewed(self.track_name),
            artist_name: viewed(self.artist_name),
            progress_ms: self.progress_ms as int,
            duration_ms: self.duration_ms as int,
            genre: viewed(self.genre),
            favourited: self.favourited,
            played_count: self.played_count as int,
            album: viewed(self.album),
        }
    }
}

/// What one poll of the player gave.
#[derive(Debug, PartialEq, Eq)]
pub enum ProviderResult {
    NotPlaying,
    Playing(TrackInfoC),
}

/// What one poll means to the change detector.
#[derive(Debug, PartialEq, Eq)]
pub enum ProviderTick {
    /// Nothing is playing.
    Idle,
    /// Something is playing that has no track name: radio or a mix.
    PlayingUnknown,
    /// This track is playing.
    Playing(TrackInfo),
}

/// A [`ProviderTick`] as contracts see it.
pub enum TickView {
    Idle,
    PlayingUnknown,
    Playing(TrackInfoView),
}

impl View for ProviderTick {
    type V = TickView;

    open spec fn view(&self) -> TickView {
        match self {
            ProviderTick::Idle => TickView::Idle,
            ProviderTick::PlayingUnknown => TickView::PlayingUnknown,
            ProviderTick::Playing(track) => TickView::Playing(track@),
        }
    }
}

/// A reported text field, or [`UNKNOWN`] where the player left it out.
pub open spec fn text_or_unknown(field: Option<Seq<char>>) -> Seq<char> {
    match field {
        Some(text) => text,
        None => UNKNOWN@,
    }
}

/// A reported play count, with a negative one read as zero.
pub open spec fn count_or_zero(count: int) -> nat {
    if count < 0 {
        0
    } else {
        count as nat
    }
}

/// The tick that a report from a playing player stands for. Without a track
/// name it is radio or a mix. With one, every other missing text field
/// becomes [`UNKNOWN`], and the numbers are kept.
pub open spec fn normalized(raw: RawTrackView) -> TickView {
    match raw.track_name {
        None => TickView::PlayingUnknown,
        Some(name) => TickView::Playing(
            TrackInfoView {
                track_name: name,
                artist_name: text_or_unknown(raw.artist_name),
                progress_ms: raw.progress_ms,
                duration_ms: raw.duration_ms,
                genre: text_or_unknown(raw.genre),
                favourited: raw.favourited,
                played_count: count_or_zero(raw.played_count),
                album: text_or_unknown(raw.album),
            },
        ),
    }
}

/// The tick that one poll stands for. A poll that failed (`None`) counts as
/// one that found nothing playing.
pub open spec fn tick_of(poll: Option<ProviderResult>) -> TickView {
    match poll {
        Some(ProviderResult::Playing(raw)) => normalized(raw@),
        _ => TickView::Idle,
    }
}

/// `field`, or a fresh [`UNKNOWN`] in its place.
fn or_unknown(field: Option<String>) -> (text: String)
    ensures
        text@ == text_or_unknown(viewed(field)),
{
    match field {
        Some(text) => text,
        None => UNKNOWN.to_owned(),
    }
}

impl TrackInfoC {
    /// Turns a report from a playing player into a tick.
    pub fn normalize(self) -> (tick: ProviderTick)
        ensures
            tick@ == normalized(self@),
    {
        match self.track_name {
            None => ProviderTick::PlayingUnknown,
            Some(name) => {
                let played_count: u32 = if self.played_count < 0 {
                    0
                } else {
                    self.played_count as u32
                };
                ProviderTick::Playing(
                    TrackInfo {
                        track_name: name,
                        artist_name: or_unknown(self.artist_name),
                        progress_ms: self.progress_ms,
                        duration_ms: self.duration_ms,
                        genre: or_unknown(self.genre),
                        favourited: self.favourited,
                        played_count,
                        album: or_unknown(self.album),
                    },
                )
            },
        }
    }
}

impl ProviderTick {
    /// Turns the outcome of one poll into a tick. `None` is a poll that failed.
    pub fn from_poll(poll: Option<ProviderResult>) -> (tick: ProviderTick)
        ensures
            tick@ == tick_of(poll),
    {
        match poll {
            Some(ProviderResult::Playing(raw)) => raw.normalize(),
            Some(ProviderResult::NotPlaying) => ProviderTick::Idle,
            None => ProviderTick::Idle,
        }
    }
}

} // verus!
