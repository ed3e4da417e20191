use now_playing::hub::Delivery;
use now_playing::presence::{
    large_text, plan, presence_payload, presence_timestamps, PausePolicy, PresenceAction,
    PresencePayload, Synchronizer, Timestamps,
};
use now_playing::state::{AppState, ChangeEvent};
use now_playing::track::{ProviderTick, TrackInfo};

fn track(name: &str, artist: &str) -> TrackInfo {
    TrackInfo {
        track_name: name.to_string(),
        artist_name: artist.to_string(),
        progress_ms: 12_300,
        duration_ms: 215_900,
        genre: "Jazz".to_string(),
        favourited: true,
        played_count: 42,
        album: "Blue".to_string(),
    }
}

fn playing(now: u64, t: &TrackInfo) -> AppState {
    let mut state = AppState::new(0);
    state.apply_tick(ProviderTick::Playing(t.clone()), now);
    state
}

#[test]
fn payload_of_a_playing_track() {
    let t = track("So What", "Miles Davis");
    assert_eq!(
        presence_payload(&t, "https://img/512x512bb.jpg".to_string(), 1_700_000_000),
        PresencePayload {
            activity_type: 2,
            details: "Listening to So What".to_string(),
            state: "by Miles Davis".to_string(),
            large_image: "https://img/512x512bb.jpg".to_string(),
            large_text: "Apple Music - Jazz (Played 42 times)".to_string(),
            small_image: "favourite".to_string(),
            small_text: "Favourited".to_string(),
            timestamps: Some(Timestamps { start: 1_699_999_987, end: 1_700_000_202 }),
        }
    );
}

#[test]
fn payload_of_a_track_that_is_no_favourite() {
    let mut t = track("So What", "Miles Davis");
    t.favourited = false;
    let payload = presence_payload(&t, "image_logo".to_string(), 0);
    assert_eq!(payload.small_image, "unfavourite");
    assert_eq!(payload.small_text, "Not Favourited");
    assert_eq!(payload.large_image, "image_logo");
}

#[test]
fn caption_leaves_out_what_is_not_known() {
    let mut t = track("So What", "Miles Davis");
    assert_eq!(large_text(&t), "Apple Music - Jazz (Played 42 times)");
    t.genre = "Unknown".to_string();
    assert_eq!(large_text(&t), "Apple Music (Played 42 times)");
    t.played_count = 0;
    assert_eq!(large_text(&t), "Apple Music");
    t.genre = "unknown".to_string();
    assert_eq!(large_text(&t), "Apple Music - unknown");
    t.played_count = 1;
    assert_eq!(large_text(&t), "Apple Music - unknown (Played 1 times)");
    t.played_count = u32::MAX;
    t.genre = String::new();
    assert_eq!(large_text(&t), "Apple Music -  (Played 4294967295 times)");
}

#[test]
fn times_round_toward_zero() {
    let mut t = track("So What", "Miles Davis");
    // 1000 s - 12.3 s = 987.7 s, and 215.9 s of length.
    assert_eq!(presence_timestamps(&t, 1000), Some(Timestamps { start: 987, end: 1202 }));
    t.progress_ms = 0;
    t.duration_ms = 1;
    assert_eq!(presence_timestamps(&t, 1000), Some(Timestamps { start: 1000, end: 1000 }));
    t.progress_ms = 999;
    t.duration_ms = 999;
    assert_eq!(presence_timestamps(&t, 1000), Some(Timestamps { start: 999, end: 999 }));
    // More played than the clock has run: -0.5 s rounds to zero, -1.5 s to -1.
    t.progress_ms = 1_500;
    t.duration_ms = 60_000;
    assert_eq!(presence_timestamps(&t, 1), Some(Timestamps { start: 0, end: 60 }));
    assert_eq!(presence_timestamps(&t, 0), Some(Timestamps { start: -1, end: 59 }));
    // A position before the start of the track.
    t.progress_ms = -2_500;
    assert_eq!(presence_timestamps(&t, 10), Some(Timestamps { start: 12, end: 72 }));
}

#[test]
fn times_stay_within_range() {
    let mut t = track("So What", "Miles Davis");
    t.progress_ms = 0;
    t.duration_ms = 5_000;
    assert_eq!(
        presence_timestamps(&t, u64::MAX),
        Some(Timestamps { start: i64::MAX, end: i64::MAX })
    );
    t.progress_ms = i64::MIN;
    t.duration_ms = i64::MAX;
    assert_eq!(
        presence_timestamps(&t, i64::MAX as u64),
        Some(Timestamps { start: i64::MAX, end: i64::MAX })
    );
    t.progress_ms = i64::MAX;
    t.duration_ms = i64::MAX;
    assert_eq!(
        presence_timestamps(&t, 0),
        Some(Timestamps { start: -9_223_372_036_854_775, end: 0 })
    );
}

#[test]
fn no_times_without_a_known_length() {
    let mut t = track("So What", "Miles Davis");
    t.duration_ms = 0;
    assert_eq!(presence_timestamps(&t, 1000), None);
    assert_eq!(presence_payload(&t, "i".to_string(), 1000).timestamps, None);
    t.duration_ms = -1;
    assert_eq!(presence_timestamps(&t, 1000), None);
    let paused = track("So What", "Miles Davis").paused();
    assert_eq!(paused.duration_ms, -1000);
    assert_eq!(presence_timestamps(&paused, 1000), None);
    let payload = presence_payload(&paused, "i".to_string(), 1000);
    assert_eq!(payload.timestamps, None);
    assert_eq!(payload.details, "Listening to So What");
    assert_eq!(presence_payload(&TrackInfo::radio_mix(), "i".to_string(), 1000).timestamps, None);
}

#[test]
fn a_started_track_is_shown() {
    let t = track("So What", "Miles Davis");
    let state = playing(10, &t);
    assert_eq!(
        plan(ChangeEvent::Playing(t.clone()), &state, PausePolicy::KeepPresence),
        PresenceAction::Update(t)
    );
}

#[test]
fn one_song_is_shown_once() {
    let t = track("So What", "Miles Davis");
    let mut state = playing(10, &t);
    let mut synchronizer = Synchronizer::new(PausePolicy::KeepPresence);
    let mut updates = 0;
    let mut raised = 0;
    for _ in 0..2 {
        let delivery = Delivery::Event(ChangeEvent::Playing(t.clone()));
        match synchronizer.react(delivery, &state) {
            PresenceAction::Update(shown) => {
                updates += 1;
                if state.mark_presence_synced(&shown.identity()) {
                    raised += 1;
                }
            }
            PresenceAction::Skip => {}
            other => panic!("unexpected action {:?}", other),
        }
    }
    assert_eq!(updates, 1);
    assert_eq!(raised, 1);
    assert!(state.presence_synced());
}

#[test]
fn an_event_for_another_song_than_the_current_one_is_still_shown() {
    let a = track("So What", "Miles Davis");
    let b = track("Naima", "John Coltrane");
    let mut state = playing(10, &b);
    state.mark_presence_synced(&b.identity());
    assert_eq!(
        plan(ChangeEvent::Playing(a.clone()), &state, PausePolicy::KeepPresence),
        PresenceAction::Update(a)
    );
    assert_eq!(
        plan(ChangeEvent::Playing(b), &state, PausePolicy::KeepPresence),
        PresenceAction::Skip
    );
}

#[test]
fn a_stop_of_playback_follows_the_policy() {
    let t = track("So What", "Miles Davis");
    let mut state = playing(10, &t);
    state.mark_presence_synced(&t.identity());
    let event = state.apply_tick(ProviderTick::Idle, 20).unwrap();
    assert_eq!(
        plan(event.clone(), &state, PausePolicy::KeepPresence),
        PresenceAction::Update(t.paused())
    );
    assert_eq!(plan(event, &state, PausePolicy::ClearPresence), PresenceAction::Clear);
}

#[test]
fn the_stop_is_asked_for_once() {
    let state = AppState::new(0);
    let mut synchronizer = Synchronizer::new(PausePolicy::KeepPresence);
    assert!(!synchronizer.is_finished());
    assert_eq!(synchronizer.react(Delivery::Empty, &state), PresenceAction::Skip);
    assert_eq!(synchronizer.react(Delivery::Lagged(3), &state), PresenceAction::Skip);
    assert!(!synchronizer.is_finished());
    assert_eq!(synchronizer.react(Delivery::Closed, &state), PresenceAction::Stop);
    assert!(synchronizer.is_finished());
    assert_eq!(synchronizer.react(Delivery::Closed, &state), PresenceAction::Skip);
    let late = Delivery::Event(ChangeEvent::Playing(track("So What", "Miles Davis")));
    assert_eq!(synchronizer.react(late, &state), PresenceAction::Skip);
    assert!(synchronizer.is_finished());
}
