use now_playing::artwork::{
    candidate_from, candidates_from, large_cover, parse_candidates, pick_artwork, resolve_image,
    search_url, Candidate, DEFAULT_IMAGE,
};
use now_playing::track::TrackInfo;

fn track(name: &str, artist: &str) -> TrackInfo {
    TrackInfo {
        track_name: name.to_string(),
        artist_name: artist.to_string(),
        progress_ms: 0,
        duration_ms: 200_000,
        genre: "Jazz".to_string(),
        favourited: false,
        played_count: 0,
        album: "Blue".to_string(),
    }
}

fn candidate(artist: Option<&str>, name: Option<&str>, cover: Option<&str>) -> Candidate {
    Candidate {
        artist_name: artist.map(str::to_string),
        track_name: name.map(str::to_string),
        artwork_url: cover.map(str::to_string),
    }
}

const ANSWER: &str = r#"{
  "resultCount": 4,
  "results": [
    {"artistName": "Someone Else", "trackName": "So What", "artworkUrl100": "https://img/other/100x100bb.jpg"},
    {"artistName": "MILES DAVIS", "trackName": "so what"},
    {"artistName": "miles davis", "trackName": "SO WHAT", "artworkUrl100": "https://img/kind/100x100bb.jpg", "trackTimeMillis": 562000},
    {"artistName": "Miles Davis", "trackName": "So What", "artworkUrl100": "https://img/later/100x100bb.jpg"}
  ]
}"#;

#[test]
fn search_url_encodes_the_track_name() {
    assert_eq!(
        search_url("So What"),
        "https://itunes.apple.com/search?term=So%20What&country=us&limit=25&media=music&entity=musicTrack&attribute=songTerm"
    );
}

#[test]
fn search_url_keeps_unreserved_characters() {
    assert_eq!(
        search_url("Az09-._~"),
        "https://itunes.apple.com/search?term=Az09-._~&country=us&limit=25&media=music&entity=musicTrack&attribute=songTerm"
    );
}

#[test]
fn search_url_encodes_every_byte_of_other_characters() {
    assert_eq!(
        search_url("a&b=c/é👾"),
        "https://itunes.apple.com/search?term=a%26b%3Dc%2F%C3%A9%F0%9F%91%BE&country=us&limit=25&media=music&entity=musicTrack&attribute=songTerm"
    );
    assert_eq!(
        search_url(""),
        "https://itunes.apple.com/search?term=&country=us&limit=25&media=music&entity=musicTrack&attribute=songTerm"
    );
}

#[test]
fn large_cover_swaps_the_size() {
    assert_eq!(large_cover("https://img/kind/100x100bb.jpg"), "https://img/kind/512x512bb.jpg");
    assert_eq!(large_cover("https://img/kind/60x60bb.jpg"), "https://img/kind/60x60bb.jpg");
    assert_eq!(
        large_cover("100x100bb.jpg/100x100bb.jpg"),
        "512x512bb.jpg/512x512bb.jpg"
    );
    assert_eq!(large_cover(""), "");
}

#[test]
fn candidates_are_read_in_order_with_what_each_holds() {
    assert_eq!(
        parse_candidates(ANSWER),
        vec![
            candidate(Some("Someone Else"), Some("So What"), Some("https://img/other/100x100bb.jpg")),
            candidate(Some("MILES DAVIS"), Some("so what"), None),
            candidate(Some("miles davis"), Some("SO WHAT"), Some("https://img/kind/100x100bb.jpg")),
            candidate(Some("Miles Davis"), Some("So What"), Some("https://img/later/100x100bb.jpg")),
        ]
    );
}

#[test]
fn a_field_that_is_not_text_counts_as_missing() {
    let body = r#"{"results": [{"artistName": 5, "trackName": null, "artworkUrl100": ["x"]}, "loose", {}]}"#;
    assert_eq!(
        parse_candidates(body),
        vec![candidate(None, None, None), candidate(None, None, None), candidate(None, None, None)]
    );
}

#[test]
fn a_body_of_another_shape_holds_no_candidates() {
    assert_eq!(parse_candidates("not json"), Vec::<Candidate>::new());
    assert_eq!(parse_candidates(""), Vec::<Candidate>::new());
    assert_eq!(parse_candidates("[1, 2]"), Vec::<Candidate>::new());
    assert_eq!(parse_candidates(r#"{"resultCount": 0}"#), Vec::<Candidate>::new());
    assert_eq!(parse_candidates(r#"{"results": {"artistName": "x"}}"#), Vec::<Candidate>::new());
    assert_eq!(parse_candidates(r#"{"results": []}"#), Vec::<Candidate>::new());
    assert_eq!(parse_candidates(r#"{"results": []} trailing"#), Vec::<Candidate>::new());
}

#[test]
fn candidates_can_be_read_from_a_parsed_answer() {
    let answer: serde_json::Value = serde_json::from_str(ANSWER).unwrap();
    assert_eq!(candidates_from(&answer), parse_candidates(ANSWER));
    let entry: serde_json::Value =
        serde_json::from_str(r#"{"artistName": "A", "trackName": "T", "artworkUrl100": "U"}"#).unwrap();
    assert_eq!(candidate_from(&entry), candidate(Some("A"), Some("T"), Some("U")));
}

#[test]
fn the_first_matching_candidate_with_a_cover_is_picked() {
    let found = pick_artwork(&parse_candidates(ANSWER), &track("So What", "Miles Davis"));
    assert_eq!(found, Some("https://img/kind/512x512bb.jpg".to_string()));
}

#[test]
fn matching_ignores_the_case_of_ascii_letters_only() {
    let t = track("Déjà Vu", "Beyoncé");
    let same = candidate(Some("BEYONCé"), Some("DéJà vU"), Some("c"));
    let other = candidate(Some("BEYONCÉ"), Some("Déjà Vu"), Some("c"));
    assert!(same.matches(&t));
    assert!(!other.matches(&t));
    assert_eq!(pick_artwork(&vec![other, same], &t), Some("c".to_string()));
}

#[test]
fn a_candidate_without_both_names_never_matches() {
    let t = track("So What", "Miles Davis");
    assert!(!candidate(None, Some("So What"), Some("c")).matches(&t));
    assert!(!candidate(Some("Miles Davis"), None, Some("c")).matches(&t));
    assert!(!candidate(Some("Miles Davis"), Some("So What!"), Some("c")).matches(&t));
    assert!(candidate(Some("Miles Davis"), Some("So What"), None).matches(&t));
    assert_eq!(candidate(Some("Miles Davis"), Some("So What"), None).cover_for(&t), None);
}

#[test]
fn no_match_means_no_cover() {
    assert_eq!(pick_artwork(&parse_candidates(ANSWER), &track("Naima", "John Coltrane")), None);
    assert_eq!(pick_artwork(&Vec::new(), &track("So What", "Miles Davis")), None);
}

#[test]
fn the_image_falls_back_to_the_default() {
    let t = track("So What", "Miles Davis");
    assert_eq!(resolve_image(Some(ANSWER), &t), "https://img/kind/512x512bb.jpg");
    assert_eq!(resolve_image(None, &t), DEFAULT_IMAGE);
    assert_eq!(resolve_image(None, &t), "image_logo");
    assert_eq!(resolve_image(Some("<html>busy</html>"), &t), "image_logo");
    assert_eq!(resolve_image(Some(ANSWER), &track("Naima", "John Coltrane")), "image_logo");
}
