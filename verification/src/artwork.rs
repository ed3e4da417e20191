//! Cover art for a track: the query to send to the catalogue search, and the
//! choice among the candidates that come back.
//!
//! The search itself is the caller's to make. It gets the address from
//! [`search_url`] and brings back the body of the answer, or nothing.

use crate::text::{ascii_folded, eq_ignore_ascii_case, replace_all, replaced};
use crate::track::{viewed, TrackInfo, TrackInfoView};
use serde_json::Value;
use vstd::prelude::*;
use vstd::utf8::encode_utf8;

verus! {

/// The address of the catalogue search, up to the search term.
pub const SEARCH_URL_HEAD: &'static str = "https://itunes.apple.com/search?term=";

/// The rest of the address, after the search term.
pub const SEARCH_URL_TAIL: &'static str =
    "&country=us&limit=25&media=music&entity=musicTrack&attribute=songTerm";

/// The image shown where no cover art was found.
pub const DEFAULT_IMAGE: &'static str = "image_logo";

/// How the address of a small cover ends.
pub const SMALL_COVER: &'static str = "100x100bb.jpg";

/// How the address of the same cover in large ends.
pub const LARGE_COVER: &'static str = "512x512bb.jpg";

/// Where an answer keeps its list of candidates.
pub const RESULTS_KEY: &'static str = "results";

/// Where a candidate keeps its artist's name.
pub const ARTIST_KEY: &'static str = "artistName";

/// Where a candidate keeps its track's name.
pub const TRACK_KEY: &'static str = "trackName";

/// Where a candidate keeps the address of its small cover.
pub const COVER_KEY: &'static str = "artworkUrl100";

/// Whether a byte stands for itself in a query: a letter or a digit of ASCII,
/// or one of `-`, `.`, `_`, `~`.
pub open spec fn is_unreserved(byte: u8) -> bool {
    ||| ('0' as u8) <= byte <= ('9' as u8)
    ||| ('A' as u8) <= byte <= ('Z' as u8)
    ||| ('a' as u8) <= byte <= ('z' as u8)
    ||| byte == ('-' as u8)
    ||| byte == ('.' as u8)
    ||| byte == ('_' as u8)
    ||| byte == ('~' as u8)
}

/// The character of one hexadecimal digit, with capitals for ten and above.
pub open spec fn hex_digit(digit: u8) -> char
    recommends
        digit < 16,
{
    if digit < 10 {
        (('0' as u8) + digit) as char
    } else {
        (('A' as u8) + digit - 10) as char
    }
}

/// One byte as it stands in a query: itself, or `%` and its two hexadecimal digits.
pub open spec fn encoded_byte(byte: u8) -> Seq<char> {
    if is_unreserved(byte) {
        seq![byte as char]
    } else {
        seq!['%', hex_digit(byte / 16), hex_digit(byte % 16)]
    }
}

/// Bytes percent-encoded, one after the other.
pub open spec fn percent_encoded(bytes: Seq<u8>) -> Seq<char>
    decreases bytes.len(),
{
    if bytes.len() == 0 {
        Seq::empty()
    } else {
        encoded_byte(bytes[0]) + percent_encoded(bytes.drop_first())
    }
}

/// The address to search the catalogue for a track name.
pub open spec fn search_url_for(track_name: Seq<char>) -> Seq<char> {
    SEARCH_URL_HEAD@ + percent_encoded(encode_utf8(track_name)) + SEARCH_URL_TAIL@
}

/// `urlencoding::encode`: the UTF-8 bytes of the text, each unreserved byte
/// kept and every other one written as `%` and two capital hexadecimal digits.
#[verifier::external_body]
fn percent_encode(text: &str) -> (encoded: String)
    ensures
        encoded@ == percent_encoded(encode_utf8(text@)),
{
    urlencoding::encode(text).into_owned()
}

/// The address to search the catalogue for `track_name`.
pub fn search_url(track_name: &str) -> (url: String)
    ensures
        url@ == search_url_for(track_name@),
{
    let mut url = SEARCH_URL_HEAD.to_owned();
    let term = percent_encode(track_name);
    url.append(term.as_str());
    url.append(SEARCH_URL_TAIL);
    url
}

/// One entry of the catalogue's answer, as far as the choice reads it.
#[derive(Debug, PartialEq, Eq)]
pub struct Candidate {
    pub artist_name: Option<String>,
    pub track_name: Option<String>,
    pub artwork_url: Option<String>,
}

/// A [`Candidate`] as contracts see it.
pub struct CandidateView {
    pub artist_name: Option<Seq<char>>,
    pub track_name: Option<Seq<char>>,
    pub artwork_url: Option<Seq<char>>,
}

impl View for Candidate {
    type V = CandidateView;

    open spec fn view(&self) -> CandidateView {
        CandidateView {
            artist_name: viewed(self.artist_name),
            track_name: viewed(self.track_name),
            artwork_url: viewed(self.artwork_url),
        }
    }
}

/// The views of a list of candidates.
pub open spec fn views_of(candidates: Seq<Candidate>) -> Seq<CandidateView> {
    Seq::new(candidates.len(), |i: int| candidates[i]@)
}

/// Whether a candidate is the track: it names an artist and a track, and both
/// are the track's own up to the case of ASCII letters.
pub open spec fn is_match(candidate: CandidateView, track: TrackInfoView) -> bool {
    &&& candidate.artist_name matches Some(artist)
    &&& candidate.track_name matches Some(name)
    &&& ascii_folded(artist) == ascii_folded(track.artist_name)
    &&& ascii_folded(name) == ascii_folded(track.track_name)
}

/// The cover that a candidate offers for the track: the large form of its
/// cover, where it is the track and has a cover.
pub open spec fn cover_from(candidate: CandidateView, track: TrackInfoView) -> Option<Seq<char>> {
    if is_match(candidate, track) {
        match candidate.artwork_url {
            Some(url) => Some(replaced(url, SMALL_COVER@, LARGE_COVER@)),
            None => None,
        }
    } else {
        None
    }
}

/// The cover of the first candidate that offers one.
pub open spec fn first_cover(candidates: Seq<CandidateView>, track: TrackInfoView) -> Option<
    Seq<char>,
>
    decreases candidates.len(),
{
    if candidates.len() == 0 {
        None
    } else {
        match cover_from(candidates[0], track) {
            Some(url) => Some(url),
            None => first_cover(candidates.drop_first(), track),
        }
    }
}

/// The image to show: the cover found, or [`DEFAULT_IMAGE`].
pub open spec fn image_or_default(cover: Option<Seq<char>>) -> Seq<char> {
    match cover {
        Some(url) => url,
        None => DEFAULT_IMAGE@,
    }
}

/// The address of a cover in its large form.
pub fn large_cover(url: &str) -> (large: String)
    ensures
        large@ == replaced(url@, SMALL_COVER@, LARGE_COVER@),
{
    replace_all(url, SMALL_COVER, LARGE_COVER)
}

impl Candidate {
    /// Whether this candidate is `track`.
    pub fn matches(&self, track: &TrackInfo) -> (same: bool)
        ensures
            same == is_match(self@, track@),
    {
        match (&self.artist_name, &self.track_name) {
            (Some(artist), Some(name)) => eq_ignore_ascii_case(
                artist.as_str(),
                track.artist_name.as_str(),
            ) && eq_ignore_ascii_case(name.as_str(), track.track_name.as_str()),
            _ => false,
        }
    }

    /// The cover that this candidate offers for `track`.
    pub fn cover_for(&self, track: &TrackInfo) -> (cover: Option<String>)
        ensures
            viewed(cover) == cover_from(self@, track@),
    {
        if self.matches(track) {
            match &self.artwork_url {
                Some(url) => Some(large_cover(url.as_str())),
                None => None,
            }
        } else {
            None
        }
    }
}

/// Chooses the cover for `track` among the candidates of an answer: that of
/// the first candidate that is the track and has one.
pub fn pick_artwork(candidates: &Vec<Candidate>, track: &TrackInfo) -> (cover: Option<String>)
    ensures
        viewed(cover) == first_cover(views_of(candidates@), track@),
{
    let ghost all = views_of(candidates@);
    let mut i: usize = 0;
    assert(all.skip(0) =~= all);
    while i < candidates.len()
        invariant
            i <= candidates@.len(),
            all == views_of(candidates@),
            first_cover(all.skip(i as int), track@) == first_cover(all, track@),
        decreases candidates@.len() - i,
    {
        let ghost rest = all.skip(i as int);
        assert(rest[0] == candidates@[i as int]@);
        assert(rest.drop_first() =~= all.skip(i + 1));
        match candidates[i].cover_for(track) {
            Some(url) => {
                return Some(url);
            },
            None => {},
        }
        i += 1;
    }
    None
}

/// serde_json's `Value`, carried as it is. What it holds is read through
/// [`json_member`], [`json_elements`] and [`json_text`].
#[verifier::external_type_specification]
#[verifier::external_body]
pub struct ExValue(serde_json::Value);

/// The JSON value that a text holds, where it is well-formed JSON.
pub uninterp spec fn json_document(text: Seq<char>) -> Option<Value>;

/// The member of a JSON object under a key, where the value is an object and
/// has one.
pub uninterp spec fn json_member(value: Value, key: Seq<char>) -> Option<Value>;

/// The elements of a JSON array, where the value is one.
pub uninterp spec fn json_elements(value: Value) -> Option<Seq<Value>>;

/// The characters of a JSON string, where the value is one.
pub uninterp spec fn json_text(value: Value) -> Option<Seq<char>>;

/// `serde_json::from_str` for a `Value`: the value that the text holds, or
/// `None` where it is not one JSON value.
#[verifier::external_body]
fn parse_json(text: &str) -> (document: Option<Value>)
    ensures
        document == json_document(text@),
{
    serde_json::from_str(text).ok()
}

/// `Value::get` with a text key.
#[verifier::external_body]
fn member<'a>(value: &'a Value, key: &str) -> (found: Option<&'a Value>)
    ensures
        match found {
            Some(inner) => json_member(*value, key@) == Some(*inner),
            None => json_member(*value, key@) is None,
        },
{
    value.get(key)
}

/// `Value::as_array`.
#[verifier::external_body]
fn elements<'a>(value: &'a Value) -> (found: Option<&'a Vec<Value>>)
    ensures
        match found {
            Some(items) => json_elements(*value) == Some(items@),
            None => json_elements(*value) is None,
        },
{
    value.as_array()
}

/// `Value::as_str`.
#[verifier::external_body]
fn text_of<'a>(value: &'a Value) -> (found: Option<&'a str>)
    ensures
        match found {
            Some(text) => json_text(*value) == Some(text@),
            None => json_text(*value) is None,
        },
{
    value.as_str()
}

/// The text under a key of a JSON object; nothing where the value is no
/// object, has no such member, or holds something other than text there.
pub open spec fn member_text(value: Value, key: Seq<char>) -> Option<Seq<char>> {
    match json_member(value, key) {
        Some(inner) => json_text(inner),
        None => None,
    }
}

/// The candidate that one entry of an answer describes.
pub open spec fn candidate_in(entry: Value) -> CandidateView {
    CandidateView {
        artist_name: member_text(entry, ARTIST_KEY@),
        track_name: member_text(entry, TRACK_KEY@),
        artwork_url: member_text(entry, COVER_KEY@),
    }
}

/// The candidates that a list of entries describes.
pub open spec fn candidates_among(entries: Seq<Value>) -> Seq<CandidateView> {
    Seq::new(entries.len(), |i: int| candidate_in(entries[i]))
}

/// The candidates of an answer: the entries of the array under
/// [`RESULTS_KEY`], and none where there is no such array.
pub open spec fn candidates_in(answer: Value) -> Seq<CandidateView> {
    match json_member(answer, RESULTS_KEY@) {
        Some(results) => match json_elements(results) {
            Some(entries) => candidates_among(entries),
            None => Seq::empty(),
        },
        None => Seq::empty(),
    }
}

/// The candidates that the body of an answer holds, and none where the body
/// is not JSON.
pub open spec fn candidates_of(body: Seq<char>) -> Seq<CandidateView> {
    match json_document(body) {
        Some(answer) => candidates_in(answer),
        None => Seq::empty(),
    }
}

/// The image to show for a track, given the body of the catalogue's answer,
/// or nothing where the search failed.
pub open spec fn image_for(body: Option<Seq<char>>, track: TrackInfoView) -> Seq<char> {
    match body {
        Some(text) => image_or_default(first_cover(candidates_of(text), track)),
        None => DEFAULT_IMAGE@,
    }
}

/// The text under `key` in `value`.
fn text_under(value: &Value, key: &str) -> (found: Option<String>)
    ensures
        viewed(found) == member_text(*value, key@),
{
    match member(value, key) {
        Some(inner) => match text_of(inner) {
            Some(text) => Some(text.to_owned()),
            None => None,
        },
        None => None,
    }
}

/// Reads one entry of an answer.
pub fn candidate_from(entry: &Value) -> (candidate: Candidate)
    ensures
        candidate@ == candidate_in(*entry),
{
    Candidate {
        artist_name: text_under(entry, ARTIST_KEY),
        track_name: text_under(entry, TRACK_KEY),
        artwork_url: text_under(entry, COVER_KEY),
    }
}

/// Reads the candidates of an answer, in the order in which it lists them.
pub fn candidates_from(answer: &Value) -> (candidates: Vec<Candidate>)
    ensures
        views_of(candidates@) == candidates_in(*answer),
{
    let mut candidates: Vec<Candidate> = Vec::new();
    match member(answer, RESULTS_KEY) {
        Some(results) => match elements(results) {
            Some(entries) => {
                let mut i: usize = 0;
                while i < entries.len()
                    invariant
                        i <= entries@.len(),
                        candidates@.len() == i,
                        forall|j: int|
                            0 <= j < i ==> (#[trigger] candidates@[j])@ == candidate_in(
                                entries@[j],
                            ),
                    decreases entries@.len() - i,
                {
                    candidates.push(candidate_from(&entries[i]));
                    i += 1;
                }
                assert(views_of(candidates@) =~= candidates_among(entries@));
            },
            None => {
                assert(views_of(candidates@) =~= Seq::<CandidateView>::empty());
            },
        },
        None => {
            assert(views_of(candidates@) =~= Seq::<CandidateView>::empty());
        },
    }
    candidates
}

/// Reads the candidates out of the body of an answer. A body that is not
/// JSON, or not of the expected shape, holds none.
pub fn parse_candidates(body: &str) -> (candidates: Vec<Candidate>)
    ensures
        views_of(candidates@) == candidates_of(body@),
{
    match parse_json(body) {
        Some(answer) => candidates_from(&answer),
        None => {
            let candidates: Vec<Candidate> = Vec::new();
            assert(views_of(candidates@) =~= Seq::<CandidateView>::empty());
            candidates
        },
    }
}

/// The image to show for `track`: its cover where the answer in `body` offers
/// one, and [`DEFAULT_IMAGE`] where it offers none or the search failed.
pub fn resolve_image(body: Option<&str>, track: &TrackInfo) -> (image: String)
    ensures
        image@ == image_for(viewed_text(body), track@),
{
    let cover = match body {
        Some(text) => pick_artwork(&parse_candidates(text), track),
        None => None,
    };
    match cover {
        Some(url) => url,
        None => DEFAULT_IMAGE.to_owned(),
    }
}

/// The characters of a body that may be missing.
pub open spec fn viewed_text(body: Option<&str>) -> Option<Seq<char>> {
    match body {
        Some(text) => Some(text@),
        None => None,
    }
}

} // verus!
