//! The core of a "now playing" service: it turns what a media player reports,
//! poll after poll, into a stream of change events, keeps the one canonical
//! playback state, and plans what a presence display should show.
//!
//! Nothing here sleeps, awaits or locks. A caller polls the player, hands each
//! report to [`state::AppState::apply_tick`], publishes the event that comes
//! back, and carries out the actions that [`presence::Synchronizer`] decides on.

pub mod args;
pub mod artwork;
pub mod hub;
pub mod presence;
pub mod state;
pub mod text;
pub mod track;
