//! Verified core of a terminal video-platform client: the OAuth device-flow
//! token manager, plus the small pure helpers the client's collaborators use.
pub mod text;
pub mod token;
pub mod flow;
pub mod auth;
pub mod laws;
pub mod i18n;
pub mod player;
pub mod catalog;
pub mod dates;
pub mod setup;
pub mod listing;
pub mod playback;
