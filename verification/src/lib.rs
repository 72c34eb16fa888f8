//! Remote control of video playback on a second screen.
//!
//! A controller holds a playlist and tells a player what to show; the
//! player decodes the file, shows its frames and reports when it has ended.
//! This library holds the rules of both sides: the text encoding of the
//! messages ([`protocol`], [`transport`]), the controller's playlist
//! ([`playlist`]), and the player's playback engine ([`player`],
//! [`session`], [`frame`], [`media`]). Connections, decoding and drawing
//! are the caller's.

pub mod command;
pub mod frame;
pub mod media;
pub mod path;
pub mod player;
pub mod playlist;
pub mod protocol;
pub mod session;
pub mod skip;
pub mod text;
pub mod transport;

pub use command::{ProjectorCommand, Source};
pub use skip::Skip;
