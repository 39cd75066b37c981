//! Game rules of a small dungeon game: hero and skeleton classes, the asset
//! paths derived from them, and the decisions the server and the client take
//! on player input.

pub mod hero;
pub mod skeleton;
pub mod assets;
pub mod messages;
pub mod client;
pub mod server;
