//! Rules of a small tile-based farming game: crop growth, sprite animation,
//! tool pickup and use, player movement and ground-tile layout.

pub mod animation;
pub mod collision;
pub mod growth;
pub mod keyboard;
pub mod movement;
pub mod places;
pub mod tiles;
pub mod tools;
