//! A deterministic stand-in for the game export endpoint of a chess-game API.
//!
//! A request is reduced to its path. The path matcher takes the identifier out
//! of a path of the form `/game/export/{id}`; the fixture resolver lowers the
//! identifier and looks it up in a fixed catalog of recorded games. The answer
//! is a copy of the recorded game, or an error that says what was expected.
//! Nothing here touches the network, and nothing is kept between two calls.

pub mod client;
pub mod error;
pub mod fixtures;
pub mod model;
pub mod path;
pub mod text;

pub use client::{LichessApi, Mock};
pub use error::Error;
pub use model::{GameJson, GetQuery, GetRequest};
