//! The request that the mock reads and the game record that it hands out.

use vstd::prelude::*;
use vstd::string::StringExecFns;
use crate::path::export_path;

verus! {

/// A recorded game. The mock reads nothing of a record; it hands it out whole.
#[derive(Clone, Debug, PartialEq, Eq)]
pub struct GameJson {
    /// The identifier, in the casing in which the game was recorded.
    pub id: String,
}

/// A [`GameJson`] with its text as sequences of characters.
pub struct GameRecord {
    pub id: Seq<char>,
}

impl View for GameJson {
    type V = GameRecord;

    open spec fn view(&self) -> GameRecord {
        GameRecord { id: self.id@ }
    }
}

/// The options of an export request. A recorded game is served as it was
/// recorded, so the mock has no option to offer.
#[derive(Clone, Debug, Default)]
pub struct GetQuery {}

/// A request for the export of one game.
#[derive(Clone, Debug)]
pub struct GetRequest {
    /// The path of the resource that is asked for.
    pub path: String,
    /// The options that came with the request.
    pub query: GetQuery,
}

impl GetRequest {
    /// The request for the game `game_id`: its path is `/game/export/` followed by
    /// the identifier as given.
    pub fn new(game_id: &str, query: GetQuery) -> (request: GetRequest)
        ensures
            request.path@ == export_path(game_id@),
            request.query == query,
    {
        GetRequest { path: String::from_str("/game/export/").concat(game_id), query }
    }
}

} // verus!
