//! The client and its entry points.

use vstd::prelude::*;
use vstd::std_specs::convert::IntoSpec;
use vstd::utf8::is_ascii_chars;
use crate::error::{Error, ErrorView};
use crate::fixtures::{catalog, game_for_key, outcome};
use crate::model::{GameJson, GameRecord, GetRequest};
use crate::path::{
    export_path, export_prefix, is_game_id, lemma_export_path_yields_id,
    lemma_only_export_paths_yield_an_id, path_game_id,
};
use crate::text::{ascii_lowercase, lowercase_of, same_ignoring_ascii_case};

verus! {

/// The transport that answers from recorded games instead of the network.
#[derive(Clone, Copy, Debug, Default)]
pub struct Mock;

/// A client of the API over the transport `C`.
pub struct LichessApi<C> {
    /// The transport.
    pub client: C,
    /// The token for transports that sign their requests. The mock never reads it.
    pub bearer_auth: Option<String>,
}

impl<C> LichessApi<C> {
    /// A client over `client`, with the token that it was given.
    pub fn new(client: C, bearer_auth: Option<String>) -> (api: Self)
        ensures
            api.client == client,
            api.bearer_auth == bearer_auth,
    {
        LichessApi { client, bearer_auth }
    }
}

/// The message for a path that is not of the form `/game/export/{id}`.
pub open spec fn invalid_path_message() -> Seq<char> {
    "invalid path, expected /game/export/{game_id}"@
}

/// What a request for `path` is answered with: the outcome of the lookup of the
/// identifier that the path names, or the error for a path that names none.
pub open spec fn answer(path: Seq<char>) -> Result<GameRecord, ErrorView> {
    match path_game_id(path) {
        Some(id) => game_for_key(lowercase_of(id)),
        None => Err(ErrorView::Response(invalid_path_message())),
    }
}

impl LichessApi<Mock> {
    /// Answers a request for the export of one game: the recorded game that the
    /// path names, in whatever casing it names it, or the reason why there is none.
    pub fn export_one_game_sync(&self, request: GetRequest) -> (result: Result<GameJson, Error>)
        ensures
            outcome(result) == answer(request.path@),
            path_game_id(request.path@) matches Some(id) ==> (is_ascii_chars(id) ==> outcome(
                result,
            ) == game_for_key(ascii_lowercase(id))),
            path_game_id(request.path@) matches Some(id) ==> (forall|key: Seq<char>|
                catalog().dom().contains(key) && #[trigger] same_ignoring_ascii_case(id, key)
                    ==> outcome(result) == Ok::<GameRecord, ErrorView>(catalog()[key])),
    {
        match Self::extract_game_id(request.path.as_str()) {
            Some(game_id) => self.game_by_id(game_id.as_str()),
            None => Err(
                Error::Response("invalid path, expected /game/export/{game_id}".to_owned()),
            ),
        }
    }

    /// Answers a request, given as anything that converts into one. Where the
    /// conversion is specified, the answer is that to the converted request; in
    /// any case it is the answer to some path.
    pub fn export_one_game<R: Into<GetRequest>>(&self, request: R) -> (result: Result<
        GameJson,
        Error,
    >)
        ensures
            R::obeys_into_spec() ==> outcome(result) == answer(request.into_spec().path@),
            exists|path: Seq<char>| outcome(result) == #[trigger] answer(path),
    {
        let converted: GetRequest = request.into();
        let ghost path = converted.path@;
        let result = self.export_one_game_sync(converted);
        assert(outcome(result) == answer(path));
        result
    }
}

/// A request made for an identifier is answered by the lookup of that
/// identifier; one made for a text that is no identifier, being empty or holding
/// a slash, is refused as an invalid path.
pub proof fn lemma_request_for_id_is_looked_up(id: Seq<char>)
    ensures
        is_game_id(id) ==> answer(export_path(id)) == game_for_key(lowercase_of(id)),
        !is_game_id(id) ==> answer(export_path(id)) == Err::<GameRecord, ErrorView>(
            ErrorView::Response(invalid_path_message()),
        ),
{
    if is_game_id(id) {
        lemma_export_path_yields_id(id);
    } else {
        let path = export_path(id);
        lemma_only_export_paths_yield_an_id(path);
        if path_game_id(path) is Some {
            let other = path_game_id(path)->Some_0;
            assert(export_path(other) == export_path(id));
            assert(other =~= export_path(other).skip(export_prefix().len() as int));
            assert(id =~= export_path(id).skip(export_prefix().len() as int));
        }
    }
}

} // verus!
