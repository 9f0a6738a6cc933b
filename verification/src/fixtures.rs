//! The fixture resolver: the catalog of recorded games and the lookup in it.

use vstd::prelude::*;
use vstd::utf8::is_ascii_chars;
use crate::client::{LichessApi, Mock};
use crate::error::{Error, ErrorView};
use crate::model::{GameJson, GameRecord};
use crate::text::{
    ascii_lowercase, lemma_ascii_lowercase_keeps_range, lowercase, lowercase_of,
    same_ignoring_ascii_case, same_text,
};

verus! {

/// The catalog: each recorded game under its key, the identifier in lowercase.
/// A record keeps the casing in which it was recorded.
pub open spec fn catalog() -> Map<Seq<char>, GameRecord> {
    map![
        "0j36wf0d"@ => GameRecord { id: "0J36WF0D"@ },
        "qapyipom"@ => GameRecord { id: "qAPyiPom"@ },
    ]
}

/// The message for an identifier that the catalog does not hold. It lists every
/// key of the catalog.
pub open spec fn unknown_game_message() -> Seq<char> {
    "supported games are only: 0j36wf0d, qapyipom"@
}

/// What a lookup under `key` gives: the record filed under it, or the error that
/// lists the catalog.
pub open spec fn game_for_key(key: Seq<char>) -> Result<GameRecord, ErrorView> {
    if catalog().dom().contains(key) {
        Ok(catalog()[key])
    } else {
        Err(ErrorView::Response(unknown_game_message()))
    }
}

/// A result with its text as sequences of characters.
pub open spec fn outcome(result: Result<GameJson, Error>) -> Result<GameRecord, ErrorView> {
    match result {
        Ok(game) => Ok(game@),
        Err(error) => Err(error@),
    }
}

/// The catalog holds two games and no other. Each key is written in ASCII and in
/// lowercase, and the message for an unknown identifier lists them all.
pub proof fn lemma_catalog_is_fixed()
    ensures
        catalog().dom() =~= set!["0j36wf0d"@, "qapyipom"@],
        catalog()["0j36wf0d"@] == (GameRecord { id: "0J36WF0D"@ }),
        catalog()["qapyipom"@] == (GameRecord { id: "qAPyiPom"@ }),
        forall|key: Seq<char>| #[trigger]
            catalog().dom().contains(key) ==> is_ascii_chars(key) && ascii_lowercase(key) == key,
        unknown_game_message() == "supported games are only: "@ + "0j36wf0d"@ + ", "@
            + "qapyipom"@,
{
    reveal_strlit("0j36wf0d");
    reveal_strlit("qapyipom");
    reveal_strlit("supported games are only: ");
    reveal_strlit(", ");
    reveal_strlit("supported games are only: 0j36wf0d, qapyipom");
    assert("0j36wf0d"@[0] != "qapyipom"@[0]);
    assert(ascii_lowercase("0j36wf0d"@) =~= "0j36wf0d"@);
    assert(ascii_lowercase("qapyipom"@) =~= "qapyipom"@);
    assert(unknown_game_message() =~= "supported games are only: "@ + "0j36wf0d"@ + ", "@
        + "qapyipom"@);
}

/// An identifier that differs from a key of the catalog at most in the case of
/// its letters is written in ASCII, and its lowercase form is that key: so the
/// lookup of any casing of a key finds the game filed under it.
pub proof fn lemma_any_casing_names_its_key(id: Seq<char>, key: Seq<char>)
    requires
        catalog().dom().contains(key),
        same_ignoring_ascii_case(id, key),
    ensures
        is_ascii_chars(id),
        ascii_lowercase(id) == key,
        game_for_key(ascii_lowercase(id)) == Ok::<GameRecord, ErrorView>(catalog()[key]),
{
    lemma_catalog_is_fixed();
    lemma_ascii_lowercase_keeps_range(id);
}

/// A key that the catalog does not hold is refused with the message that lists
/// the whole catalog.
pub proof fn lemma_unknown_key_is_refused(key: Seq<char>)
    requires
        key != "0j36wf0d"@,
        key != "qapyipom"@,
    ensures
        game_for_key(key) == Err::<GameRecord, ErrorView>(
            ErrorView::Response("supported games are only: 0j36wf0d, qapyipom"@),
        ),
{
    lemma_catalog_is_fixed();
}

/// An identifier written in ASCII that is no casing of a key of the catalog is
/// refused with the message that lists the whole catalog.
pub proof fn lemma_other_ascii_id_is_refused(id: Seq<char>)
    requires
        is_ascii_chars(id),
        !same_ignoring_ascii_case(id, "0j36wf0d"@),
        !same_ignoring_ascii_case(id, "qapyipom"@),
    ensures
        game_for_key(ascii_lowercase(id)) == Err::<GameRecord, ErrorView>(
            ErrorView::Response("supported games are only: 0j36wf0d, qapyipom"@),
        ),
{
    lemma_catalog_is_fixed();
}

/// Lookups repeat: whatever two lookups of one identifier return, the two results
/// are equal, record for record and message for message. Nothing that a caller
/// does with a result it was handed has a part in the next one.
pub proof fn lemma_lookups_repeat(
    id: Seq<char>,
    first: Result<GameJson, Error>,
    second: Result<GameJson, Error>,
)
    requires
        outcome(first) == game_for_key(lowercase_of(id)),
        outcome(second) == game_for_key(lowercase_of(id)),
    ensures
        outcome(first) == outcome(second),
        first matches Ok(game) ==> second is Ok && second->Ok_0.id@ == game.id@,
        first matches Err(error) ==> second is Err && second->Err_0@ == error@,
{
}

impl LichessApi<Mock> {
    /// Looks a game up under its key, the identifier as the catalog files it.
    pub fn game_by_key(&self, key: &str) -> (result: Result<GameJson, Error>)
        ensures
            outcome(result) == game_for_key(key@),
    {
        proof {
            lemma_catalog_is_fixed();
        }
        if same_text(key, "0j36wf0d") {
            Ok(GameJson { id: "0J36WF0D".to_owned() })
        } else if same_text(key, "qapyipom") {
            Ok(GameJson { id: "qAPyiPom".to_owned() })
        } else {
            Err(Error::Response("supported games are only: 0j36wf0d, qapyipom".to_owned()))
        }
    }

    /// Looks a game up by its identifier in any casing. The record that comes back
    /// is a copy of its own, with the identifier as it was recorded.
    pub fn game_by_id(&self, game_id: &str) -> (result: Result<GameJson, Error>)
        ensures
            outcome(result) == game_for_key(lowercase_of(game_id@)),
            is_ascii_chars(game_id@) ==> outcome(result) == game_for_key(
                ascii_lowercase(game_id@),
            ),
            forall|key: Seq<char>|
                catalog().dom().contains(key) && #[trigger] same_ignoring_ascii_case(
                    game_id@,
                    key,
                ) ==> outcome(result) == Ok::<GameRecord, ErrorView>(catalog()[key]),
    {
        proof {
            assert forall|key: Seq<char>|
                catalog().dom().contains(key) && #[trigger] same_ignoring_ascii_case(
                    game_id@,
                    key,
                ) implies is_ascii_chars(game_id@) && game_for_key(ascii_lowercase(game_id@))
                == Ok::<GameRecord, ErrorView>(catalog()[key]) by {
                lemma_any_casing_names_its_key(game_id@, key);
            }
        }
        let key = lowercase(game_id);
        self.game_by_key(key.as_str())
    }
}

} // verus!
