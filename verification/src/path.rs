//! The path matcher: recognises `/game/export/{id}` and extracts the identifier.

use vstd::prelude::*;
use vstd::string::StrSliceExecFns;
use crate::client::{LichessApi, Mock};
use crate::text::{has_char, starts_with};

verus! {

/// The fixed text that precedes the identifier in an export path.
pub open spec fn export_prefix() -> Seq<char> {
    "/game/export/"@
}

/// An identifier is one or more characters, none of them a slash.
pub open spec fn is_game_id(id: Seq<char>) -> bool {
    id.len() > 0 && !id.contains('/')
}

/// The path that names the export of the game `id`.
pub open spec fn export_path(id: Seq<char>) -> Seq<char> {
    export_prefix() + id
}

/// The identifier that `path` names: what follows the prefix, if that is an
/// identifier and the path begins with the prefix.
pub open spec fn path_game_id(path: Seq<char>) -> Option<Seq<char>> {
    let n: int = export_prefix().len() as int;
    if path.len() >= n && path.subrange(0, n) == export_prefix() && is_game_id(path.skip(n)) {
        Some(path.skip(n))
    } else {
        None
    }
}

/// The characters of an optional string.
pub open spec fn text_of(s: Option<String>) -> Option<Seq<char>> {
    match s {
        Some(t) => Some(t@),
        None => None,
    }
}

impl LichessApi<Mock> {
    /// Extracts the identifier from a path of the form `/game/export/{id}`, as it
    /// stands in the path; any other path names no game.
    pub fn extract_game_id(path: &str) -> (id: Option<String>)
        ensures
            text_of(id) == path_game_id(path@),
    {
        let prefix = "/game/export/";
        if !starts_with(path, prefix) {
            return None;
        }
        let from: usize = prefix.unicode_len();
        let to: usize = path.unicode_len();
        let tail = path.substring_char(from, to);
        assert(tail@ == path@.skip(from as int));
        if from == to || has_char(tail, '/') {
            return None;
        }
        Some(tail.to_owned())
    }
}

/// Every path made of the prefix and an identifier yields that identifier, in
/// the casing in which it stands in the path.
pub proof fn lemma_export_path_yields_id(id: Seq<char>)
    requires
        is_game_id(id),
    ensures
        path_game_id(export_path(id)) == Some(id),
{
    let n: int = export_prefix().len() as int;
    let path = export_path(id);
    assert(path.subrange(0, n) =~= export_prefix());
    assert(path.skip(n) =~= id);
}

/// A path yields an identifier exactly if it is the prefix followed by an
/// identifier, and then it yields that one: every other path yields none.
pub proof fn lemma_only_export_paths_yield_an_id(path: Seq<char>)
    ensures
        path_game_id(path) matches Some(id) ==> is_game_id(id) && path == export_path(id),
        path_game_id(path) is Some <==> exists|id: Seq<char>|
            is_game_id(id) && path == #[trigger] export_path(id),
{
    let n: int = export_prefix().len() as int;
    if path_game_id(path) is Some {
        let id = path.skip(n);
        assert(path =~= path.subrange(0, n) + id);
        assert(path == export_path(id));
    }
    if exists|id: Seq<char>| is_game_id(id) && path == #[trigger] export_path(id) {
        let id = choose|id: Seq<char>| is_game_id(id) && path == #[trigger] export_path(id);
        lemma_export_path_yields_id(id);
    }
}

/// A path that ends in a slash yields no identifier.
pub proof fn lemma_trailing_slash_yields_none(path: Seq<char>)
    requires
        path.len() > 0,
        path.last() == '/',
    ensures
        path_game_id(path) is None,
{
    let n: int = export_prefix().len() as int;
    if path.len() > n {
        let tail = path.skip(n);
        assert(tail[tail.len() - 1] == '/');
    }
}

/// A path in which anything stands before the prefix yields no identifier,
/// whatever follows.
pub proof fn lemma_leading_content_yields_none(lead: Seq<char>, id: Seq<char>)
    requires
        lead.len() > 0,
    ensures
        path_game_id(lead + export_path(id)) is None,
{
    reveal_strlit("/game/export/");
    let n: int = export_prefix().len() as int;
    let path = lead + export_path(id);
    let tail = path.skip(n);
    let at: int = lead.len() - 1;
    assert(export_prefix()[n - 1] == '/');
    assert(path[lead.len() + n - 1] == '/');
    assert(tail[at] == '/');
}

/// A path in which a further segment follows the identifier yields none.
pub proof fn lemma_extra_segment_yields_none(id: Seq<char>, rest: Seq<char>)
    ensures
        path_game_id(export_path(id) + seq!['/'] + rest) is None,
{
    let n: int = export_prefix().len() as int;
    let path = export_path(id) + seq!['/'] + rest;
    let tail = path.skip(n);
    assert(tail[id.len() as int] == '/');
}

} // verus!
