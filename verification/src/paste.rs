//! The text pasted into the active terminal when paths are dropped on a
//! terminal pane: every path quoted behind a space, and a trailing space.

use vstd::prelude::*;

use itertools::Itertools;

verus! {

/// The quoted, escaped form of a path, as std's `Debug` formatting renders
/// it; the result depends on the path's characters alone.
pub uninterp spec fn path_quoted(path: Seq<char>) -> Seq<char>;

/// Relies on std's `Debug` formatting for `str`: a quoted, escaped form of
/// the path that depends on its characters alone.
#[verifier::external_body]
fn quote_path(path: &str) -> (r: String)
    ensures
        r@ == path_quoted(path@),
{
    format!("{:?}", path)
}

/// The concatenation of the pieces, in order.
pub open spec fn concat_pieces(pieces: Seq<Seq<char>>) -> Seq<char>
    decreases pieces.len(),
{
    if pieces.len() == 0 {
        Seq::empty()
    } else {
        pieces[0] + concat_pieces(pieces.drop_first())
    }
}

/// Relies on itertools' `join` with an empty separator: the concatenation
/// of the given strings, in order.
#[verifier::external_body]
fn join_all(parts: Vec<String>) -> (r: String)
    ensures
        r@ == concat_pieces(parts.deep_view()),
{
    parts.into_iter().join("")
}

/// The pieces of the paste text: one quoted path behind a space, per path.
pub open spec fn paste_pieces(paths: Seq<Seq<char>>) -> Seq<Seq<char>> {
    paths.map_values(|p: Seq<char>| " "@ + path_quoted(p))
}

/// The whole paste text: the pieces run together, then one more space.
pub open spec fn paste_text(paths: Seq<Seq<char>>) -> Seq<char> {
    concat_pieces(paste_pieces(paths)) + " "@
}

/// Build the text pasted into the active terminal for the given paths.
pub fn paste_text_for_paths(paths: &Vec<String>) -> (r: String)
    ensures
        r@ == paste_text(paths.deep_view()),
{
    let mut pieces: Vec<String> = Vec::new();
    let mut i: usize = 0;
    while i < paths.len()
        invariant
            i <= paths@.len(),
            pieces@.len() == i,
            forall|j: int| 0 <= j < i ==> (#[trigger] pieces@[j])@ == " "@ + path_quoted(
                paths@[j]@,
            ),
        decreases paths@.len() - i,
    {
        let mut piece = String::from_str(" ");
        let quoted = quote_path(paths[i].as_str());
        piece.append(quoted.as_str());
        pieces.push(piece);
        i = i + 1;
    }
    proof {
        assert(forall|j: int|
            0 <= j < paths@.len() ==> #[trigger] paths.deep_view()[j] == paths@[j]@);
        assert(pieces.deep_view() =~= paste_pieces(paths.deep_view()));
    }
    let mut r = join_all(pieces);
    r.append(" ");
    r
}

} // verus!
