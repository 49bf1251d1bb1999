//! Which tokens can serve as credentials.

use vstd::prelude::*;

verus! {

/// Whether a character may stand in a token: any but the control characters,
/// of which only the tab is let through.
pub open spec fn token_char_usable(c: char) -> bool {
    c == '\t' || (' ' <= c && c != '\x7f')
}

/// Whether a token can form a usable client. The client presents the token in
/// a header of each request, and a header takes no control character other
/// than the tab.
pub open spec fn token_usable(token: Seq<char>) -> bool {
    forall|i: int| 0 <= i < token.len() ==> token_char_usable(#[trigger] token[i])
}

/// Tells whether a token can form a usable client.
pub fn is_usable_token(token: &str) -> (usable: bool)
    ensures
        usable == token_usable(token@),
{
    let mut usable: bool = true;
    for c in iter: token.chars()
        invariant
            iter.seq() == token@,
            usable == forall|k: int|
                0 <= k < iter.index() ==> token_char_usable(#[trigger] token@[k]),
    {
        usable = usable && (c == '\t' || (' ' <= c && c != '\x7f'));
    }
    usable
}

} // verus!
