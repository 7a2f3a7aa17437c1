//! Pieces of the editor-configuration helper that are pure: the supported
//! editors and how a token is shown on screen.

use vstd::prelude::*;

use crate::text::push_str;

verus! {

/// Supported AI editors.
#[derive(Debug, Clone, Copy, PartialEq, Eq, Structural)]
pub enum EditorTarget {
    ClaudeCode,
    ClaudeDesktop,
    Cursor,
    Zed,
}

/// A token as shown on screen: its first and last four characters, or only
/// stars when it is too short to hide anything.
pub open spec fn masked(token: Seq<char>) -> Seq<char> {
    if token.len() <= 8 {
        "****"@
    } else {
        token.take(4) + "..."@ + token.skip(token.len() - 4)
    }
}

/// Mask a token for display: show first 4 and last 4 chars.
pub fn mask_token(token: &str) -> (r: String)
    ensures
        r@ == masked(token@),
{
    let n = token.unicode_len();
    if n <= 8 {
        return String::from_str("****");
    }
    let mut s = String::from_str(token.substring_char(0, 4));
    push_str(&mut s, "...");
    push_str(&mut s, token.substring_char(n - 4, n));
    proof {
        assert(token@.subrange(0, 4) =~= token@.take(4));
        assert(token@.subrange(n - 4, n as int) =~= token@.skip(n - 4));
    }
    s
}

} // verus!
