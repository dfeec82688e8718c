//! What "blank" means for client-supplied text.
//!
//! Several request fields are rejected when, after trimming, nothing is left
//! of them. This module fixes the whitespace alphabet once — the Unicode
//! White_Space set, the same characters `char::is_whitespace` recognizes and
//! `str::trim` removes — and gives the one executable check the rest of the
//! crate uses.

use vstd::prelude::*;
use vstd::string::StrSliceExecFns;

verus! {

/// Whitespace, as trimming understands it: the Unicode White_Space set.
pub open spec fn is_space(c: char) -> bool {
    let u = c as u32;
    ||| (0x0009 <= u && u <= 0x000D)
    ||| u == 0x0020
    ||| u == 0x0085
    ||| u == 0x00A0
    ||| u == 0x1680
    ||| (0x2000 <= u && u <= 0x200A)
    ||| u == 0x2028
    ||| u == 0x2029
    ||| u == 0x202F
    ||| u == 0x205F
    ||| u == 0x3000
}

/// Text that trims down to nothing (empty text counts).
pub open spec fn all_space(s: Seq<char>) -> bool {
    forall|i: int| 0 <= i < s.len() ==> is_space(s[i])
}

/// Does this text trim down to nothing?
pub fn is_blank(s: &str) -> (r: bool)
    ensures
        r == all_space(s@),
{
    let n = s.unicode_len();
    let mut i: usize = 0;
    let mut only_space = true;
    while i < n
        invariant
            i <= n,
            n == s@.len(),
            only_space == all_space(s@.take(i as int)),
        decreases n - i,
    {
        let c = s.get_char(i);
        let u = c as u32;
        let c_is_space = (0x0009 <= u && u <= 0x000D) || u == 0x0020 || u == 0x0085 || u == 0x00A0
            || u == 0x1680 || (0x2000 <= u && u <= 0x200A) || u == 0x2028 || u == 0x2029
            || u == 0x202F || u == 0x205F || u == 0x3000;
        proof {
            assert(s@.take(i + 1) =~= s@.take(i as int).push(s@[i as int]));
            if !c_is_space {
                assert(!is_space(s@.take(i + 1)[i as int]));
            }
        }
        only_space = only_space && c_is_space;
        i += 1;
    }
    proof {
        assert(s@.take(n as int) =~= s@);
    }
    only_space
}

} // verus!
