//! Which strings name an item: the rule that `proc_macro2::Ident::new`
//! enforces before it builds an identifier.

use vstd::prelude::*;
use crate::outside::{is_xid_continue, is_xid_start, xid_continue, xid_start};

verus! {

/// An ASCII decimal digit.
pub open spec fn is_ascii_digit(c: char) -> bool {
    '0' <= c <= '9'
}

/// The strings that `proc_macro2::Ident::new` accepts: not empty, not made
/// of ASCII digits alone, a first character that is `_` or `XID_Start`, and
/// `XID_Continue` characters after it.
pub open spec fn is_ident(s: Seq<char>) -> bool {
    &&& s.len() > 0
    &&& !(forall|i: int| 0 <= i < s.len() ==> is_ascii_digit(#[trigger] s[i]))
    &&& (s[0] == '_' || xid_start(s[0]))
    &&& forall|i: int| 1 <= i < s.len() ==> xid_continue(#[trigger] s[i])
}

/// Tells whether `s` may name an item: whether an identifier can be made
/// of it.
pub fn is_valid_ident(s: &str) -> (b: bool)
    ensures
        b == is_ident(s@),
        b ==> s@.len() > 0,
        b ==> (s@[0] == '_' || xid_start(s@[0])),
        b ==> forall|i: int| 1 <= i < s@.len() ==> xid_continue(#[trigger] s@[i]),
{
    let v = crate::text::chars_of(s);
    let n = v.len();
    if n == 0 {
        return false;
    }
    let mut all_digits = true;
    let mut i: usize = 0;
    while i < n
        invariant
            n == v@.len(),
            i <= n,
            all_digits == (forall|k: int| 0 <= k < i ==> is_ascii_digit(#[trigger] v@[k])),
        decreases n - i,
    {
        let c = v[i];
        if !('0' <= c && c <= '9') {
            all_digits = false;
        }
        i = i + 1;
    }
    if all_digits {
        return false;
    }
    let first = v[0];
    if !(first == '_' || is_xid_start(first)) {
        return false;
    }
    let mut j: usize = 1;
    while j < n
        invariant
            n == v@.len(),
            1 <= j <= n,
            v@ == s@,
            forall|k: int| 1 <= k < j ==> xid_continue(#[trigger] v@[k]),
        decreases n - j,
    {
        if !is_xid_continue(v[j]) {
            assert(!xid_continue(v@[j as int]));
            return false;
        }
        j = j + 1;
    }
    true
}

} // verus!
