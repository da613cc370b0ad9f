//! The items of `proc-macro2`, `unicode-ident` and std that the library
//! relies on.

use vstd::prelude::*;

verus! {

/// `proc_macro2::Span`, a source location: the library only carries it.
#[verifier::external_type_specification]
#[verifier::external_body]
pub struct ExSpan(proc_macro2::Span);

/// `proc_macro2::Span` derives `Clone` beside `Copy`: a clone is the span
/// itself.
pub assume_specification[ <proc_macro2::Span as Clone>::clone ](s: &proc_macro2::Span) -> (r:
    proc_macro2::Span)
    ensures
        r == *s,
;

/// Calls `proc_macro2::Span::call_site`, the span of the current macro
/// invocation. Nothing is promised of the span: it depends on where the
/// macro runs.
#[verifier::external_body]
pub(crate) fn call_site() -> proc_macro2::Span {
    proc_macro2::Span::call_site()
}

/// Whether `unicode_ident::is_xid_start` holds of a character (Unicode
/// `XID_Start`).
pub uninterp spec fn xid_start(c: char) -> bool;

/// Whether `unicode_ident::is_xid_continue` holds of a character (Unicode
/// `XID_Continue`).
pub uninterp spec fn xid_continue(c: char) -> bool;

/// Calls `unicode_ident::is_xid_start`; the answer is the named property of
/// the character and nothing more is claimed of it.
#[verifier::external_body]
pub(crate) fn is_xid_start(c: char) -> (b: bool)
    ensures
        b == xid_start(c),
{
    unicode_ident::is_xid_start(c)
}

/// Calls `unicode_ident::is_xid_continue`; the answer is the named property
/// of the character and nothing more is claimed of it.
#[verifier::external_body]
pub(crate) fn is_xid_continue(c: char) -> (b: bool)
    ensures
        b == xid_continue(c),
{
    unicode_ident::is_xid_continue(c)
}


/// `impl From<&str> for String`: the string holds a copy of the text.
pub assume_specification<'_0, 'a>[ <String as From<&'_0 str>>::from ](s: &'a str) -> (r: String)
    ensures
        r@ == s@,
;

/// `impl From<&String> for String`: the string is a clone of the given one.
pub assume_specification<'_0, 'a>[ <String as From<&'_0 String>>::from ](s: &'a String) -> (r: String)
    ensures
        r@ == s@,
;

/// `impl<T> From<T> for T`: the conversion gives its argument back.
pub assume_specification<A>[ <A as core::convert::From<A>>::from ](t: A) -> (r: A)
    ensures
        r == t,
;

} // verus!
