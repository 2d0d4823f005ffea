//! Turning the platform's locale identifier into a Unicode locale.

use vstd::prelude::*;
use vstd::string::StrSliceExecFns;

verus! {

/// The sign that starts the modifier of an ISO locale identifier, as in
/// `de_DE@currency=EUR`.
pub const MODIFIER_SIGN: char = '@';

/// `locale` is `ident` without its modifier: the part of `ident` before its
/// first modifier sign, or all of it where it has none.
pub open spec fn is_locale_of(ident: Seq<char>, locale: Seq<char>) -> bool {
    &&& locale.len() <= ident.len()
    &&& locale == ident.take(locale.len() as int)
    &&& forall|i: int| 0 <= i < locale.len() ==> locale[i] != MODIFIER_SIGN
    &&& locale.len() < ident.len() ==> ident[locale.len() as int] == MODIFIER_SIGN
}

/// Cuts the modifier off a locale identifier. Positions count characters.
pub fn strip_modifier(ident: &str) -> (locale: String)
    ensures
        is_locale_of(ident@, locale@),
{
    let n: usize = ident.unicode_len();
    let mut i: usize = 0;
    while i < n && ident.get_char(i) != MODIFIER_SIGN
        invariant
            n == ident@.len(),
            i <= n,
            forall|k: int| 0 <= k < i ==> ident@[k] != MODIFIER_SIGN,
        decreases n - i,
    {
        i = i + 1;
    }
    let head = ident.substring_char(0, i);
    assert(head@ =~= ident@.take(i as int));
    head.to_owned()
}

/// An identifier has one locale only: `is_locale_of` leaves no choice.
pub proof fn lemma_locale_is_unique(ident: Seq<char>, a: Seq<char>, b: Seq<char>)
    requires
        is_locale_of(ident, a),
        is_locale_of(ident, b),
    ensures
        a == b,
{
    if a.len() < b.len() {
        assert(b[a.len() as int] == ident[a.len() as int]);
    } else if b.len() < a.len() {
        assert(a[b.len() as int] == ident[b.len() as int]);
    }
    assert(a =~= b);
}

/// An identifier without modifier sign is its own locale.
pub proof fn lemma_locale_without_modifier(ident: Seq<char>)
    requires
        forall|i: int| 0 <= i < ident.len() ==> ident[i] != MODIFIER_SIGN,
    ensures
        is_locale_of(ident, ident),
{
    assert(ident.take(ident.len() as int) =~= ident);
}

} // verus!
