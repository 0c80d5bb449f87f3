//! Properties that relate several operations of the string types.
use vstd::prelude::*;
use vstd::std_specs::cmp::PartialEqSpec;
use vstd::string::StringSliceAdditionalSpecFns;

use crate::string::{fits_inline, KString, CAPACITY};
use crate::string_cow::KStringCow;
use crate::string_ref::KStringRef;

verus! {

/// Round trip: building a `KString` from a `String` and reading it back, as a
/// borrowed string or as a new `String`, gives the original characters.
pub proof fn law_round_trip(s: String, k: KString, borrowed: &str, back: String)
    requires
        call_ensures(KString::from_string, (s,), k),
        call_ensures(KString::as_str, (&k,), borrowed),
        call_ensures(KString::into_string, (k,), back),
    ensures
        borrowed@ == s@,
        back@ == s@,
{
}

/// Equality does not depend on the representation: the same characters taken
/// as a `'static` string, from a `String`, or built inline all compare equal.
pub proof fn law_equality_ignores_representation(
    lit: &'static str,
    owned: String,
    borrowed: &str,
    a: KString,
    b: KString,
    c: Option<KString>,
)
    requires
        lit@ == owned@,
        owned@ == borrowed@,
        call_ensures(KString::from_static, (lit,), a),
        call_ensures(KString::from_string, (owned,), b),
        call_ensures(KString::try_inline, (borrowed,), c),
    ensures
        a.eq_spec(&b),
        fits_inline(borrowed@) ==> c is Some,
        c matches Some(i) ==> a.eq_spec(&i) && b.eq_spec(&i),
{
}

/// The inline/heap boundary is inclusive and the same on every path that
/// copies borrowed data into an owned value: directly, through a reference
/// view, or through a borrowed cow. A string of exactly `CAPACITY` bytes is
/// stored inline; one byte more and it goes to the heap.
pub proof fn law_inline_boundary(
    s: &str,
    direct: KString,
    view: KStringRef,
    from_view: KString,
    cow: KStringCow,
    from_cow: KString,
)
    requires
        call_ensures(KString::from_ref, (s,), direct),
        call_ensures(KStringRef::from_ref, (s,), view),
        call_ensures(KStringRef::to_owned, (&view,), from_view),
        call_ensures(KStringCow::from_ref, (s,), cow),
        call_ensures(KStringCow::into_owned, (cow,), from_cow),
    ensures
        direct@ == s@ && from_view@ == s@ && from_cow@ == s@,
        s.spec_bytes().len() <= CAPACITY ==> direct.is_inline() && from_view.is_inline()
            && from_cow.is_inline(),
        s.spec_bytes().len() == CAPACITY + 1 ==> direct.is_heap() && from_view.is_heap()
            && from_cow.is_heap(),
{
}

} // verus!
