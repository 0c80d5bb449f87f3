//! A string that borrows its data until an owned value is needed.
use std::borrow::Cow;
use vstd::prelude::*;

use crate::backend::{boxed_from_str, boxed_str_into_string, BoxedStr};
use crate::string::{fits_inline, KString};
use crate::string_ref::KStringRef;
use crate::text::{hash_str, str_cmp, str_eq, str_order};

verus! {

/// A UTF-8 encoded, immutable string that is either borrowed or owned.
pub struct KStringCow<'s> {
    pub(crate) inner: KStringCowInner<'s>,
}

pub(crate) enum KStringCowInner<'s> {
    Borrowed(&'s str),
    Owned(KString),
}

impl<'s> KStringCowInner<'s> {
    pub(crate) closed spec fn view(&self) -> Seq<char> {
        match self {
            KStringCowInner::Borrowed(s) => s@,
            KStringCowInner::Owned(s) => s@,
        }
    }

    fn as_ref(&self) -> (r: KStringRef<'_>)
        ensures
            r@ == self.view(),
            self is Borrowed ==> !r.is_static(),
            self matches KStringCowInner::Owned(k) ==> (r.is_static() <==> k.is_static()),
    {
        match self {
            Self::Borrowed(s) => KStringRef::from_ref(s),
            Self::Owned(s) => s.as_ref(),
        }
    }

    fn into_owned(self) -> (r: KString)
        ensures
            r@ == self.view(),
            self is Borrowed ==> !r.is_static(),
            self is Borrowed ==> (r.is_inline() <==> fits_inline(self.view())),
            self is Borrowed ==> (r.is_heap() <==> !fits_inline(self.view())),
            self matches KStringCowInner::Owned(k) ==> r == k,
    {
        match self {
            Self::Borrowed(s) => KString::from_ref(s),
            Self::Owned(s) => s,
        }
    }

    fn as_str(&self) -> (r: &str)
        ensures
            r@ == self.view(),
    {
        match self {
            Self::Borrowed(s) => s,
            Self::Owned(s) => s.as_str(),
        }
    }

    fn into_boxed_str(self) -> (r: BoxedStr)
        ensures
            r@ == self.view(),
    {
        match self {
            Self::Borrowed(s) => boxed_from_str(s),
            Self::Owned(s) => s.into_boxed_str(),
        }
    }

    fn into_cow_str(self) -> (r: Cow<'s, str>)
        ensures
            r@ == self.view(),
            r matches Cow::Borrowed(_) <==> (self is Borrowed || self->Owned_0.is_static()),
    {
        match self {
            Self::Borrowed(s) => Cow::Borrowed(s),
            Self::Owned(s) => s.into_cow_str(),
        }
    }

    fn duplicate(&self) -> (r: Self)
        ensures
            r.view() == self.view(),
            r is Borrowed <==> self is Borrowed,
            self is Owned ==> r->Owned_0.is_static() == self->Owned_0.is_static(),
    {
        match self {
            Self::Borrowed(s) => Self::Borrowed(s),
            Self::Owned(s) => Self::Owned(s.clone()),
        }
    }
}

impl<'s> View for KStringCow<'s> {
    type V = Seq<char>;

    closed spec fn view(&self) -> Seq<char> {
        self.inner.view()
    }
}

impl<'s> KStringCow<'s> {
    /// The value borrows data that it does not own.
    pub closed spec fn is_borrowed(&self) -> bool {
        self.inner is Borrowed
    }

    /// The owned value, when the value is not borrowed.
    pub closed spec fn owned(&self) -> KString
        recommends
            !self.is_borrowed(),
    {
        self.inner->Owned_0
    }

    /// Creates an empty `KStringCow`.
    pub fn new() -> (r: Self)
        ensures
            r@ == Seq::<char>::empty(),
            !r.is_borrowed(),
            r.owned().is_static(),
    {
        proof {
            reveal_strlit("");
        }
        Self::from_static("")
    }

    /// Creates a `KStringCow` that holds `'static` data, without copying.
    pub fn from_static(other: &'static str) -> (r: Self)
        ensures
            r@ == other@,
            !r.is_borrowed(),
            r.owned().is_static(),
    {
        Self { inner: KStringCowInner::Owned(KString::from_static(other)) }
    }

    /// Creates an owned `KStringCow` from a boxed string.
    pub fn from_boxed(other: BoxedStr) -> (r: Self)
        ensures
            r@ == other@,
            !r.is_borrowed(),
            !r.owned().is_static(),
            r.owned().is_inline() <==> fits_inline(other@),
            r.owned().is_heap() <==> !fits_inline(other@),
    {
        Self { inner: KStringCowInner::Owned(KString::from_boxed(other)) }
    }

    /// Creates an owned `KStringCow` from an owned string.
    pub fn from_string(other: String) -> (r: Self)
        ensures
            r@ == other@,
            !r.is_borrowed(),
            !r.owned().is_static(),
            r.owned().is_inline() <==> fits_inline(other@),
            r.owned().is_heap() <==> !fits_inline(other@),
    {
        Self { inner: KStringCowInner::Owned(KString::from_string(other)) }
    }

    /// Creates a `KStringCow` that borrows `other`, without copying.
    pub fn from_ref(other: &'s str) -> (r: Self)
        ensures
            r@ == other@,
            r.is_borrowed(),
    {
        Self { inner: KStringCowInner::Borrowed(other) }
    }

    /// A reference view of the string.
    pub fn as_ref(&self) -> (r: KStringRef<'_>)
        ensures
            r@ == self@,
            self.is_borrowed() ==> !r.is_static(),
            !self.is_borrowed() ==> (r.is_static() <==> self.owned().is_static()),
    {
        self.inner.as_ref()
    }

    /// Converts to an owned `KString`. Borrowed data is copied, inline when it
    /// fits; an owned value is returned as it is.
    pub fn into_owned(self) -> (r: KString)
        ensures
            r@ == self@,
            self.is_borrowed() ==> !r.is_static(),
            self.is_borrowed() ==> (r.is_inline() <==> fits_inline(self@)),
            self.is_borrowed() ==> (r.is_heap() <==> !fits_inline(self@)),
            !self.is_borrowed() ==> r == self.owned(),
    {
        self.inner.into_owned()
    }

    /// The string, borrowed.
    pub fn as_str(&self) -> (r: &str)
        ensures
            r@ == self@,
    {
        self.inner.as_str()
    }

    /// Converts to a `String`, copying the data if necessary.
    pub fn into_string(self) -> (r: String)
        ensures
            r@ == self@,
    {
        boxed_str_into_string(self.into_boxed_str())
    }

    /// Converts to a boxed string, copying the data if necessary.
    pub fn into_boxed_str(self) -> (r: BoxedStr)
        ensures
            r@ == self@,
    {
        self.inner.into_boxed_str()
    }

    /// Converts to a `Cow`: borrowed for borrowed or `'static` data, owned
    /// otherwise.
    pub fn into_cow_str(self) -> (r: Cow<'s, str>)
        ensures
            r@ == self@,
            r matches Cow::Borrowed(_) <==> (self.is_borrowed() || self.owned().is_static()),
    {
        self.inner.into_cow_str()
    }
}

impl<'s> Clone for KStringCow<'s> {
    fn clone(&self) -> (r: Self)
        ensures
            r@ == self@,
            r.is_borrowed() <==> self.is_borrowed(),
            !self.is_borrowed() ==> (r.owned().is_static() <==> self.owned().is_static()),
    {
        Self { inner: self.inner.duplicate() }
    }
}

impl<'s> Default for KStringCow<'s> {
    fn default() -> (r: Self)
        ensures
            r@ == Seq::<char>::empty(),
            !r.is_borrowed(),
    {
        Self::new()
    }
}

impl<'s> std::ops::Deref for KStringCow<'s> {
    type Target = str;

    fn deref(&self) -> (r: &str)
        ensures
            r@ == self@,
    {
        self.as_str()
    }
}

impl<'s> PartialEq for KStringCow<'s> {
    fn eq(&self, other: &Self) -> (r: bool) {
        str_eq(self.as_str(), other.as_str())
    }
}

impl<'s> vstd::std_specs::cmp::PartialEqSpecImpl for KStringCow<'s> {
    open spec fn obeys_eq_spec() -> bool {
        true
    }

    open spec fn eq_spec(&self, other: &Self) -> bool {
        self@ == other@
    }
}

impl<'s> Eq for KStringCow<'s> {

}

impl<'s> PartialEq<str> for KStringCow<'s> {
    fn eq(&self, other: &str) -> (r: bool) {
        str_eq(self.as_str(), other)
    }
}

impl<'s> vstd::std_specs::cmp::PartialEqSpecImpl<str> for KStringCow<'s> {
    open spec fn obeys_eq_spec() -> bool {
        true
    }

    open spec fn eq_spec(&self, other: &str) -> bool {
        self@ == other@
    }
}

impl<'s> PartialEq<&'s str> for KStringCow<'s> {
    fn eq(&self, other: &&'s str) -> (r: bool) {
        str_eq(self.as_str(), *other)
    }
}

impl<'s> vstd::std_specs::cmp::PartialEqSpecImpl<&'s str> for KStringCow<'s> {
    open spec fn obeys_eq_spec() -> bool {
        true
    }

    open spec fn eq_spec(&self, other: &&'s str) -> bool {
        self@ == (**other)@
    }
}

impl<'s> PartialEq<String> for KStringCow<'s> {
    fn eq(&self, other: &String) -> (r: bool) {
        str_eq(self.as_str(), other.as_str())
    }
}

impl<'s> vstd::std_specs::cmp::PartialEqSpecImpl<String> for KStringCow<'s> {
    open spec fn obeys_eq_spec() -> bool {
        true
    }

    open spec fn eq_spec(&self, other: &String) -> bool {
        self@ == other@
    }
}

impl<'s> PartialOrd for KStringCow<'s> {
    fn partial_cmp(&self, other: &Self) -> (r: Option<std::cmp::Ordering>) {
        Some(str_cmp(self.as_str(), other.as_str()))
    }
}

impl<'s> vstd::std_specs::cmp::PartialOrdSpecImpl for KStringCow<'s> {
    open spec fn obeys_partial_cmp_spec() -> bool {
        true
    }

    open spec fn partial_cmp_spec(&self, other: &Self) -> Option<std::cmp::Ordering> {
        Some(str_order(self@, other@))
    }
}

impl<'s> std::hash::Hash for KStringCow<'s> {
    fn hash<H: std::hash::Hasher>(&self, state: &mut H) {
        hash_str(self.as_str(), state)
    }
}

impl<'s> std::borrow::Borrow<str> for KStringCow<'s> {
    fn borrow(&self) -> &str {
        self.as_str()
    }
}

impl<'s> From<&'s str> for KStringCow<'s> {
    fn from(other: &'s str) -> (r: Self) {
        Self { inner: KStringCowInner::Borrowed(other) }
    }
}

impl<'s> vstd::std_specs::convert::FromSpecImpl<&'s str> for KStringCow<'s> {
    open spec fn obeys_from_spec() -> bool {
        true
    }

    closed spec fn from_spec(other: &'s str) -> Self {
        KStringCow { inner: KStringCowInner::Borrowed(other) }
    }
}

impl<'s> From<KString> for KStringCow<'s> {
    fn from(other: KString) -> (r: Self) {
        Self { inner: KStringCowInner::Owned(other) }
    }
}

impl<'s> vstd::std_specs::convert::FromSpecImpl<KString> for KStringCow<'s> {
    open spec fn obeys_from_spec() -> bool {
        true
    }

    closed spec fn from_spec(other: KString) -> Self {
        KStringCow { inner: KStringCowInner::Owned(other) }
    }
}

impl<'s> From<&'s KString> for KStringCow<'s> {
    fn from(other: &'s KString) -> (r: Self)
        ensures
            r@ == other@,
            r.is_borrowed() <==> !other.is_static(),
    {
        other.as_ref().to_cow()
    }
}

impl<'s> vstd::std_specs::convert::FromSpecImpl<&'s KString> for KStringCow<'s> {
    /// Not a single value: the result is described by `KString::as_ref`.
    open spec fn obeys_from_spec() -> bool {
        false
    }

    closed spec fn from_spec(other: &'s KString) -> Self {
        arbitrary()
    }
}

impl<'s> From<KStringRef<'s>> for KStringCow<'s> {
    fn from(other: KStringRef<'s>) -> (r: Self)
        ensures
            r@ == other@,
            r.is_borrowed() <==> !other.is_static(),
            !r.is_borrowed() ==> r.owned().is_static(),
    {
        other.to_cow()
    }
}

impl<'s> vstd::std_specs::convert::FromSpecImpl<KStringRef<'s>> for KStringCow<'s> {
    /// Not a single value: the result is described by `KStringCow::from_ref` and `KStringCow::from_static`.
    open spec fn obeys_from_spec() -> bool {
        false
    }

    closed spec fn from_spec(other: KStringRef<'s>) -> Self {
        arbitrary()
    }
}

impl<'s> From<&'s KStringRef<'s>> for KStringCow<'s> {
    fn from(other: &'s KStringRef<'s>) -> (r: Self)
        ensures
            r@ == other@,
            r.is_borrowed() <==> !other.is_static(),
            !r.is_borrowed() ==> r.owned().is_static(),
    {
        other.to_cow()
    }
}

impl<'s> vstd::std_specs::convert::FromSpecImpl<&'s KStringRef<'s>> for KStringCow<'s> {
    /// Not a single value: the result is described by `KStringCow::from_ref` and `KStringCow::from_static`.
    open spec fn obeys_from_spec() -> bool {
        false
    }

    closed spec fn from_spec(other: &'s KStringRef<'s>) -> Self {
        arbitrary()
    }
}

impl<'s> From<String> for KStringCow<'s> {
    fn from(other: String) -> (r: Self)
        ensures
            r@ == other@,
            !r.is_borrowed(),
    {
        Self::from_string(other)
    }
}

impl<'s> vstd::std_specs::convert::FromSpecImpl<String> for KStringCow<'s> {
    /// Not a single value: the result is described by `KStringCow::from_string`.
    open spec fn obeys_from_spec() -> bool {
        false
    }

    closed spec fn from_spec(other: String) -> Self {
        arbitrary()
    }
}

impl<'s> From<&'s String> for KStringCow<'s> {
    fn from(other: &'s String) -> (r: Self)
        ensures
            r@ == other@,
            r.is_borrowed(),
    {
        Self::from_ref(other.as_str())
    }
}

impl<'s> vstd::std_specs::convert::FromSpecImpl<&'s String> for KStringCow<'s> {
    /// Not a single value: the result is described by `KStringCow::from_ref`.
    open spec fn obeys_from_spec() -> bool {
        false
    }

    closed spec fn from_spec(other: &'s String) -> Self {
        arbitrary()
    }
}

impl<'s> From<BoxedStr> for KStringCow<'s> {
    fn from(other: BoxedStr) -> (r: Self)
        ensures
            r@ == other@,
            !r.is_borrowed(),
    {
        Self::from_boxed(other)
    }
}

impl<'s> vstd::std_specs::convert::FromSpecImpl<BoxedStr> for KStringCow<'s> {
    /// Not a single value: the result is described by `KStringCow::from_boxed`.
    open spec fn obeys_from_spec() -> bool {
        false
    }

    closed spec fn from_spec(other: BoxedStr) -> Self {
        arbitrary()
    }
}

impl<'s> From<&'s BoxedStr> for KStringCow<'s> {
    fn from(other: &'s BoxedStr) -> (r: Self)
        ensures
            r@ == other@,
            r.is_borrowed(),
    {
        Self::from_ref(&**other)
    }
}

impl<'s> vstd::std_specs::convert::FromSpecImpl<&'s BoxedStr> for KStringCow<'s> {
    /// Not a single value: the result is described by `KStringCow::from_ref`.
    open spec fn obeys_from_spec() -> bool {
        false
    }

    closed spec fn from_spec(other: &'s BoxedStr) -> Self {
        arbitrary()
    }
}

impl<'s> std::str::FromStr for KStringCow<'s> {
    type Err = std::convert::Infallible;

    fn from_str(s: &str) -> (r: Result<Self, Self::Err>)
        ensures
            r matches Ok(k) && k@ == s@ && !k.is_borrowed(),
    {
        Ok(Self::from_string(s.to_owned()))
    }
}

} // verus!
