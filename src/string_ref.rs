//! A read-only view of string data: borrowed, or `'static`.
use vstd::prelude::*;

use crate::backend::BoxedStr;
use crate::string::{fits_inline, KString};
use crate::string_cow::KStringCow;
use crate::text::{hash_str, str_cmp, str_eq, str_order};

verus! {

/// A reference to a UTF-8 encoded, immutable string.
#[derive(Copy, Clone)]
pub struct KStringRef<'s> {
    pub(crate) inner: KStringRefInner<'s>,
}

#[derive(Copy, Clone)]
pub(crate) enum KStringRefInner<'s> {
    Borrowed(&'s str),
    Singleton(&'static str),
}

impl<'s> KStringRefInner<'s> {
    pub(crate) closed spec fn view(&self) -> Seq<char> {
        match self {
            KStringRefInner::Borrowed(s) => s@,
            KStringRefInner::Singleton(s) => s@,
        }
    }

    fn to_owned(&self) -> (r: KString)
        ensures
            r@ == self.view(),
            r.is_static() <==> self is Singleton,
            self is Borrowed ==> (r.is_inline() <==> fits_inline(self.view())),
            self is Borrowed ==> (r.is_heap() <==> !fits_inline(self.view())),
    {
        match self {
            Self::Borrowed(s) => KString::from_ref(s),
            Self::Singleton(s) => KString::from_static(s),
        }
    }

    fn as_str(&self) -> (r: &str)
        ensures
            r@ == self.view(),
    {
        match self {
            Self::Borrowed(s) => s,
            Self::Singleton(s) => s,
        }
    }

    fn into_mut(self) -> (r: String)
        ensures
            r@ == self.view(),
    {
        self.as_str().to_owned()
    }
}

impl<'s> View for KStringRef<'s> {
    type V = Seq<char>;

    closed spec fn view(&self) -> Seq<char> {
        self.inner.view()
    }
}

impl<'s> KStringRef<'s> {
    /// The view borrows a `'static` string.
    pub closed spec fn is_static(&self) -> bool {
        self.inner is Singleton
    }

    /// Creates an empty `KStringRef`.
    pub fn new() -> (r: Self)
        ensures
            r@ == Seq::<char>::empty(),
            r.is_static(),
    {
        proof {
            reveal_strlit("");
        }
        Self::from_static("")
    }

    /// Creates a view of `'static` data.
    pub fn from_static(other: &'static str) -> (r: Self)
        ensures
            r@ == other@,
            r.is_static(),
    {
        Self { inner: KStringRefInner::Singleton(other) }
    }

    /// Creates a view of borrowed data.
    pub fn from_ref(other: &'s str) -> (r: Self)
        ensures
            r@ == other@,
            !r.is_static(),
    {
        Self { inner: KStringRefInner::Borrowed(other) }
    }

    /// Copies the data into an owned `KString`, keeping `'static` data borrowed
    /// and storing other data inline when it fits.
    pub fn to_owned(&self) -> (r: KString)
        ensures
            r@ == self@,
            r.is_static() <==> self.is_static(),
            !self.is_static() ==> (r.is_inline() <==> fits_inline(self@)),
            !self.is_static() ==> (r.is_heap() <==> !fits_inline(self@)),
    {
        self.inner.to_owned()
    }

    /// The string, borrowed.
    pub fn as_str(&self) -> (r: &str)
        ensures
            r@ == self@,
    {
        self.inner.as_str()
    }

    /// A `KStringCow` that keeps what the view holds: borrowed data stays
    /// borrowed, and `'static` data stays `'static`.
    pub(crate) fn to_cow(&self) -> (r: KStringCow<'s>)
        ensures
            r@ == self@,
            r.is_borrowed() <==> !self.is_static(),
            !r.is_borrowed() ==> r.owned().is_static(),
    {
        match self.inner {
            KStringRefInner::Borrowed(s) => KStringCow::from_ref(s),
            KStringRefInner::Singleton(s) => KStringCow::from_static(s),
        }
    }

    /// Copies the data into a `String`.
    pub fn into_mut(self) -> (r: String)
        ensures
            r@ == self@,
    {
        self.inner.into_mut()
    }
}

impl<'s> Default for KStringRef<'s> {
    fn default() -> (r: Self)
        ensures
            r@ == Seq::<char>::empty(),
            r.is_static(),
    {
        Self::new()
    }
}

impl<'s> std::ops::Deref for KStringRef<'s> {
    type Target = str;

    fn deref(&self) -> (r: &str)
        ensures
            r@ == self@,
    {
        self.as_str()
    }
}

impl<'s> PartialEq for KStringRef<'s> {
    fn eq(&self, other: &Self) -> (r: bool) {
        str_eq(self.as_str(), other.as_str())
    }
}

impl<'s> vstd::std_specs::cmp::PartialEqSpecImpl for KStringRef<'s> {
    open spec fn obeys_eq_spec() -> bool {
        true
    }

    open spec fn eq_spec(&self, other: &Self) -> bool {
        self@ == other@
    }
}

impl<'s> Eq for KStringRef<'s> {

}

impl<'s> PartialEq<str> for KStringRef<'s> {
    fn eq(&self, other: &str) -> (r: bool) {
        str_eq(self.as_str(), other)
    }
}

impl<'s> vstd::std_specs::cmp::PartialEqSpecImpl<str> for KStringRef<'s> {
    open spec fn obeys_eq_spec() -> bool {
        true
    }

    open spec fn eq_spec(&self, other: &str) -> bool {
        self@ == other@
    }
}

impl<'s> PartialEq<&'s str> for KStringRef<'s> {
    fn eq(&self, other: &&'s str) -> (r: bool) {
        str_eq(self.as_str(), *other)
    }
}

impl<'s> vstd::std_specs::cmp::PartialEqSpecImpl<&'s str> for KStringRef<'s> {
    open spec fn obeys_eq_spec() -> bool {
        true
    }

    open spec fn eq_spec(&self, other: &&'s str) -> bool {
        self@ == (**other)@
    }
}

impl<'s> PartialEq<String> for KStringRef<'s> {
    fn eq(&self, other: &String) -> (r: bool) {
        str_eq(self.as_str(), other.as_str())
    }
}

impl<'s> vstd::std_specs::cmp::PartialEqSpecImpl<String> for KStringRef<'s> {
    open spec fn obeys_eq_spec() -> bool {
        true
    }

    open spec fn eq_spec(&self, other: &String) -> bool {
        self@ == other@
    }
}

impl<'s> PartialOrd for KStringRef<'s> {
    fn partial_cmp(&self, other: &Self) -> (r: Option<std::cmp::Ordering>) {
        Some(str_cmp(self.as_str(), other.as_str()))
    }
}

impl<'s> vstd::std_specs::cmp::PartialOrdSpecImpl for KStringRef<'s> {
    open spec fn obeys_partial_cmp_spec() -> bool {
        true
    }

    open spec fn partial_cmp_spec(&self, other: &Self) -> Option<std::cmp::Ordering> {
        Some(str_order(self@, other@))
    }
}

impl<'s> std::hash::Hash for KStringRef<'s> {
    fn hash<H: std::hash::Hasher>(&self, state: &mut H) {
        hash_str(self.as_str(), state)
    }
}

impl<'s> AsRef<str> for KStringRef<'s> {
    fn as_ref(&self) -> (r: &str)
        ensures
            r@ == self@,
    {
        self.as_str()
    }
}

impl<'s> std::borrow::Borrow<str> for KStringRef<'s> {
    fn borrow(&self) -> &str {
        self.as_str()
    }
}

impl<'s> From<&'s str> for KStringRef<'s> {
    fn from(other: &'s str) -> (r: Self) {
        Self { inner: KStringRefInner::Borrowed(other) }
    }
}

impl<'s> vstd::std_specs::convert::FromSpecImpl<&'s str> for KStringRef<'s> {
    open spec fn obeys_from_spec() -> bool {
        true
    }

    closed spec fn from_spec(other: &'s str) -> Self {
        KStringRef { inner: KStringRefInner::Borrowed(other) }
    }
}

impl<'s> From<&'s KString> for KStringRef<'s> {
    fn from(other: &'s KString) -> (r: Self)
        ensures
            r@ == other@,
            r.is_static() <==> other.is_static(),
    {
        other.as_ref()
    }
}

impl<'s> vstd::std_specs::convert::FromSpecImpl<&'s KString> for KStringRef<'s> {
    /// The result is described by the contract of `KString::as_ref`.
    open spec fn obeys_from_spec() -> bool {
        false
    }

    closed spec fn from_spec(other: &'s KString) -> Self {
        arbitrary()
    }
}

impl<'s> From<&'s KStringCow<'s>> for KStringRef<'s> {
    fn from(other: &'s KStringCow<'s>) -> (r: Self)
        ensures
            r@ == other@,
    {
        other.as_ref()
    }
}

impl<'s> vstd::std_specs::convert::FromSpecImpl<&'s KStringCow<'s>> for KStringRef<'s> {
    /// The result is described by the contract of `KStringCow::as_ref`.
    open spec fn obeys_from_spec() -> bool {
        false
    }

    closed spec fn from_spec(other: &'s KStringCow<'s>) -> Self {
        arbitrary()
    }
}

impl<'s> From<&'s String> for KStringRef<'s> {
    fn from(other: &'s String) -> (r: Self)
        ensures
            r@ == other@,
            !r.is_static(),
    {
        Self::from_ref(other.as_str())
    }
}

impl<'s> vstd::std_specs::convert::FromSpecImpl<&'s String> for KStringRef<'s> {
    /// Not a single value: the result is described by `KStringRef::from_ref`.
    open spec fn obeys_from_spec() -> bool {
        false
    }

    closed spec fn from_spec(other: &'s String) -> Self {
        arbitrary()
    }
}

impl<'s> From<&'s BoxedStr> for KStringRef<'s> {
    fn from(other: &'s BoxedStr) -> (r: Self)
        ensures
            r@ == other@,
            !r.is_static(),
    {
        Self::from_ref(&**other)
    }
}

impl<'s> vstd::std_specs::convert::FromSpecImpl<&'s BoxedStr> for KStringRef<'s> {
    /// Not a single value: the result is described by `KStringRef::from_ref`.
    open spec fn obeys_from_spec() -> bool {
        false
    }

    closed spec fn from_spec(other: &'s BoxedStr) -> Self {
        arbitrary()
    }
}

} // verus!
