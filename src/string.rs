//! The owned key string: a `'static` reference, an inline buffer, or a heap
//! allocation, behind one value type.
use std::borrow::Cow;
use vstd::prelude::*;
use vstd::utf8::*;

use crate::backend::{boxed_str_into_string, BoxedStr, DefaultStr, StorageBackend};
use crate::stack::StackString;
use crate::string_cow::KStringCow;
use crate::string_ref::KStringRef;
use crate::text::{hash_str, str_cmp, str_eq, str_order};

verus! {

/// Inline capacity that leaves the padding of the heap variant's
/// discriminant unused: the size of a boxed string slice less the length byte.
pub const ALIGNED_CAPACITY: usize = 15;

/// Inline capacity that uses every byte of a `String`'s footprint but the
/// discriminant and the length byte.
pub const MAX_CAPACITY: usize = 22;

/// The number of bytes that a `KString` stores inline.
pub const CAPACITY: usize = ALIGNED_CAPACITY;

type OwnedStr = DefaultStr;

/// Whether a string of these characters is short enough to be stored inline.
pub open spec fn fits_inline(s: Seq<char>) -> bool {
    encode_utf8(s).len() <= CAPACITY
}

/// A UTF-8 encoded, immutable string.
pub struct KString {
    inner: KStringInner,
}

pub(crate) enum KStringInner {
    Singleton(&'static str),
    Inline(StackString<CAPACITY>),
    Owned(OwnedStr),
}

impl KStringInner {
    pub(crate) closed spec fn view(&self) -> Seq<char> {
        match self {
            KStringInner::Singleton(s) => s@,
            KStringInner::Inline(s) => s@,
            KStringInner::Owned(s) => s.content(),
        }
    }

    fn from_boxed(other: BoxedStr) -> (r: Self)
        ensures
            r.view() == other@,
            r is Inline <==> fits_inline(other@),
            r is Owned <==> !fits_inline(other@),
    {
        if other.as_bytes().len() <= CAPACITY {
            Self::Inline(StackString::new_unchecked(&*other))
        } else {
            Self::Owned(OwnedStr::from_boxed_str(other))
        }
    }

    fn from_string(other: String) -> (r: Self)
        ensures
            r.view() == other@,
            r is Inline <==> fits_inline(other@),
            r is Owned <==> !fits_inline(other@),
    {
        if other.as_str().as_bytes().len() <= CAPACITY {
            Self::Inline(StackString::new_unchecked(other.as_str()))
        } else {
            Self::Owned(OwnedStr::from_string(other))
        }
    }

    fn from_ref(other: &str) -> (r: Self)
        ensures
            r.view() == other@,
            r is Inline <==> fits_inline(other@),
            r is Owned <==> !fits_inline(other@),
    {
        if other.as_bytes().len() <= CAPACITY {
            Self::Inline(StackString::new_unchecked(other))
        } else {
            Self::Owned(OwnedStr::from_str(other))
        }
    }

    fn from_static(other: &'static str) -> (r: Self)
        ensures
            r == KStringInner::Singleton(other),
    {
        Self::Singleton(other)
    }

    fn try_inline(other: &str) -> (r: Option<Self>)
        ensures
            r is Some <==> fits_inline(other@),
            r matches Some(k) ==> k is Inline && k.view() == other@,
    {
        match StackString::try_new(other) {
            Some(s) => Some(Self::Inline(s)),
            None => None,
        }
    }

    fn as_ref(&self) -> (r: KStringRef<'_>)
        ensures
            r@ == self.view(),
            r.is_static() <==> self is Singleton,
    {
        match self {
            Self::Singleton(s) => KStringRef::from_static(s),
            Self::Inline(s) => KStringRef::from_ref(s.as_str()),
            Self::Owned(s) => KStringRef::from_ref(s.as_str()),
        }
    }

    fn as_str(&self) -> (r: &str)
        ensures
            r@ == self.view(),
    {
        match self {
            Self::Singleton(s) => s,
            Self::Inline(s) => s.as_str(),
            Self::Owned(s) => s.as_str(),
        }
    }

    fn into_boxed_str(self) -> (r: BoxedStr)
        ensures
            r@ == self.view(),
    {
        match self {
            Self::Singleton(s) => BoxedStr::from_str(s),
            Self::Inline(s) => s.to_boxed_str(),
            Self::Owned(s) => BoxedStr::from_str(s.as_str()),
        }
    }

    fn into_cow_str(self) -> (r: Cow<'static, str>)
        ensures
            r@ == self.view(),
            r matches Cow::Borrowed(_) <==> self is Singleton,
    {
        match self {
            Self::Singleton(s) => Cow::Borrowed(s),
            Self::Inline(s) => Cow::Owned(s.as_str().to_owned()),
            Self::Owned(s) => Cow::Owned(s.as_str().to_owned()),
        }
    }

    fn duplicate(&self) -> (r: Self)
        ensures
            r.view() == self.view(),
            r is Singleton <==> self is Singleton,
            r is Inline <==> self is Inline,
            r is Owned <==> self is Owned,
    {
        match self {
            Self::Singleton(s) => Self::Singleton(s),
            Self::Inline(s) => Self::Inline(*s),
            Self::Owned(s) => Self::Owned(s.duplicate()),
        }
    }
}

impl View for KString {
    type V = Seq<char>;

    closed spec fn view(&self) -> Seq<char> {
        self.inner.view()
    }
}

impl KString {
    /// The value borrows a `'static` string.
    pub closed spec fn is_static(&self) -> bool {
        self.inner is Singleton
    }

    /// The value holds its bytes inline, with no heap allocation.
    pub closed spec fn is_inline(&self) -> bool {
        self.inner is Inline
    }

    /// The value holds its bytes in a heap allocation of the storage backend.
    pub closed spec fn is_heap(&self) -> bool {
        self.inner is Owned
    }

    /// Creates an empty `KString`.
    pub fn new() -> (r: Self)
        ensures
            r@ == Seq::<char>::empty(),
            r.is_static(),
    {
        proof {
            reveal_strlit("");
        }
        Self::from_static("")
    }

    /// Creates a `KString` from a boxed string: inline when it fits,
    /// otherwise the allocation is handed to the storage backend.
    pub fn from_boxed(other: BoxedStr) -> (r: Self)
        ensures
            r@ == other@,
            !r.is_static(),
            r.is_inline() <==> fits_inline(other@),
            r.is_heap() <==> !fits_inline(other@),
    {
        Self { inner: KStringInner::from_boxed(other) }
    }

    /// Creates a `KString` from an owned string: inline when it fits,
    /// otherwise the allocation is handed to the storage backend.
    pub fn from_string(other: String) -> (r: Self)
        ensures
            r@ == other@,
            !r.is_static(),
            r.is_inline() <==> fits_inline(other@),
            r.is_heap() <==> !fits_inline(other@),
    {
        Self { inner: KStringInner::from_string(other) }
    }

    /// Creates a `KString` from a borrowed string: inline when it fits,
    /// otherwise copied to the heap.
    pub fn from_ref(other: &str) -> (r: Self)
        ensures
            r@ == other@,
            !r.is_static(),
            r.is_inline() <==> fits_inline(other@),
            r.is_heap() <==> !fits_inline(other@),
    {
        Self { inner: KStringInner::from_ref(other) }
    }

    /// Creates a `KString` that borrows `'static` data, without copying.
    pub fn from_static(other: &'static str) -> (r: Self)
        ensures
            r@ == other@,
            r.is_static(),
    {
        Self { inner: KStringInner::from_static(other) }
    }

    /// Creates an inline `KString`, or `None` when `other` does not fit.
    pub fn try_inline(other: &str) -> (r: Option<Self>)
        ensures
            r is Some <==> fits_inline(other@),
            r matches Some(k) ==> k@ == other@ && k.is_inline(),
    {
        match KStringInner::try_inline(other) {
            Some(inner) => Some(Self { inner }),
            None => None,
        }
    }

    /// A reference view of the string.
    pub fn as_ref(&self) -> (r: KStringRef<'_>)
        ensures
            r@ == self@,
            r.is_static() <==> self.is_static(),
    {
        self.inner.as_ref()
    }

    /// The string, borrowed.
    pub fn as_str(&self) -> (r: &str)
        ensures
            r@ == self@,
    {
        self.inner.as_str()
    }

    /// Converts to a `String`, copying the data if necessary.
    pub fn into_string(self) -> (r: String)
        ensures
            r@ == self@,
    {
        boxed_str_into_string(self.into_boxed_str())
    }

    /// Converts to a boxed string, copying the data if necessary.
    pub fn into_boxed_str(self) -> (r: BoxedStr)
        ensures
            r@ == self@,
    {
        self.inner.into_boxed_str()
    }

    /// Converts to a `Cow`: borrowed for `'static` data, owned otherwise.
    pub fn into_cow_str(self) -> (r: Cow<'static, str>)
        ensures
            r@ == self@,
            r matches Cow::Borrowed(_) <==> self.is_static(),
    {
        self.inner.into_cow_str()
    }
}

impl Clone for KString {
    fn clone(&self) -> (r: Self)
        ensures
            r@ == self@,
            r.is_static() <==> self.is_static(),
            r.is_inline() <==> self.is_inline(),
            r.is_heap() <==> self.is_heap(),
    {
        Self { inner: self.inner.duplicate() }
    }
}

impl Default for KString {
    fn default() -> (r: Self)
        ensures
            r@ == Seq::<char>::empty(),
            r.is_static(),
    {
        Self::new()
    }
}

impl std::ops::Deref for KString {
    type Target = str;

    fn deref(&self) -> (r: &str)
        ensures
            r@ == self@,
    {
        self.as_str()
    }
}

impl PartialEq for KString {
    fn eq(&self, other: &Self) -> (r: bool) {
        str_eq(self.as_str(), other.as_str())
    }
}

impl vstd::std_specs::cmp::PartialEqSpecImpl for KString {
    open spec fn obeys_eq_spec() -> bool {
        true
    }

    open spec fn eq_spec(&self, other: &Self) -> bool {
        self@ == other@
    }
}

impl Eq for KString {

}

impl PartialEq<str> for KString {
    fn eq(&self, other: &str) -> (r: bool) {
        str_eq(self.as_str(), other)
    }
}

impl vstd::std_specs::cmp::PartialEqSpecImpl<str> for KString {
    open spec fn obeys_eq_spec() -> bool {
        true
    }

    open spec fn eq_spec(&self, other: &str) -> bool {
        self@ == other@
    }
}

impl<'s> PartialEq<&'s str> for KString {
    fn eq(&self, other: &&'s str) -> (r: bool) {
        str_eq(self.as_str(), *other)
    }
}

impl<'s> vstd::std_specs::cmp::PartialEqSpecImpl<&'s str> for KString {
    open spec fn obeys_eq_spec() -> bool {
        true
    }

    open spec fn eq_spec(&self, other: &&'s str) -> bool {
        self@ == (**other)@
    }
}

impl PartialEq<String> for KString {
    fn eq(&self, other: &String) -> (r: bool) {
        str_eq(self.as_str(), other.as_str())
    }
}

impl vstd::std_specs::cmp::PartialEqSpecImpl<String> for KString {
    open spec fn obeys_eq_spec() -> bool {
        true
    }

    open spec fn eq_spec(&self, other: &String) -> bool {
        self@ == other@
    }
}

impl PartialOrd for KString {
    fn partial_cmp(&self, other: &Self) -> (r: Option<std::cmp::Ordering>) {
        Some(str_cmp(self.as_str(), other.as_str()))
    }
}

impl vstd::std_specs::cmp::PartialOrdSpecImpl for KString {
    open spec fn obeys_partial_cmp_spec() -> bool {
        true
    }

    open spec fn partial_cmp_spec(&self, other: &Self) -> Option<std::cmp::Ordering> {
        Some(str_order(self@, other@))
    }
}

impl std::hash::Hash for KString {
    fn hash<H: std::hash::Hasher>(&self, state: &mut H) {
        hash_str(self.as_str(), state)
    }
}

impl std::borrow::Borrow<str> for KString {
    fn borrow(&self) -> &str {
        self.as_str()
    }
}

impl From<&'static str> for KString {
    fn from(other: &'static str) -> (r: Self) {
        Self { inner: KStringInner::Singleton(other) }
    }
}

impl vstd::std_specs::convert::FromSpecImpl<&'static str> for KString {
    open spec fn obeys_from_spec() -> bool {
        true
    }

    closed spec fn from_spec(other: &'static str) -> Self {
        KString { inner: KStringInner::Singleton(other) }
    }
}

impl From<String> for KString {
    fn from(other: String) -> (r: Self)
        ensures
            r@ == other@,
            !r.is_static(),
            r.is_inline() <==> fits_inline(other@),
            r.is_heap() <==> !fits_inline(other@),
    {
        Self::from_string(other)
    }
}

impl vstd::std_specs::convert::FromSpecImpl<String> for KString {
    /// Not a single value: the result is described by `KString::from_string`.
    open spec fn obeys_from_spec() -> bool {
        false
    }

    closed spec fn from_spec(other: String) -> Self {
        arbitrary()
    }
}

impl<'s> From<&'s String> for KString {
    fn from(other: &'s String) -> (r: Self)
        ensures
            r@ == other@,
            !r.is_static(),
            r.is_inline() <==> fits_inline(other@),
            r.is_heap() <==> !fits_inline(other@),
    {
        Self::from_ref(other.as_str())
    }
}

impl<'s> vstd::std_specs::convert::FromSpecImpl<&'s String> for KString {
    /// Not a single value: the result is described by `KString::from_ref`.
    open spec fn obeys_from_spec() -> bool {
        false
    }

    closed spec fn from_spec(other: &'s String) -> Self {
        arbitrary()
    }
}

impl From<BoxedStr> for KString {
    fn from(other: BoxedStr) -> (r: Self)
        ensures
            r@ == other@,
            !r.is_static(),
            r.is_inline() <==> fits_inline(other@),
            r.is_heap() <==> !fits_inline(other@),
    {
        Self::from_boxed(other)
    }
}

impl vstd::std_specs::convert::FromSpecImpl<BoxedStr> for KString {
    /// Not a single value: the result is described by `KString::from_boxed`.
    open spec fn obeys_from_spec() -> bool {
        false
    }

    closed spec fn from_spec(other: BoxedStr) -> Self {
        arbitrary()
    }
}

impl<'s> From<&'s BoxedStr> for KString {
    fn from(other: &'s BoxedStr) -> (r: Self)
        ensures
            r@ == other@,
            !r.is_static(),
            r.is_inline() <==> fits_inline(other@),
            r.is_heap() <==> !fits_inline(other@),
    {
        Self::from_ref(&**other)
    }
}

impl<'s> vstd::std_specs::convert::FromSpecImpl<&'s BoxedStr> for KString {
    /// Not a single value: the result is described by `KString::from_ref`.
    open spec fn obeys_from_spec() -> bool {
        false
    }

    closed spec fn from_spec(other: &'s BoxedStr) -> Self {
        arbitrary()
    }
}

impl<'s> From<KStringRef<'s>> for KString {
    fn from(other: KStringRef<'s>) -> (r: Self)
        ensures
            r@ == other@,
            r.is_static() <==> other.is_static(),
    {
        other.to_owned()
    }
}

impl<'s> vstd::std_specs::convert::FromSpecImpl<KStringRef<'s>> for KString {
    /// Not a single value: the result is described by `KStringRef::to_owned`.
    open spec fn obeys_from_spec() -> bool {
        false
    }

    closed spec fn from_spec(other: KStringRef<'s>) -> Self {
        arbitrary()
    }
}

impl<'s> From<&'s KStringRef<'s>> for KString {
    fn from(other: &'s KStringRef<'s>) -> (r: Self)
        ensures
            r@ == other@,
            r.is_static() <==> other.is_static(),
    {
        other.to_owned()
    }
}

impl<'s> vstd::std_specs::convert::FromSpecImpl<&'s KStringRef<'s>> for KString {
    /// Not a single value: the result is described by `KStringRef::to_owned`.
    open spec fn obeys_from_spec() -> bool {
        false
    }

    closed spec fn from_spec(other: &'s KStringRef<'s>) -> Self {
        arbitrary()
    }
}

impl<'s> From<KStringCow<'s>> for KString {
    fn from(other: KStringCow<'s>) -> (r: Self)
        ensures
            r@ == other@,
    {
        other.into_owned()
    }
}

impl<'s> vstd::std_specs::convert::FromSpecImpl<KStringCow<'s>> for KString {
    /// Not a single value: the result is described by `KStringCow::into_owned`.
    open spec fn obeys_from_spec() -> bool {
        false
    }

    closed spec fn from_spec(other: KStringCow<'s>) -> Self {
        arbitrary()
    }
}

impl<'s> From<&'s KStringCow<'s>> for KString {
    fn from(other: &'s KStringCow<'s>) -> (r: Self)
        ensures
            r@ == other@,
    {
        other.clone().into_owned()
    }
}

impl<'s> vstd::std_specs::convert::FromSpecImpl<&'s KStringCow<'s>> for KString {
    /// Not a single value: the result is described by `KStringCow::into_owned`.
    open spec fn obeys_from_spec() -> bool {
        false
    }

    closed spec fn from_spec(other: &'s KStringCow<'s>) -> Self {
        arbitrary()
    }
}

impl std::str::FromStr for KString {
    type Err = std::convert::Infallible;

    fn from_str(s: &str) -> (r: Result<Self, Self::Err>)
        ensures
            r matches Ok(k) && k@ == s@,
    {
        Ok(Self::from_ref(s))
    }
}

} // verus!
