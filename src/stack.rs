//! A fixed-capacity string stored inline, without any heap allocation.
use vstd::prelude::*;
use vstd::string::StringSliceAdditionalSpecFns;
use vstd::utf8::*;

use crate::backend::boxed_from_str;
use crate::text::{hash_str, str_cmp, str_eq, str_order};

verus! {

broadcast use {encode_utf8_valid_utf8, encode_utf8_decode_utf8, decode_utf8_encode_utf8};

/// The type of the length field of an inline string.
pub(crate) type Len = u8;

/// Largest capacity that a `Len` can describe.
pub const LEN_MAX: usize = 255;

/// A string of at most `C` bytes held inside the value itself.
///
/// Only the first `len` bytes of the buffer are the string; they are always
/// valid UTF-8. Bytes past `len` take no part in anything.
#[derive(Copy, Clone)]
pub struct StackString<const C: usize> {
    len: Len,
    buffer: StrBuffer<C>,
}

/// The byte storage of a `StackString`.
#[derive(Copy, Clone)]
pub(crate) struct StrBuffer<const C: usize>([u8; C]);

impl<const C: usize> StrBuffer<C> {
    pub(crate) closed spec fn bytes(&self) -> Seq<u8> {
        self.0@
    }

    /// A buffer of zero bytes.
    pub(crate) fn empty() -> (r: Self)
        ensures
            r.bytes().len() == C,
    {
        StrBuffer([0u8; C])
    }

    /// A buffer that starts with the bytes of `s`.
    pub(crate) fn new_unchecked(s: &str) -> (r: Self)
        requires
            s.spec_bytes().len() <= C,
        ensures
            r.bytes().len() == C,
            r.bytes().take(s.spec_bytes().len() as int) == s.spec_bytes(),
    {
        let bytes = s.as_bytes();
        let len = bytes.len();
        let mut buffer = Self::empty();
        let mut i: usize = 0;
        while i < len
            invariant
                bytes@ == s.spec_bytes(),
                len == bytes@.len(),
                len <= C,
                i <= len,
                buffer.bytes().len() == C,
                buffer.bytes().take(i as int) == bytes@.take(i as int),
            decreases len - i,
        {
            buffer.0[i] = bytes[i];
            i = i + 1;
            assert(buffer.bytes().take(i as int) =~= bytes@.take(i as int));
        }
        assert(bytes@.take(len as int) =~= bytes@);
        buffer
    }

    /// The first `len` bytes, read as a string.
    pub(crate) fn as_str(&self, len: usize) -> (r: &str)
        requires
            len <= C,
            valid_utf8(self.bytes().take(len as int)),
        ensures
            r.spec_bytes() == self.bytes().take(len as int),
    {
        let slice = &self.0[0..len];
        assert(slice@ =~= self.bytes().take(len as int));
        match str_from_utf8(slice) {
            Some(s) => s,
            None => {
                proof {
                    assert(false);
                }
                ""
            },
        }
    }
}

/// Relies on `std::str::from_utf8`: the bytes read as a string when they are
/// valid UTF-8, and an error when they are not.
#[verifier::external_body]
fn str_from_utf8<'a>(b: &'a [u8]) -> (r: Option<&'a str>)
    ensures
        match r {
            Some(s) => s.spec_bytes() == b@,
            None => !valid_utf8(b@),
        },
{
    std::str::from_utf8(b).ok()
}

impl<const C: usize> View for StackString<C> {
    type V = Seq<char>;

    closed spec fn view(&self) -> Seq<char> {
        decode_utf8(self.spec_bytes())
    }
}

impl<const C: usize> StackString<C> {
    #[verifier::type_invariant]
    closed spec fn inv(&self) -> bool {
        &&& self.len <= C
        &&& self.buffer.bytes().len() == C
        &&& valid_utf8(self.buffer.bytes().take(self.len as int))
    }

    /// The UTF-8 bytes of the string.
    pub closed spec fn spec_bytes(&self) -> Seq<u8> {
        self.buffer.bytes().take(self.len as int)
    }

    /// The empty string.
    pub(crate) fn empty() -> (r: Self)
        ensures
            r@ == Seq::<char>::empty(),
            r.spec_bytes().len() == 0,
    {
        let r = Self { len: 0, buffer: StrBuffer::empty() };
        assert(r.buffer.bytes().take(0) =~= Seq::<u8>::empty());
        r
    }

    /// An inline copy of `s`, or `None` when `s` is longer than the capacity.
    pub fn try_new(s: &str) -> (r: Option<Self>)
        requires
            C <= LEN_MAX,
        ensures
            r is Some <==> s.spec_bytes().len() <= C,
            r matches Some(v) ==> v@ == s@,
    {
        let len = s.as_bytes().len();
        if len <= C {
            Some(Self::new_unchecked(s))
        } else {
            None
        }
    }

    /// An inline copy of `s`, which the caller has checked to fit.
    pub fn new_unchecked(s: &str) -> (r: Self)
        requires
            C <= LEN_MAX,
            s.spec_bytes().len() <= C,
        ensures
            r@ == s@,
            r.spec_bytes() == s.spec_bytes(),
    {
        let len = s.as_bytes().len();
        let buffer = StrBuffer::new_unchecked(s);
        let r = Self { len: len as u8, buffer };
        r
    }

    /// The string, borrowed.
    pub fn as_str(&self) -> (r: &str)
        ensures
            r@ == self@,
            r.spec_bytes() == self.spec_bytes(),
    {
        proof {
            use_type_invariant(self);
        }
        let s = self.buffer.as_str(self.len as usize);
        assert(decode_utf8(s.spec_bytes()) == s@);
        s
    }

    /// The length of the string in bytes.
    pub fn len(&self) -> (r: usize)
        ensures
            r == self.spec_bytes().len(),
            r <= C,
    {
        proof {
            use_type_invariant(self);
        }
        self.len as usize
    }

    /// Whether the string is empty.
    pub fn is_empty(&self) -> (r: bool)
        ensures
            r <==> self@.len() == 0,
    {
        proof {
            use_type_invariant(self);
            assert(encode_utf8(decode_utf8(self.spec_bytes())) == self.spec_bytes());
            if self@.len() != 0 {
                assert(encode_utf8(self@).len() > 0) by {
                    reveal_with_fuel(encode_utf8, 2);
                }
            }
        }
        self.len == 0
    }

    /// Empties the string.
    pub fn clear(&mut self)
        ensures
            final(self)@ == Seq::<char>::empty(),
            final(self).spec_bytes().len() == 0,
    {
        proof {
            use_type_invariant(&*self);
        }
        self.len = 0;
        assert(self.buffer.bytes().take(0) =~= Seq::<u8>::empty());
    }

    /// Shortens the string to its first `new_len` bytes. Does nothing when
    /// `new_len` is not below the current length; `new_len` must fall on a
    /// character boundary.
    pub fn truncate(&mut self, new_len: usize)
        requires
            new_len <= old(self).spec_bytes().len() ==> is_char_boundary(
                old(self).spec_bytes(),
                new_len as int,
            ),
        ensures
            new_len <= old(self).spec_bytes().len() ==> final(self).spec_bytes()
                == old(self).spec_bytes().take(new_len as int),
            new_len > old(self).spec_bytes().len() ==> *final(self) == *old(self),
            final(self)@ == decode_utf8(final(self).spec_bytes()),
    {
        proof {
            use_type_invariant(&*self);
        }
        if new_len <= self.len() {
            proof {
                let bytes = self.spec_bytes();
                valid_utf8_split(bytes, new_len as int);
                assert(bytes.subrange(0, new_len as int) =~= self.buffer.bytes().take(
                    new_len as int,
                ));
            }
            self.len = new_len as u8;
        }
    }

    /// A heap copy of the string.
    pub(crate) fn to_boxed_str(&self) -> (r: Box<str>)
        ensures
            r@ == self@,
    {
        boxed_from_str(self.as_str())
    }
}

impl<const C: usize> Default for StackString<C> {
    fn default() -> (r: Self)
        ensures
            r@ == Seq::<char>::empty(),
    {
        Self::empty()
    }
}

impl<const C: usize> std::ops::Deref for StackString<C> {
    type Target = str;

    fn deref(&self) -> (r: &str)
        ensures
            r@ == self@,
    {
        self.as_str()
    }
}

impl<const C: usize> PartialEq for StackString<C> {
    fn eq(&self, other: &Self) -> (r: bool) {
        str_eq(self.as_str(), other.as_str())
    }
}

impl<const C: usize> vstd::std_specs::cmp::PartialEqSpecImpl for StackString<C> {
    open spec fn obeys_eq_spec() -> bool {
        true
    }

    open spec fn eq_spec(&self, other: &Self) -> bool {
        self@ == other@
    }
}

impl<const C: usize> Eq for StackString<C> {

}

impl<const C: usize> PartialOrd for StackString<C> {
    fn partial_cmp(&self, other: &Self) -> (r: Option<std::cmp::Ordering>) {
        Some(str_cmp(self.as_str(), other.as_str()))
    }
}

impl<const C: usize> vstd::std_specs::cmp::PartialOrdSpecImpl for StackString<C> {
    open spec fn obeys_partial_cmp_spec() -> bool {
        true
    }

    open spec fn partial_cmp_spec(&self, other: &Self) -> Option<std::cmp::Ordering> {
        Some(str_order(self@, other@))
    }
}

impl<const C: usize> std::hash::Hash for StackString<C> {
    fn hash<H: std::hash::Hasher>(&self, state: &mut H) {
        hash_str(self.as_str(), state)
    }
}

impl<const C: usize> AsRef<str> for StackString<C> {
    fn as_ref(&self) -> (r: &str)
        ensures
            r@ == self@,
    {
        self.as_str()
    }
}

impl<const C: usize> std::borrow::Borrow<str> for StackString<C> {
    fn borrow(&self) -> &str {
        self.as_str()
    }
}

} // verus!
