//! Heap storage for strings that do not fit inline.
//!
//! The set of backends is closed: a uniquely owned boxed slice, and two
//! reference-counted shared slices (atomic and single-threaded). All three have
//! the size of a fat pointer, so switching the backend never changes the size of
//! the owning string type.
use std::rc::Rc;
use std::sync::Arc;
use vstd::prelude::*;

mod private;

verus! {

/// Uniquely owned heap string: cloning copies the bytes.
pub type BoxedStr = Box<str>;

/// Shared heap string with an atomic reference count.
pub type ArcStr = Arc<str>;

/// Shared heap string with a single-threaded reference count.
pub type RcStr = Rc<str>;

/// The backend that `KString` stores its heap strings in.
pub type DefaultStr = BoxedStr;

/// How a heap-owned string is stored, and how one is built.
pub trait StorageBackend: Sized + Clone + private::Sealed {
    /// The characters that the stored string holds.
    spec fn content(&self) -> Seq<char>;

    /// Copies a borrowed string into a new heap allocation.
    fn from_str(other: &str) -> (r: Self)
        ensures
            r.content() == other@,
    ;

    /// Takes over an owned string, reusing its allocation where the
    /// representation allows.
    fn from_string(other: String) -> (r: Self)
        ensures
            r.content() == other@,
    ;

    /// Takes over an already boxed string.
    fn from_boxed_str(other: BoxedStr) -> (r: Self)
        ensures
            r.content() == other@,
    ;

    /// The stored string.
    fn as_str(&self) -> (r: &str)
        ensures
            r@ == self.content(),
    ;

    /// A second handle on the same string: a copy of the bytes for a uniquely
    /// owned backend, a reference-count increment for a shared one.
    fn duplicate(&self) -> (r: Self)
        ensures
            r.content() == self.content(),
    ;
}

impl StorageBackend for BoxedStr {
    open spec fn content(&self) -> Seq<char> {
        self@
    }

    fn from_str(other: &str) -> (r: Self) {
        boxed_from_str(other)
    }

    fn from_string(other: String) -> (r: Self) {
        string_into_boxed_str(other)
    }

    fn from_boxed_str(other: BoxedStr) -> (r: Self) {
        other
    }

    fn as_str(&self) -> (r: &str) {
        &**self
    }

    fn duplicate(&self) -> (r: Self) {
        clone_boxed_str(self)
    }
}

impl StorageBackend for ArcStr {
    open spec fn content(&self) -> Seq<char> {
        (**self)@
    }

    fn from_str(other: &str) -> (r: Self) {
        arc_from_str(other)
    }

    fn from_string(other: String) -> (r: Self) {
        arc_from_boxed_str(string_into_boxed_str(other))
    }

    fn from_boxed_str(other: BoxedStr) -> (r: Self) {
        arc_from_boxed_str(other)
    }

    fn as_str(&self) -> (r: &str) {
        &**self
    }

    fn duplicate(&self) -> (r: Self) {
        clone_arc_str(self)
    }
}

impl StorageBackend for RcStr {
    open spec fn content(&self) -> Seq<char> {
        (**self)@
    }

    fn from_str(other: &str) -> (r: Self) {
        rc_from_str(other)
    }

    fn from_string(other: String) -> (r: Self) {
        rc_from_boxed_str(string_into_boxed_str(other))
    }

    fn from_boxed_str(other: BoxedStr) -> (r: Self) {
        rc_from_boxed_str(other)
    }

    fn as_str(&self) -> (r: &str) {
        &**self
    }

    fn duplicate(&self) -> (r: Self) {
        clone_rc_str(self)
    }
}

/// Relies on `<Box<str> as From<&str>>::from`: a new box holding a copy of the
/// characters.
#[verifier::external_body]
pub(crate) fn boxed_from_str(s: &str) -> (r: Box<str>)
    ensures
        r@ == s@,
{
    Box::from(s)
}

/// Relies on `String::into_boxed_str`: the same characters, as a boxed slice.
#[verifier::external_body]
pub(crate) fn string_into_boxed_str(s: String) -> (r: Box<str>)
    ensures
        r@ == s@,
{
    s.into_boxed_str()
}

/// Relies on `<String as From<Box<str>>>::from`: the same characters, as a
/// `String`.
#[verifier::external_body]
pub(crate) fn boxed_str_into_string(b: Box<str>) -> (r: String)
    ensures
        r@ == b@,
{
    String::from(b)
}

/// Relies on `<Box<str> as Clone>::clone`: a new box with the same characters.
#[verifier::external_body]
fn clone_boxed_str(b: &Box<str>) -> (r: Box<str>)
    ensures
        r@ == b@,
{
    b.clone()
}

/// Relies on `<Arc<str> as From<&str>>::from`: a new allocation holding a copy
/// of the characters.
#[verifier::external_body]
fn arc_from_str(s: &str) -> (r: Arc<str>)
    ensures
        (*r)@ == s@,
{
    Arc::from(s)
}

/// Relies on `<Arc<str> as From<Box<str>>>::from`: the same characters, now
/// shared.
#[verifier::external_body]
fn arc_from_boxed_str(b: Box<str>) -> (r: Arc<str>)
    ensures
        (*r)@ == b@,
{
    Arc::from(b)
}

/// Relies on `<Arc<str> as Clone>::clone`: another pointer to the same
/// allocation.
#[verifier::external_body]
fn clone_arc_str(a: &Arc<str>) -> (r: Arc<str>)
    ensures
        (*r)@ == (**a)@,
{
    Arc::clone(a)
}

/// Relies on `<Rc<str> as From<&str>>::from`: a new allocation holding a copy
/// of the characters.
#[verifier::external_body]
fn rc_from_str(s: &str) -> (r: Rc<str>)
    ensures
        (*r)@ == s@,
{
    Rc::from(s)
}

/// Relies on `<Rc<str> as From<Box<str>>>::from`: the same characters, now
/// shared.
#[verifier::external_body]
fn rc_from_boxed_str(b: Box<str>) -> (r: Rc<str>)
    ensures
        (*r)@ == b@,
{
    Rc::from(b)
}

/// Relies on `<Rc<str> as Clone>::clone`: another pointer to the same
/// allocation.
#[verifier::external_body]
fn clone_rc_str(a: &Rc<str>) -> (r: Rc<str>)
    ensures
        (*r)@ == (**a)@,
{
    Rc::clone(a)
}

} // verus!
