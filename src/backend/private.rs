use vstd::prelude::*;

verus! {

/// Closes the set of storage backends: only the types listed here can
/// implement `StorageBackend`.
pub trait Sealed {}

impl Sealed for super::BoxedStr {}

impl Sealed for super::ArcStr {}

impl Sealed for super::RcStr {}

} // verus!
