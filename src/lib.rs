//! Key strings: immutable strings optimized for use as map keys.
//!
//! Small strings are stored inline, `'static` strings are kept as references,
//! and only long non-static strings go to the heap.
pub mod backend;
mod laws;
mod stack;
mod string;
mod string_cow;
mod string_ref;
mod text;

pub use backend::{ArcStr, BoxedStr, DefaultStr, RcStr, StorageBackend};
pub use laws::{law_equality_ignores_representation, law_inline_boundary, law_round_trip};
pub use stack::{StackString, LEN_MAX};
pub use string::{fits_inline, KString, ALIGNED_CAPACITY, CAPACITY, MAX_CAPACITY};
pub use string_cow::KStringCow;
pub use string_ref::KStringRef;
pub use text::{lex_cmp, str_order};
