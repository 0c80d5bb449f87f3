use std::borrow::Cow;
use std::collections::hash_map::DefaultHasher;
use std::collections::HashMap;
use std::hash::{Hash, Hasher};

use kstring::{KString, KStringCow, KStringRef, StackString, ALIGNED_CAPACITY, CAPACITY, MAX_CAPACITY};

fn hash_of<T: Hash + ?Sized>(v: &T) -> u64 {
    let mut h = DefaultHasher::new();
    v.hash(&mut h);
    h.finish()
}

/// Whether the bytes of `s` lie inside the memory of `k` itself.
fn stored_inside(k: &KString) -> bool {
    let start = std::ptr::from_ref(k) as usize;
    let end = start + std::mem::size_of::<KString>();
    let p = k.as_str().as_ptr() as usize;
    start <= p && p < end
}

#[test]
fn test_search_in_hashmap() {
    let mut m = HashMap::<KString, i32>::new();
    m.insert("aaa".into(), 17);
    assert_eq!(17, *m.get("aaa").unwrap());
}

#[test]
fn lib_test_size() {
    println!("String: {}", std::mem::size_of::<String>());
    println!("Box<str>: {}", std::mem::size_of::<Box<str>>());
    println!("Box<Box<str>>: {}", std::mem::size_of::<Box<Box<str>>>());
    println!("str: {}", std::mem::size_of::<&'static str>());
    println!("Cow: {}", std::mem::size_of::<Cow<'static, str>>());
}

#[test]
fn string_test_size() {
    println!("KString: {}", std::mem::size_of::<KString>());
}

#[test]
fn size_matches_native_string() {
    assert_eq!(std::mem::size_of::<KString>(), std::mem::size_of::<String>());
    assert_eq!(
        std::mem::size_of::<StackString<ALIGNED_CAPACITY>>(),
        std::mem::size_of::<Box<str>>()
    );
    assert_eq!(
        std::mem::size_of::<StackString<MAX_CAPACITY>>() + 1,
        std::mem::size_of::<String>()
    );
}

#[test]
fn from_ref_inlines_up_to_capacity() {
    let at = "a".repeat(CAPACITY);
    let over = "a".repeat(CAPACITY + 1);
    let k = KString::from_ref(&at);
    assert_eq!(k.as_str(), at.as_str());
    assert!(stored_inside(&k));
    let k = KString::from_ref(&over);
    assert_eq!(k.as_str(), over.as_str());
    assert!(!stored_inside(&k));
}

#[test]
fn from_ref_counts_bytes_not_chars() {
    // seven two-byte characters and one byte: fifteen bytes
    let at = format!("{}a", "é".repeat(7));
    assert_eq!(at.len(), CAPACITY);
    assert!(stored_inside(&KString::from_ref(&at)));
    let over = "é".repeat(8);
    assert!(!stored_inside(&KString::from_ref(&over)));
    assert!(KString::try_inline(&at).is_some());
    assert!(KString::try_inline(&over).is_none());
}

#[test]
fn empty_string_is_inline() {
    let k = KString::from_ref("");
    assert!(stored_inside(&k));
    assert_eq!(k.as_str(), "");
    assert!(KString::try_inline("").is_some());
}

#[test]
fn from_string_and_from_boxed_follow_the_boundary() {
    let at = "b".repeat(CAPACITY);
    let over = "b".repeat(CAPACITY + 1);
    assert!(stored_inside(&KString::from_string(at.clone())));
    assert!(!stored_inside(&KString::from_string(over.clone())));
    assert!(stored_inside(&KString::from_boxed(at.clone().into_boxed_str())));
    let boxed = over.clone().into_boxed_str();
    let p = boxed.as_ptr();
    let k = KString::from_boxed(boxed);
    assert_eq!(k.as_str().as_ptr(), p);
    assert_eq!(k.as_str(), over.as_str());
}

#[test]
fn round_trip_through_string() {
    for s in ["", "a", "hello", "a somewhat longer string than fits", "日本語のテキスト"] {
        let owned = s.to_string();
        let k = KString::from_string(owned.clone());
        assert_eq!(k.as_str(), s);
        assert_eq!(k.into_string(), owned);
        let k = KString::from_ref(s);
        assert_eq!(k.clone().into_boxed_str().as_ref(), s);
        assert_eq!(k.into_string(), owned);
    }
}

#[test]
fn equality_ignores_representation() {
    let a = KString::from_static("ab");
    let b = KString::from_string(String::from("ab"));
    let c = KString::try_inline("ab").unwrap();
    assert!(a == b);
    assert!(b == c);
    assert!(a == c);
    assert_eq!(hash_of(&a), hash_of(&b));
    assert_eq!(hash_of(&b), hash_of(&c));
    assert_eq!(hash_of(&a), hash_of("ab"));
    let long = "x".repeat(40);
    let heap = KString::from_ref(&long);
    let stat = KString::from_static("xxxxxxxxxxxxxxxxxxxxxxxxxxxxxxxxxxxxxxxx");
    assert!(heap == stat);
    assert_eq!(hash_of(&heap), hash_of(&stat));
}

#[test]
fn inequality_of_different_strings() {
    let a = KString::from_static("ab");
    let b = KString::from_ref("abc");
    assert!(a != b);
    assert!(a == *"ab");
    assert!(a != *"ba");
    assert!(a == String::from("ab"));
    assert!(a != String::from("abc"));
}

#[test]
fn static_into_cow_is_borrowed() {
    let lit: &'static str = "a static literal that is long";
    match KString::from_static(lit).into_cow_str() {
        Cow::Borrowed(b) => assert_eq!(b.as_ptr(), lit.as_ptr()),
        Cow::Owned(_) => panic!("expected a borrowed cow"),
    }
    match KString::from_ref("short").into_cow_str() {
        Cow::Owned(o) => assert_eq!(o, "short"),
        Cow::Borrowed(_) => panic!("expected an owned cow"),
    }
    let long = "y".repeat(30);
    match KString::from_ref(&long).into_cow_str() {
        Cow::Owned(o) => assert_eq!(o, long),
        Cow::Borrowed(_) => panic!("expected an owned cow"),
    }
}

#[test]
fn new_and_default_are_empty() {
    assert_eq!(KString::new().as_str(), "");
    assert_eq!(KString::default().as_str(), "");
    assert_eq!(KStringRef::new().as_str(), "");
    assert_eq!(KStringRef::default().as_str(), "");
    assert_eq!(KStringCow::new().as_str(), "");
    assert_eq!(KStringCow::default().as_str(), "");
}

#[test]
fn as_ref_keeps_static_data() {
    let lit: &'static str = "literal";
    let k = KString::from_static(lit);
    let r = k.as_ref();
    assert_eq!(r.as_str().as_ptr(), lit.as_ptr());
    let owned = r.to_owned();
    match owned.into_cow_str() {
        Cow::Borrowed(b) => assert_eq!(b.as_ptr(), lit.as_ptr()),
        Cow::Owned(_) => panic!("expected a borrowed cow"),
    }
}

#[test]
fn clone_keeps_contents() {
    let long = "z".repeat(50);
    for k in [KString::from_static("s"), KString::from_ref("inline"), KString::from_ref(&long)] {
        let c = k.clone();
        assert_eq!(c.as_str(), k.as_str());
        assert!(c == k);
    }
}

#[test]
fn deref_gives_str_methods() {
    let k = KString::from_ref("hello");
    assert_eq!(k.len(), 5);
    assert!(!k.is_empty());
    assert!(k.starts_with("he"));
}
