use std::borrow::Cow;

use kstring::{KString, KStringRef, CAPACITY};

#[test]
fn string_ref_test_size() {
    println!("KStringRef: {}", std::mem::size_of::<KStringRef<'static>>());
}

#[test]
fn ref_views_read_back() {
    let owned = String::from("borrowed");
    let r = KStringRef::from_ref(&owned);
    assert_eq!(r.as_str(), "borrowed");
    assert_eq!(r.as_str().as_ptr(), owned.as_ptr());
    let s = KStringRef::from_static("static");
    assert_eq!(s.as_str(), "static");
    assert_eq!(s.into_mut(), String::from("static"));
}

#[test]
fn ref_to_owned_follows_the_boundary() {
    let at = "r".repeat(CAPACITY);
    let over = "r".repeat(CAPACITY + 1);
    let k = KStringRef::from_ref(&at).to_owned();
    assert_eq!(k.as_str(), at.as_str());
    assert_ne!(k.as_str().as_ptr(), at.as_ptr());
    let k = KStringRef::from_ref(&over).to_owned();
    assert_eq!(k.as_str(), over.as_str());
    match KStringRef::from_static("st").to_owned().into_cow_str() {
        Cow::Borrowed(b) => assert_eq!(b, "st"),
        Cow::Owned(_) => panic!("expected a borrowed cow"),
    }
}

#[test]
fn ref_equality_ignores_representation() {
    let owned = String::from("same");
    let a = KStringRef::from_ref(&owned);
    let b = KStringRef::from_static("same");
    assert!(a == b);
    assert!(a == *"same");
    assert!(a == owned);
    assert!(a != KStringRef::from_static("other"));
    let k = KString::from_ref("same");
    let c: KStringRef<'_> = (&k).into();
    assert!(c == a);
    let d: KStringRef<'_> = "same".into();
    assert!(d == b);
}
