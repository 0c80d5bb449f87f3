use std::borrow::Cow;
use std::cmp::Ordering;

use kstring::{KString, KStringCow, KStringRef, StackString};

#[test]
fn kstring_from_conversions() {
    let long = "l".repeat(32);
    assert_eq!(KString::from(String::from("a")).as_str(), "a");
    assert_eq!(KString::from(&String::from("b")).as_str(), "b");
    assert_eq!(KString::from(long.clone().into_boxed_str()).as_str(), long.as_str());
    let boxed: Box<str> = Box::from("c");
    assert_eq!(KString::from(&boxed).as_str(), "c");
    assert_eq!(KString::from(KStringRef::from_static("d")).as_str(), "d");
    let r = KStringRef::from_ref("e");
    assert_eq!(KString::from(&r).as_str(), "e");
    assert_eq!(KString::from(KStringCow::from_ref("f")).as_str(), "f");
    let c = KStringCow::from_static("g");
    assert_eq!(KString::from(&c).as_str(), "g");
    let k: KString = "h".into();
    assert_eq!(k.as_str(), "h");
    let parsed: KString = "parsed".parse().unwrap();
    assert_eq!(parsed.as_str(), "parsed");
}

#[test]
fn cow_from_conversions() {
    let owned = String::from("borrowed");
    let c = KStringCow::from(&owned);
    assert_eq!(c.as_str().as_ptr(), owned.as_ptr());
    assert_eq!(KStringCow::from(String::from("s")).as_str(), "s");
    let boxed: Box<str> = Box::from("boxed");
    assert_eq!(KStringCow::from(&boxed).as_str().as_ptr(), boxed.as_ptr());
    assert_eq!(KStringCow::from(Box::<str>::from("b2")).as_str(), "b2");
    let k = KString::from_ref("owned");
    let c = KStringCow::from(&k);
    assert_eq!(c.as_str(), "owned");
    let lit: &'static str = "static";
    let k = KString::from_static(lit);
    match KStringCow::from(&k).into_cow_str() {
        Cow::Borrowed(b) => assert_eq!(b.as_ptr(), lit.as_ptr()),
        Cow::Owned(_) => panic!("expected a borrowed cow"),
    }
    let r = KStringRef::from_static(lit);
    match KStringCow::from(r).into_cow_str() {
        Cow::Borrowed(b) => assert_eq!(b.as_ptr(), lit.as_ptr()),
        Cow::Owned(_) => panic!("expected a borrowed cow"),
    }
    let r = KStringRef::from_ref(&owned);
    assert_eq!(KStringCow::from(&r).as_str().as_ptr(), owned.as_ptr());
    let parsed: KStringCow<'_> = "parsed".parse().unwrap();
    assert_eq!(parsed.as_str(), "parsed");
}

#[test]
fn ref_from_conversions() {
    let owned = String::from("ref");
    assert_eq!(KStringRef::from(&owned).as_str().as_ptr(), owned.as_ptr());
    let boxed: Box<str> = Box::from("boxed");
    assert_eq!(KStringRef::from(&boxed).as_str().as_ptr(), boxed.as_ptr());
    let c = KStringCow::from_ref(&owned);
    assert_eq!(KStringRef::from(&c).as_str().as_ptr(), owned.as_ptr());
}

#[test]
fn ordering_follows_bytes() {
    let a = KString::from_static("apple");
    let b = KString::from_ref("banana");
    let long = KString::from_ref(&"apple".repeat(5));
    assert!(a < b);
    assert!(b > a);
    assert!(a < long);
    assert_eq!(a.partial_cmp(&KString::from_ref("apple")), Some(Ordering::Equal));
    assert!(KString::from_ref("Z") < KString::from_ref("a"));
    assert!(KString::from_ref("") < KString::from_ref("\u{0}"));
    assert!(KStringRef::from_static("ab") < KStringRef::from_static("b"));
    assert!(KStringCow::from_static("x") > KStringCow::from_ref("w"));
    let s1 = StackString::<8>::try_new("é").unwrap();
    let s2 = StackString::<8>::try_new("z").unwrap();
    assert!(s2 < s1);
}
