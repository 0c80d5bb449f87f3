use kstring::{StackString, CAPACITY};

#[test]
fn inline_test_size() {
    println!("StackString: {}", std::mem::size_of::<StackString<CAPACITY>>());
}

#[test]
fn try_new_fits_exactly_at_capacity() {
    let at = "q".repeat(CAPACITY);
    let over = "q".repeat(CAPACITY + 1);
    let s = StackString::<CAPACITY>::try_new(&at).unwrap();
    assert_eq!(s.as_str(), at.as_str());
    assert_eq!(s.len(), CAPACITY);
    assert!(StackString::<CAPACITY>::try_new(&over).is_none());
    assert!(StackString::<4>::try_new("abcd").is_some());
    assert!(StackString::<4>::try_new("abcde").is_none());
}

#[test]
fn new_unchecked_copies_bytes() {
    let s = StackString::<8>::new_unchecked("añb");
    assert_eq!(s.as_str(), "añb");
    assert_eq!(s.len(), 4);
    assert!(!s.is_empty());
}

#[test]
fn clear_empties_the_string() {
    let mut s = StackString::<CAPACITY>::try_new("hello").unwrap();
    s.clear();
    assert_eq!(s.len(), 0);
    assert_eq!(s.as_str(), "");
    assert!(s.is_empty());
}

#[test]
fn truncate_keeps_a_prefix() {
    let mut s = StackString::<CAPACITY>::try_new("hello").unwrap();
    s.truncate(3);
    assert_eq!(s.as_str(), "hel");
    s.truncate(10);
    assert_eq!(s.as_str(), "hel");
    s.truncate(3);
    assert_eq!(s.as_str(), "hel");
    s.truncate(0);
    assert_eq!(s.as_str(), "");
}

#[test]
fn truncate_on_a_multibyte_boundary() {
    let mut s = StackString::<CAPACITY>::try_new("aé€b").unwrap();
    assert_eq!(s.len(), 7);
    s.truncate(6);
    assert_eq!(s.as_str(), "aé€");
    s.truncate(3);
    assert_eq!(s.as_str(), "aé");
    s.truncate(1);
    assert_eq!(s.as_str(), "a");
}

#[test]
fn equality_and_default() {
    let a = StackString::<CAPACITY>::try_new("xy").unwrap();
    let mut b = StackString::<CAPACITY>::try_new("xyz").unwrap();
    assert!(a != b);
    b.truncate(2);
    assert!(a == b);
    let d = StackString::<CAPACITY>::default();
    assert_eq!(d.as_str(), "");
    let c = a;
    assert_eq!(&*c, "xy");
}
