use hash_on_write::Borrowed;
use hash_on_write::How;

#[test]
fn test_eq() {
    let mut a = How::new_default("hi");
    let b = How::new_default("hi");
    assert_eq!(a, b);
    assert!(!How::is_hashed(&a));
    assert!(!How::is_hashed(&b));

    How::make_hash(&mut a);
    assert!(How::is_hashed(&a));
    assert_eq!(a, b);

    How::make_mut(&mut a);
    assert!(!How::is_hashed(&a));
    assert_eq!(a, b);
}

#[test]
fn test_ne() {
    let mut a = How::new_default("hi");
    let b = How::new_default("hello");

    assert_ne!(a, b);

    How::make_hash(&mut a);
    assert_ne!(a, b);

    How::make_mut(&mut a);
    assert_ne!(a, b);
}

#[test]
fn test_hash() {
    let mut a = How::new_default("hi");
    let mut b = How::new_default("hi");

    let a_code = How::make_hash(&mut a);

    assert_eq!(a_code, How::make_hash(&mut b));
    assert!(How::is_hashed(&a));
    assert!(How::is_hashed(&b));

    assert_eq!(a_code, How::make_hash(&mut b));
    assert!(How::is_hashed(&a));
    assert!(How::is_hashed(&b));
}

#[test]
fn test_wrap_uncached() {
    let w = How::new_default("anything");
    assert!(!How::is_hashed(&w));
    assert_eq!(How::hash_code(&w), None);

    let n = How::new_default(42u64);
    assert!(!How::is_hashed(&n));

    let s = How::new_default(String::from("owned"));
    assert!(!How::is_hashed(&s));
}

#[test]
fn test_hash_once() {
    let mut w = How::new_default("memo");
    let first = How::make_hash(&mut w);
    assert!(How::is_hashed(&w));
    assert_eq!(How::hash_code(&w), Some(first));

    let second = How::make_hash(&mut w);
    assert_eq!(first, second);
    assert_eq!(How::hash_code(&w), Some(first));
}

#[test]
fn test_make_mut_clears() {
    let mut w = How::new_default("target");
    How::make_hash(&mut w);
    assert!(How::is_hashed(&w));

    // The reference is never written through; the cache clears anyway.
    let _unused = How::make_mut(&mut w);
    assert!(!How::is_hashed(&w));
    assert_eq!(*How::value(&w), "target");

    How::make_hash(&mut w);
    *How::make_mut(&mut w) = "changed";
    assert!(!How::is_hashed(&w));
    assert_eq!(*How::value(&w), "changed");
}

#[test]
fn test_unequal_codes() {
    let mut a = How::new_default("hi");
    let mut b = How::new_default("hello");
    let ca = How::make_hash(&mut a);
    let cb = How::make_hash(&mut b);

    // Both caches populated with differing codes: the comparison decides
    // through the codes alone.
    assert_ne!(ca, cb);
    assert_ne!(a, b);
}

#[test]
fn test_cross_type() {
    let mut w = How::new_default("a");
    let v: Borrowed<&str> = Borrowed::new("a");

    assert_eq!(How::make_hash(&mut w), v.make_hash());
    assert_eq!(How::hash_code(&w), Some(v.make_hash()));
    assert!(w == v);
    assert!(w == "a");
    assert!(v == "a");

    let other: Borrowed<&str> = Borrowed::new("b");
    assert_ne!(How::make_hash(&mut w), other.make_hash());
}

#[test]
fn test_into_inner() {
    let mut w = How::new_default(String::from("keep"));
    How::make_hash(&mut w);
    let inner = How::into_inner(w);
    assert_eq!(inner, "keep");
}

#[test]
fn test_from_conversion() {
    let w: How<&str> = "via".into();
    assert!(!How::is_hashed(&w));
    assert_eq!(*How::value(&w), "via");
    let n = How::<u64>::from(5);
    assert!(!How::is_hashed(&n));
    assert_eq!(How::into_inner(n), 5);
}

#[test]
fn test_clone_keeps_cache() {
    let mut a = How::new_default("dup");
    let code = How::make_hash(&mut a);
    let b = a.clone();
    // The clone carries the populated cache; nothing is recomputed.
    assert_eq!(How::hash_code(&b), Some(code));
    assert_eq!(*How::value(&b), "dup");

    let fresh = How::new_default("dup");
    let c = fresh.clone();
    assert!(!How::is_hashed(&c));
}

#[test]
fn test_default_wrapper() {
    let w: How<u64> = Default::default();
    assert!(!How::is_hashed(&w));
    assert_eq!(*How::value(&w), 0);
}

#[test]
fn test_ordering() {
    let a = How::new_default(1u64);
    let b = How::new_default(2u64);
    assert!(a < b);
    assert!(b > a);
    let x: Borrowed<u64> = Borrowed::new(1);
    let y: Borrowed<u64> = Borrowed::new(2);
    assert!(x < y);
    assert!(a < 5u64);
    assert!(x < 5u64);
}
