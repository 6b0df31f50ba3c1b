use std::rc::Rc;
use std::sync::Arc;

use hash_on_write::CellStorer;
use hash_on_write::DefaultHashAlg;
use hash_on_write::How;

type RcHow<T> = How<T, DefaultHashAlg, Rc<CellStorer<u64>>>;
type ArcHow<T> = How<T, DefaultHashAlg, Arc<CellStorer<u64>>>;

#[test]
fn test_shared_isolation() {
    let mut a: RcHow<&str> = How::new("dup");
    let code = How::make_hash(&mut a);
    let mut b = a.clone();

    // Both handles now share one populated slot (reference count 2).
    assert_eq!(How::hash_code(&b), Some(code));
    assert_eq!(How::hash_code(&a), Some(code));

    // Mutating one handle clears only its own cache: the slot is shared, so
    // the pointer is replaced with a fresh slot instead of clearing the
    // pointee under the sibling.
    *How::make_mut(&mut a) = "other";
    assert!(!How::is_hashed(&a));
    assert_eq!(*How::value(&a), "other");

    assert_eq!(How::hash_code(&b), Some(code));
    assert_eq!(*How::value(&b), "dup");
    assert_eq!(How::make_hash(&mut b), code);
}

#[test]
fn test_shared_populate_after_clone() {
    let mut a: RcHow<&str> = How::new("dup");
    let mut b = a.clone();

    // Populating through one handle while the slot is shared forks a
    // private slot: the sibling stays unpopulated and unaffected.
    let ca = How::make_hash(&mut a);
    assert!(How::is_hashed(&a));
    assert!(!How::is_hashed(&b));

    let cb = How::make_hash(&mut b);
    assert_eq!(ca, cb);
    assert!(How::is_hashed(&b));
}

#[test]
fn test_shared_unique_clears_in_place() {
    let mut a: RcHow<&str> = How::new("solo");
    let code = How::make_hash(&mut a);
    assert_eq!(How::hash_code(&a), Some(code));

    // The sole owner clears its slot in place.
    *How::make_mut(&mut a) = "next";
    assert!(!How::is_hashed(&a));
    assert_eq!(*How::value(&a), "next");
}

#[test]
fn test_shared_arc() {
    let mut a: ArcHow<&str> = How::new("dup");
    let code = How::make_hash(&mut a);
    let mut b = a.clone();

    *How::make_mut(&mut a) = "other";
    assert!(!How::is_hashed(&a));
    assert_eq!(How::hash_code(&b), Some(code));
    assert_eq!(*How::value(&b), "dup");
    assert_eq!(How::make_hash(&mut b), code);
}
