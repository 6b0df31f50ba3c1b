use std::sync::atomic::AtomicU16;
use std::sync::atomic::AtomicU32;
use std::sync::atomic::AtomicU64;
use std::sync::atomic::AtomicU8;

use hash_on_write::Borrowed;
use hash_on_write::CellStorer;
use hash_on_write::DefaultHashAlg;
use hash_on_write::FromHash;
use hash_on_write::HashStorer;
use hash_on_write::How;
use hash_on_write::NoneStorer;

type IHow<T> = How<T, DefaultHashAlg, CellStorer<u64>>;
type NHow<T> = How<T, DefaultHashAlg, NoneStorer<u64>>;
type IBorrowed<T> = Borrowed<T, DefaultHashAlg, CellStorer<u64>>;
type NBorrowed<T> = Borrowed<T, DefaultHashAlg, NoneStorer<u64>>;
type AHow<T> = How<T, DefaultHashAlg, AtomicU64>;

#[test]
fn test_none_store() {
    let datas = [
        "foo",
        "",
        "test",
        "bar",
        "a",
        "egg",
        "examples",
        "BIG",
    ];

    for data in datas {
        let mut a = IHow::new(data);
        let mut b = NHow::new(data);

        let code = How::make_hash(&mut a);
        assert_eq!(code, How::make_hash(&mut b));
        assert_eq!(code, NBorrowed::new(data).make_hash());
        assert_eq!(code, NBorrowed::new(data).make_hash());
        assert_eq!(code, IBorrowed::new(data).make_hash());
        assert_eq!(code, IBorrowed::new(data).make_hash());

        // The caching slot kept the code; the non-caching one stayed empty.
        assert!(How::is_hashed(&a));
        assert!(!How::is_hashed(&b));
    }
}

#[test]
fn test_none_storer_never_caches() {
    let mut s: NoneStorer<u64> = HashStorer::fresh();
    assert_eq!(s.get(), None);
    assert_eq!(s.get_or_init(|| 17), 17);
    assert_eq!(s.get(), None);
    // A computed zero is returned as it is: nothing is stored, so nothing
    // needs remapping away from the absent sentinel.
    assert_eq!(s.get_or_init(|| 0), 0);
    s.clear();
    assert_eq!(s.get(), None);
}

#[test]
fn test_zero_remap() {
    let mut s: CellStorer<u64> = HashStorer::fresh();
    assert_eq!(s.get(), None);
    let r = s.get_or_init(|| 0);
    assert_eq!(r, u64::MAX >> 2);
    assert_eq!(s.get(), Some(r));
    // Once present, the stored code wins and the closure is ignored.
    assert_eq!(s.get_or_init(|| 7), r);
    s.clear();
    assert_eq!(s.get(), None);
    assert_eq!(s.get_or_init(|| 7), 7);
    assert_eq!(s.get(), Some(7));
}

#[test]
fn test_cell_width_u8() {
    let mut s: CellStorer<u8> = HashStorer::fresh();
    assert_eq!(s.get_or_init(|| 0u8), u8::MAX >> 2);
    s.clear();
    assert_eq!(s.get_or_init(|| 9u8), 9);
    assert_eq!(s.get(), Some(9));
}

#[test]
fn test_atomic_storer() {
    let mut s: AtomicU64 = HashStorer::fresh();
    assert_eq!(HashStorer::get(&s), None);
    let r = s.get_or_init(|| 0);
    assert_eq!(r, u64::MAX >> 2);
    assert_eq!(HashStorer::get(&s), Some(r));
    HashStorer::clear(&mut s);
    assert_eq!(HashStorer::get(&s), None);
}

#[test]
fn test_atomic_widths() {
    let mut s8: AtomicU8 = HashStorer::fresh();
    assert_eq!(s8.get_or_init(|| 0u8), u8::MAX >> 2);
    assert_eq!(HashStorer::get(&s8), Some(u8::MAX >> 2));
    HashStorer::clear(&mut s8);
    assert_eq!(s8.get_or_init(|| 9u8), 9);

    let mut s16: AtomicU16 = HashStorer::fresh();
    assert_eq!(s16.get_or_init(|| 0u16), u16::MAX >> 2);
    HashStorer::clear(&mut s16);
    assert_eq!(HashStorer::get(&s16), None);

    let mut s32: AtomicU32 = HashStorer::fresh();
    assert_eq!(s32.get_or_init(|| 0u32), u32::MAX >> 2);
    assert_eq!(s32.get_or_init(|| 5u32), u32::MAX >> 2);

    let mut w: How<&str, DefaultHashAlg, AtomicU32> = How::new("hi");
    let code = How::make_hash(&mut w);
    assert_eq!(How::hash_code(&w), Some(code));
}

#[test]
fn test_atomic_wrapper() {
    let mut a = AHow::new("hi");
    let mut b = IHow::new("hi");
    assert!(!How::is_hashed(&a));
    let code = How::make_hash(&mut a);
    // Same algorithm, same width: the atomic slot reports the same code as
    // the cell slot.
    assert_eq!(code, How::make_hash(&mut b));
    assert!(How::is_hashed(&a));
    How::make_mut(&mut a);
    assert!(!How::is_hashed(&a));
}

#[test]
fn test_from_hash_widths() {
    assert_eq!(<u8 as FromHash>::from_hash(0x1234), 0x34);
    assert_eq!(<u16 as FromHash>::from_hash(0xabcd_1234), 0x1234);
    assert_eq!(<u32 as FromHash>::from_hash(0xdead_beef_cafe_f00d), 0xcafe_f00d);
    assert_eq!(<u64 as FromHash>::from_hash(5), 5);

    assert_eq!(<u8 as FromHash>::zero_mapped(), u8::MAX >> 2);
    assert_eq!(<u16 as FromHash>::zero_mapped(), u16::MAX >> 2);
    assert_eq!(<u32 as FromHash>::zero_mapped(), u32::MAX >> 2);
    assert_eq!(<u64 as FromHash>::zero_mapped(), u64::MAX >> 2);

    assert!(<u8 as FromHash>::absent().is_absent());
    assert!(!<u8 as FromHash>::zero_mapped().is_absent());
    assert!(<u64 as FromHash>::from_hash(7).eq_code(&7));
    assert!(!<u64 as FromHash>::from_hash(7).eq_code(&8));
}

#[test]
fn test_hash_one_transient() {
    let code = <CellStorer<u64> as HashStorer>::hash_one::<&str, DefaultHashAlg>(&"hi");
    let mut w = IHow::new("hi");
    assert_eq!(code, How::make_hash(&mut w));
}
