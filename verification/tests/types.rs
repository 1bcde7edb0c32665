use core::mem::size_of as sof;
use memflex::{
    BitField, BitFieldMut, Flow, Function, Global, ListEntry, MemoryProtection, MemoryRegion,
    MfError, ModuleInfo, MutPtr, NullError, Protection, Ptr, StaticCell, TStr, UnicodeString,
};

#[test]
fn ptr_test_ptr_size() {
    assert_eq!(sof::<Ptr<'static, ()>>(), sof::<usize>());
}

#[test]
fn mut_test_ptr_size() {
    assert_eq!(sof::<MutPtr<'static, ()>>(), sof::<usize>());
}

#[test]
fn test_ptr_new_and_null() {
    let v = 5u32;
    let p = Ptr::new(&v);
    assert_eq!(p.some(), Some(&5u32));
    let n: Ptr<'static, u32> = Ptr::null();
    assert!(n.some().is_none());
    let m: MutPtr<'static, u32> = MutPtr::null();
    assert!(matches!(m, MutPtr::Null));
}

struct NullMarker;

impl NullError for NullMarker {
    fn null() -> Self {
        NullMarker
    }
}

#[test]
fn test_flow_conversions() {
    let done: Flow<i32> = Flow::Done(7);
    assert_eq!(done.some(), Some(7));
    let done: Flow<i32> = Flow::Done(7);
    assert!(matches!(done.ok::<NullMarker>(), Ok(7)));
    let null: Flow<i32> = Flow::Null;
    assert!(null.is_null());
    assert_eq!(null.some(), None);
    let null: Flow<i32> = Flow::Null;
    assert!(null.ok::<NullMarker>().is_err());
    let done: Flow<i32> = Flow::Done(9);
    assert_eq!(done.unwrap(), 9);
}

#[test]
fn test_protection_parse() {
    let p = Protection::parse("r-x");
    assert!(p.read());
    assert!(!p.write());
    assert!(p.execute());

    let all = Protection::parse("rwx");
    assert!(all.read() && all.write() && all.execute());
    assert_eq!(all.to_os(), 7);

    let none = Protection::parse("---");
    assert!(!none.read() && !none.write() && !none.execute());
    assert_eq!(none.to_os(), 0);
}

#[test]
fn test_protection_os_round() {
    let p = Protection::from_os(5);
    assert!(p.read());
    assert!(!p.write());
    assert!(p.execute());
    assert_eq!(p.to_os(), 5);
    // Bits outside the three flags are dropped.
    let q = Protection::from_os(0x78);
    assert!(!q.read());
}

#[test]
fn test_memory_protection_flags() {
    assert!(MemoryProtection(0x40).read());
    assert!(MemoryProtection(0x40).write());
    assert!(MemoryProtection(0x40).execute());

    assert!(MemoryProtection(0x02).read());
    assert!(!MemoryProtection(0x02).write());
    assert!(!MemoryProtection(0x02).execute());

    assert!(!MemoryProtection(0x01).read());
    assert!(!MemoryProtection(0x01).write());
    assert!(!MemoryProtection(0x01).execute());

    assert!(MemoryProtection(0x10).execute());
    assert!(!MemoryProtection(0x10).write());
}

#[test]
fn test_unicode_string_lengths() {
    let s = UnicodeString::new(10, 12, 0xdead);
    assert_eq!(s.len(), 5);
    assert_eq!(s.bytes_len(), 10);
    assert_eq!(s.capacity(), 12);
    assert!(!s.is_empty());
    assert!(!s.is_null());

    let empty = UnicodeString::new(0, 0, 0);
    assert!(empty.is_empty());
    assert!(empty.is_null());
    assert_eq!(empty.len(), 0);
}

#[test]
fn test_list_entry_null() {
    let e: ListEntry<8> = ListEntry::null();
    assert_eq!(e.next(), None);
    assert_eq!(e.prev(), None);
}

#[test]
fn test_tstr_address() {
    let t = TStr::from_ptr(0x1000);
    assert_eq!(t.as_ptr(), 0x1000);
}

#[test]
fn test_module_info_region() {
    let m = ModuleInfo { base: 0x400000, size: 0x1000 };
    assert_eq!(m.base + m.size, 0x401000);
    let r = MemoryRegion { from: 1, to: 5, prot: Protection::parse("rw-") };
    assert!(r.prot.write());
    assert_eq!(r.to - r.from, 4);
}

#[test]
fn test_error_values() {
    assert_eq!(MfError::NtStatus(5), MfError::NtStatus(5));
    assert_ne!(MfError::ProcessNotFound, MfError::ModuleNotFound);
    assert_eq!(MfError::Errno(2), MfError::Errno(2));
}

fn fixed_resolver() -> usize {
    0x1234
}

#[test]
fn test_function_resolves_once() {
    let mut f: Function<fn(), _> = Function::new(fixed_resolver);
    assert_eq!(f.address(), 0x1234);
    assert_eq!(f.address(), 0x1234);
    f.force();
    assert_eq!(f.address(), 0x1234);
}

#[test]
fn test_global_lazy_address() {
    let mut g: Global<u64, _> = Global::new(fixed_resolver);
    assert_eq!(g.address(), 0x1234);
    g.force();
    assert_eq!(g.address(), 0x1234);
}

#[test]
fn test_global_by_module_offset() {
    let mut g: memflex::global::Global<u64, _> =
        memflex::global::Global::new(|m: &'static str, o: usize| m.len() + o, "app.exe", 0x10);
    assert_eq!(g.resolve(), 7 + 0x10);
    assert_eq!(g.resolve(), 7 + 0x10);
}

#[test]
fn test_static_cell() {
    let mut cell = StaticCell::new(|| 15);
    assert_eq!(*cell.value(), 15);
    assert_eq!(*cell.value(), 15);
}

#[test]
fn test_bitfield_get() {
    let x = 0b_1101_1101u8;
    let a: BitField<u8, 0, 4> = BitField::from_bits(x);
    assert_eq!(a.get(), 0b1101);
    let b: BitField<u8, 4, 3> = BitField::from_bits(x);
    assert_eq!(b.get(), 0b101);
    let c: BitField<u8, 7, 1> = BitField::from_bits(x);
    assert_eq!(c.get(), 1);
}

#[test]
fn test_bitfield_set() {
    let x = 0b_1101_1101u8;
    let mut a: BitFieldMut<u8, 0, 4> = BitFieldMut::from_bits(x);
    a.set(0b0110);
    assert_eq!(a.bits(), 0b_1101_0110);
    let mut b: BitFieldMut<u8, 4, 3> = BitFieldMut::from_bits(a.bits());
    b.set(0b101);
    assert_eq!(b.bits(), 0b_1101_0110);
    let mut c: BitFieldMut<u8, 7, 1> = BitFieldMut::from_bits(b.bits());
    c.set(0);
    assert_eq!(c.bits(), 0b_0101_0110);
}

#[test]
fn test_bitfield_wide_types() {
    let w: BitField<u32, 8, 16> = BitField::from_bits(0xAABB_CCDDu32);
    assert_eq!(w.get(), 0xBBCC);
    let q: BitField<u64, 32, 32> = BitField::from_bits(0x1122_3344_5566_7788u64);
    assert_eq!(q.get(), 0x1122_3344);
}
