use jvmti::capabilities::{Capabilities, Capability};
use jvmti::error::{status_to_option, status_to_result, wrap_error, NativeError};
use jvmti::event::{EventCallbacks, VMEvent, DISPATCH_TABLE_LEN};
use jvmti::marshal::{drain_native_array, decode_native_string};
use jvmti::version::VersionNumber;

#[test]
fn status_codes_translate_to_their_kinds() {
    assert_eq!(wrap_error(0), NativeError::NoError);
    assert_eq!(wrap_error(10), NativeError::InvalidThread);
    assert_eq!(wrap_error(21), NativeError::InvalidClass);
    assert_eq!(wrap_error(23), NativeError::InvalidMethodId);
    assert_eq!(wrap_error(98), NativeError::NotAvailable);
    assert_eq!(wrap_error(110), NativeError::OutOfMemory);
    assert_eq!(wrap_error(112), NativeError::WrongPhase);
    assert_eq!(wrap_error(113), NativeError::InternalError);
    assert_eq!(wrap_error(116), NativeError::InvalidEnvironment);
}

#[test]
fn undefined_status_codes_are_unknown() {
    assert_eq!(wrap_error(1), NativeError::UnknownError);
    assert_eq!(wrap_error(33), NativeError::UnknownError);
    assert_eq!(wrap_error(114), NativeError::UnknownError);
    assert_eq!(wrap_error(u32::MAX), NativeError::UnknownError);
}

#[test]
fn success_status_is_never_an_error() {
    assert_eq!(status_to_result(0), Ok(()));
    assert_eq!(status_to_result(99), Err(NativeError::MustPossessCapability));
    assert_eq!(status_to_option(0), None);
    assert_eq!(status_to_option(100), Some(NativeError::NullPointer));
}

#[test]
fn version_fields_are_decoded_bit_for_bit() {
    let v = VersionNumber::from_u32(&0x3001_0201);
    assert_eq!(v.major_version, 1);
    assert_eq!(v.minor_version, 2);
    assert_eq!(v.micro_version, 1);
    let w = VersionNumber::from_u32(&0x0ABC_DEF0);
    assert_eq!(w.major_version, 0xABC);
    assert_eq!(w.minor_version, 0xDE);
    assert_eq!(w.micro_version, 0xF0);
    let u = VersionNumber::unknown();
    assert_eq!((u.major_version, u.minor_version, u.micro_version), (0, 0, 0));
}

fn caps_of(list: &[Capability]) -> Capabilities {
    let mut c = Capabilities::new();
    for k in list {
        c.set(*k, true);
    }
    c
}

#[test]
fn merge_is_commutative_idempotent_and_has_empty_identity() {
    let a = caps_of(&[Capability::CanTagObjects, Capability::CanRedefineClasses]);
    let b = caps_of(&[Capability::CanGenerateMethodEntryEvents, Capability::CanRedefineClasses]);
    let empty = Capabilities::new();
    assert_eq!(a.merge(&b), b.merge(&a));
    assert_eq!(a.merge(&a), a);
    assert_eq!(a.merge(&empty), a);
    let m = a.merge(&b);
    assert!(m.has(Capability::CanTagObjects));
    assert!(m.has(Capability::CanRedefineClasses));
    assert!(m.has(Capability::CanGenerateMethodEntryEvents));
    assert!(!m.has(Capability::CanSuspend));
}

#[test]
fn merge_is_associative() {
    let a = caps_of(&[Capability::CanTagObjects]);
    let b = caps_of(&[Capability::CanSuspend]);
    let c = caps_of(&[Capability::CanRetransformAnyClass]);
    assert_eq!(a.merge(&b).merge(&c), a.merge(&b.merge(&c)));
}

#[test]
fn capabilities_round_trip_through_native_bits() {
    let a = caps_of(&[Capability::CanTagObjects, Capability::CanGenerateResourceExhaustionThreadsEvents]);
    assert_eq!(a.to_native(), 1 | (1u64 << 40));
    assert_eq!(Capabilities::from_native(&a.to_native()), a);
    let decoded = Capabilities::from_native(&u64::MAX);
    assert_eq!(decoded.to_native(), (1u64 << 41) - 1);
    assert!(decoded.has(Capability::CanRetransformClasses));
    let mut c = decoded;
    c.set(Capability::CanRetransformClasses, false);
    assert!(!c.has(Capability::CanRetransformClasses));
    assert!(c.has(Capability::CanRetransformAnyClass));
}

#[test]
fn dispatch_table_has_explicit_empty_slots() {
    let mut cb: EventCallbacks<u8> = EventCallbacks::new();
    assert_eq!(cb.dispatch_table(), vec![false; DISPATCH_TABLE_LEN]);
    cb.method_entry = Some(1);
    cb.vm_init = Some(2);
    cb.vm_object_alloc = Some(3);
    let table = cb.dispatch_table();
    assert_eq!(table.len(), 35);
    assert!(table[0]);
    assert!(table[15]);
    assert!(table[34]);
    assert_eq!(table.iter().filter(|s| **s).count(), 3);
    assert!(cb.has_handler(VMEvent::MethodEntry));
    assert!(!cb.has_handler(VMEvent::MethodExit));
    assert_eq!(VMEvent::MethodEntry.native_code(), 65);
    assert_eq!(VMEvent::at_slot(15), Some(VMEvent::MethodEntry));
    assert_eq!(VMEvent::at_slot(22), None);
}

#[test]
fn draining_zero_elements_reads_nothing() {
    let none: Vec<u64> = drain_native_array(0, |_i: usize| -> u64 { panic!("read past an empty array") });
    assert!(none.is_empty());
    let negative: Vec<u64> = drain_native_array(-4, |_i: usize| -> u64 { panic!("read past an empty array") });
    assert!(negative.is_empty());
}

#[test]
fn draining_reads_each_element_once_in_order() {
    let native = [7u64, 8, 9, 10];
    let reads = std::cell::Cell::new(0usize);
    let out = drain_native_array(3, |i: usize| {
        reads.set(reads.get() + 1);
        native[i]
    });
    assert_eq!(out, vec![7, 8, 9]);
    assert_eq!(reads.get(), 3);
}

#[test]
fn string_decoding_uses_sentinels() {
    assert_eq!(decode_native_string(None), "(NULL)");
    assert_eq!(decode_native_string(Some(&[0xff, 0xfe][..])), "(UTF8-ERROR)");
    assert_eq!(decode_native_string(Some("java/lang/Object".as_bytes())), "java/lang/Object");
    assert_eq!(decode_native_string(Some("h\u{e9}llo".as_bytes())), "h\u{e9}llo");
    assert_eq!(decode_native_string(Some(&[][..])), "");
}
