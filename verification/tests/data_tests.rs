use evdev::bus_name;
use evdev::data::{AbsoluteAxis, Led, Synchronization, Types};
use evdev::data::{ABSOLUTE, ABS_MT_SLOT, KEY, LED, LED_MAX, SYNCHRONIZATION, SYN_DROPPED,
    SYN_REPORT, TYPES_ALL};
use evdev::raw::{input_id, uinput_setup, UINPUT_MAX_NAME_SIZE};
use evdev::uinput::{build_event, Builder};
use evdev::Error;

#[test]
fn type_masks_accept_only_known_bits() {
    let t = Types::from_bits(SYNCHRONIZATION | KEY | ABSOLUTE).unwrap();
    assert_eq!(t.bits(), SYNCHRONIZATION | KEY | ABSOLUTE);
    assert!(t.contains(KEY));
    assert!(!t.contains(LED));
    assert!(Types::from_bits(1 << 6).is_none());
    assert!(Types::from_bits(TYPES_ALL).is_some());
}

#[test]
fn absolute_masks_cover_the_multitouch_block() {
    let a = AbsoluteAxis::from_bits(ABS_MT_SLOT).unwrap();
    assert!(a.contains(ABS_MT_SLOT));
    assert!(AbsoluteAxis::from_bits(1u64 << 62).is_none());
}

#[test]
fn led_masks_include_the_top_bit() {
    assert!(Led::from_bits(LED_MAX).is_some());
    assert!(Led::from_bits(1 << 14).is_none());
}

#[test]
fn number_names_the_single_set_bit() {
    assert_eq!(Types { bits: SYNCHRONIZATION }.number(), 0);
    assert_eq!(Types { bits: KEY }.number(), 1);
    assert_eq!(Types { bits: ABSOLUTE }.number(), 3);
    assert_eq!(Types { bits: LED }.number(), 0x11);
}

#[test]
fn synchronization_codes_match_the_wire() {
    assert_eq!(Synchronization::SYN_REPORT.code(), SYN_REPORT);
    assert_eq!(Synchronization::SYN_DROPPED.code(), SYN_DROPPED);
    assert_eq!(SYN_REPORT, 0);
    assert_eq!(SYN_DROPPED, 3);
}

#[test]
fn bus_names_are_stable() {
    assert_eq!(bus_name(0x3), "USB");
    assert_eq!(bus_name(0x5), "Bluetooth");
    assert_eq!(bus_name(0xAB), "Unknown");
}

#[test]
fn setup_name_is_zero_terminated_and_padded() {
    let mut s = uinput_setup::new(input_id { bustype: 6, vendor: 0, product: 0, version: 0 });
    assert_eq!(s.name.len(), UINPUT_MAX_NAME_SIZE);
    s.set_name(b"virtual pad").unwrap();
    assert_eq!(s.name.len(), UINPUT_MAX_NAME_SIZE);
    assert_eq!(&s.name[..11], b"virtual pad");
    assert!(s.name[11..].iter().all(|b| *b == 0));
}

#[test]
fn setup_name_rejects_oversize_and_interior_zero() {
    let mut s = uinput_setup::new(input_id { bustype: 6, vendor: 0, product: 0, version: 0 });
    let long = vec![b'x'; UINPUT_MAX_NAME_SIZE];
    assert_eq!(s.set_name(&long), Err(Error::PathInvalid));
    assert_eq!(s.set_name(b"a\0b"), Err(Error::PathInvalid));
    let exact = vec![b'x'; UINPUT_MAX_NAME_SIZE - 1];
    assert!(s.set_name(&exact).is_ok());
}

#[test]
fn injection_record_carries_the_category_code() {
    let e = build_event(Types { bits: KEY }, 30, 1);
    assert_eq!(e._type, 1);
    assert_eq!(e.code, 30);
    assert_eq!(e.value, 1);
    assert_eq!((e.time.tv_sec, e.time.tv_usec), (0, 0));
}

#[test]
fn builder_keeps_its_descriptor_through_creation() {
    let b = Builder::with_fd(7);
    assert_eq!(b.fd(), 7);
    let d = b.into_device();
    assert_eq!(d.fd(), 7);
}
