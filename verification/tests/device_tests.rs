use evdev::data::{ABSOLUTE, KEY, LED, RELATIVE, SWITCH, SYNCHRONIZATION};
use evdev::device::{Device, Probe};
use evdev::raw::{encode_record, input_event, input_id, TimeVal};
use evdev::Error;

fn ev(t: u16, c: u16, v: i32) -> input_event {
    input_event { time: TimeVal { tv_sec: 0, tv_usec: 0 }, _type: t, code: c, value: v }
}

fn key_down(code: u16) -> input_event {
    ev(1, code, 1)
}

fn terminator() -> input_event {
    ev(0, 0, 0)
}

fn overflow() -> input_event {
    ev(0, 3, 0)
}

fn probe(ty_bits: u32) -> Probe {
    Probe {
        ty_bits,
        name: b"model device".to_vec(),
        phys: None,
        uniq: None,
        id: input_id { bustype: 3, vendor: 1, product: 2, version: 4 },
        driver_version: 0x010203,
        props_bits: 0,
        key_len: 16,
        key_raw: vec![0xff, 0xff],
        rel_bits: 0,
        abs_bits: 0,
        switch_bits: 0,
        led_bits: 0,
        misc_bits: 0,
        snd_bits: 0,
    }
}

fn key_device() -> Device {
    Device::from_probe(probe(SYNCHRONIZATION | KEY)).unwrap()
}

fn fill(dev: &mut Device, events: &[input_event]) {
    let mut bytes: Vec<u8> = Vec::new();
    for e in events {
        bytes.extend(encode_record(e));
    }
    dev.fill_from(&bytes);
}

fn pending(dev: &Device) -> Vec<input_event> {
    dev.pending_events[dev.last_seen..].to_vec()
}

fn now() -> TimeVal {
    TimeVal { tv_sec: 100, tv_usec: 42 }
}

#[test]
fn open_succeeds_with_key_category_of_probed_length() {
    // A device advertising only the key category, probed at 600 key positions.
    let mut p = probe(SYNCHRONIZATION | KEY);
    p.key_len = 600;
    p.key_raw = vec![0xff; 75];
    let dev = Device::from_probe(p).unwrap();
    assert_eq!(dev.state().key_vals.len(), 600);
    assert_eq!(dev.state().key_vals.count_ones(..), 0);
    assert_eq!(dev.keys_supported().len(), 600);
    assert_eq!(dev.keys_supported().count_ones(..), 600);
}

#[test]
fn open_rejects_unknown_category_bits() {
    // Bit 6 names no category the library knows.
    let p = probe(1 << 6);
    assert_eq!(Device::from_probe(p).unwrap_err(), Error::UnexpectedCapabilityBits);
}

#[test]
fn open_rejects_unknown_relative_bits() {
    let mut p = probe(SYNCHRONIZATION | RELATIVE);
    p.rel_bits = 1 << 20;
    assert_eq!(Device::from_probe(p).unwrap_err(), Error::UnexpectedCapabilityBits);
}

#[test]
fn open_ignores_sub_bits_of_unsupported_categories() {
    // The relative-axis answer is read only when the category is advertised.
    let mut p = probe(SYNCHRONIZATION | KEY);
    p.rel_bits = 1 << 20;
    let dev = Device::from_probe(p).unwrap();
    assert_eq!(dev.relative_axes_supported().bits(), 0);
}

#[test]
fn open_decodes_identity_and_version() {
    let dev = key_device();
    assert_eq!(dev.driver_version(), (1, 2, 3));
    assert_eq!(dev.input_id().bustype, 3);
    assert_eq!(dev.name().as_slice(), b"model device");
}

#[test]
fn fill_appends_and_keeps_cursor() {
    let mut dev = key_device();
    fill(&mut dev, &[key_down(5), terminator()]);
    assert_eq!(dev.pending_events.len(), 2);
    assert_eq!(dev.last_seen, 0);
    fill(&mut dev, &[key_down(6)]);
    assert_eq!(dev.pending_events.len(), 3);
    assert_eq!(dev.last_seen, 0);
}

#[test]
fn fill_ignores_trailing_partial_record() {
    let mut dev = key_device();
    let mut bytes = encode_record(&key_down(5));
    bytes.extend([1u8, 2, 3]);
    dev.fill_from(&bytes);
    assert_eq!(dev.pending_events.len(), 1);
    assert_eq!(dev.pending_events[0], key_down(5));
}

#[test]
fn stream_yields_pending_oldest_first_exactly_once() {
    let mut dev = key_device();
    fill(&mut dev, &[key_down(5), terminator(), key_down(6)]);
    assert_eq!(dev.next_event(), Some(key_down(5)));
    assert_eq!(dev.next_event(), Some(terminator()));
    assert_eq!(dev.last_seen, 2);
    // Abandoning here leaves the rest available to the next consumer.
    assert_eq!(dev.next_event(), Some(key_down(6)));
    assert_eq!(dev.next_event(), None);
    assert_eq!(dev.last_seen, 3);
}

#[test]
fn compensate_without_marker_changes_nothing() {
    // Idempotence: no overflow marker pending, so buffer and mirror stay as
    // they are.
    let mut dev = key_device();
    dev.sync_keys(&[0x01]);
    fill(&mut dev, &[key_down(5), terminator()]);
    let events_before = dev.pending_events.clone();
    let cursor_before = dev.last_seen;
    let keys_before = dev.state().key_vals.clone();
    assert!(!dev.truncate_dropped());
    assert_eq!(dev.pending_events, events_before);
    assert_eq!(dev.last_seen, cursor_before);
    assert_eq!(dev.state().key_vals, keys_before);
}

#[test]
fn compensate_ignores_marker_before_cursor() {
    let mut dev = key_device();
    fill(&mut dev, &[overflow(), terminator()]);
    dev.next_event();
    dev.next_event();
    // The only marker was already delivered; the pending region is clean.
    assert!(!dev.truncate_dropped());
    assert_eq!(dev.pending_events.len(), 2);
}

#[test]
fn scenario_marker_directly_after_delivered_terminator() {
    // Buffer: KeyDown(A), Terminator | Overflow, KeyDown(B), with the first
    // two already delivered.  No terminator lies between the scan point and
    // the marker, so the whole pending region is discarded and only the
    // synthetic frame remains pending.
    let mut dev = key_device();
    fill(&mut dev, &[key_down(1), terminator(), overflow(), key_down(2)]);
    assert_eq!(dev.next_event(), Some(key_down(1)));
    assert_eq!(dev.next_event(), Some(terminator()));
    assert_eq!(dev.last_seen, 2);

    assert!(dev.truncate_dropped());
    assert_eq!(dev.pending_events.to_vec(), vec![key_down(1), terminator()]);
    assert_eq!(pending(&dev), vec![]);
    assert_eq!(dev.last_seen, 2);

    // Resync: ground truth has key 4 pressed; snapshot had nothing pressed.
    let old = dev.state().clone();
    dev.sync_keys(&[0x10]);
    dev.set_sync_time(now());
    dev.append_sync_frame(&old, now());

    let synth: Vec<input_event> = pending(&dev);
    assert_eq!(synth.len(), 2);
    assert_eq!(synth[0], input_event { time: now(), _type: 1, code: 4, value: 1 });
    assert_eq!(synth[1], input_event { time: now(), _type: 0, code: 0, value: 0 });
}

#[test]
fn scenario_marker_after_partial_frame() {
    // Buffer: KeyDown(A), Terminator, KeyDown(B), Overflow.  The partial
    // frame holding KeyDown(B) cannot be trusted: the buffer truncates to
    // KeyDown(A), Terminator, then gains the synthetic deltas and a trailing
    // terminator.
    let mut dev = key_device();
    fill(&mut dev, &[key_down(1), terminator(), key_down(2), overflow()]);

    assert!(dev.truncate_dropped());
    assert_eq!(dev.pending_events.to_vec(), vec![key_down(1), terminator()]);
    // Partial-frame discard: KeyDown(B) is gone.
    assert!(!dev.pending_events.contains(&key_down(2)));

    let old = dev.state().clone();
    dev.sync_keys(&[0x20]);
    dev.append_sync_frame(&old, now());
    assert_eq!(
        dev.pending_events.to_vec(),
        vec![
            key_down(1),
            terminator(),
            input_event { time: now(), _type: 1, code: 5, value: 1 },
            input_event { time: now(), _type: 0, code: 0, value: 0 },
        ]
    );
}

#[test]
fn compensate_discards_everything_without_preceding_terminator() {
    // No terminator anywhere before the marker: the whole buffer is bogus.
    let mut dev = key_device();
    fill(&mut dev, &[key_down(1), key_down(2), overflow(), key_down(3)]);
    assert!(dev.truncate_dropped());
    assert_eq!(dev.pending_events.len(), 0);
}

#[test]
fn no_relative_axis_event_is_synthesized() {
    // Even with every category present and the whole mirror changed, the
    // synthetic frame holds no relative-axis event.
    let mut p = probe(SYNCHRONIZATION | KEY | RELATIVE | ABSOLUTE | SWITCH | LED);
    p.rel_bits = 0x3;
    p.abs_bits = 0x3;
    p.switch_bits = 0xffff;
    p.led_bits = 0x7ff;
    let mut dev = Device::from_probe(p).unwrap();
    let old = dev.state().clone();
    dev.sync_keys(&[0xff, 0xff]);
    dev.sync_switches(&[0xff, 0xff]);
    dev.sync_leds(&[0xff, 0x07]);
    dev.sync_abs_axis(0, evdev::raw::input_absinfo {
        value: 7,
        minimum: 0,
        maximum: 100,
        fuzz: 0,
        flat: 0,
        resolution: 1,
    });
    dev.append_sync_frame(&old, now());
    assert!(dev.pending_events.len() > 20);
    for e in dev.pending_events.iter() {
        assert_ne!(e._type, 2);
    }
    // The frame closes with exactly one terminator.
    assert_eq!(dev.pending_events.last().unwrap(), &terminator_at(now()));
    let terms = dev.pending_events.iter().filter(|e| e._type == 0 && e.code == 0).count();
    assert_eq!(terms, 1);
}

fn terminator_at(t: TimeVal) -> input_event {
    input_event { time: t, _type: 0, code: 0, value: 0 }
}

#[test]
fn mirror_matches_ground_truth_after_sync() {
    // Post-compensation consistency: every supported sub-code mirrors the
    // ground-truth value; unsupported sub-codes stay clear whatever the
    // device answered.
    let mut p = probe(SYNCHRONIZATION | KEY | SWITCH | LED);
    p.key_raw = vec![0x0f, 0x00];  // only keys 0..4 supported
    p.switch_bits = 0x5;
    p.led_bits = 0x2;
    let mut dev = Device::from_probe(p).unwrap();
    dev.sync_keys(&[0xff, 0xff]);
    for k in 0..16 {
        assert_eq!(dev.state().key_vals.contains(k), k < 4);
    }
    dev.sync_switches(&[0xff]);
    for s in 0..16 {
        assert_eq!(dev.state().switch_vals.contains(s), s == 0 || s == 2);
    }
    dev.sync_leds(&[0x03]);
    for l in 0..16 {
        assert_eq!(dev.state().led_vals.contains(l), l == 1);
    }
    // A fresh sync from the same ground truth reproduces the same mirror.
    let snapshot = dev.state().clone();
    dev.sync_keys(&[0xff, 0xff]);
    dev.sync_switches(&[0xff]);
    dev.sync_leds(&[0x03]);
    assert_eq!(dev.state().key_vals, snapshot.key_vals);
    assert_eq!(dev.state().switch_vals, snapshot.switch_vals);
    assert_eq!(dev.state().led_vals, snapshot.led_vals);
}

#[test]
fn cursor_stays_monotone_and_in_bounds() {
    let mut dev = key_device();
    let mut watermark = 0usize;
    let check = |d: &Device, watermark: &mut usize| {
        assert!(d.last_seen >= *watermark);
        assert!(d.last_seen <= d.pending_events.len());
        *watermark = d.last_seen;
    };
    fill(&mut dev, &[key_down(1), terminator(), key_down(2), overflow()]);
    check(&dev, &mut watermark);
    dev.next_event();
    check(&dev, &mut watermark);
    assert!(dev.truncate_dropped());
    check(&dev, &mut watermark);
    let old = dev.state().clone();
    dev.sync_keys(&[0x01]);
    check(&dev, &mut watermark);
    dev.append_sync_frame(&old, now());
    check(&dev, &mut watermark);
    while dev.next_event().is_some() {
        check(&dev, &mut watermark);
    }
    fill(&mut dev, &[key_down(3)]);
    check(&dev, &mut watermark);
}

#[test]
fn synced_abs_axis_updates_only_tracked_axes() {
    let mut p = probe(SYNCHRONIZATION | ABSOLUTE);
    p.abs_bits = 0x1;
    let mut dev = Device::from_probe(p).unwrap();
    let info = evdev::raw::input_absinfo {
        value: 3,
        minimum: -10,
        maximum: 10,
        fuzz: 1,
        flat: 0,
        resolution: 2,
    };
    dev.sync_abs_axis(0, info);
    assert_eq!(dev.state().abs_vals[0], info);
    // Axis 1 is not advertised: the answer is ignored.
    dev.sync_abs_axis(1, info);
    assert_eq!(dev.state().abs_vals[1], Default::default());
}

#[test]
fn pending_count_follows_cursor() {
    let mut dev = key_device();
    fill(&mut dev, &[key_down(1), terminator()]);
    assert_eq!(dev.pending_count(), 2);
    dev.next_event();
    assert_eq!(dev.pending_count(), 1);
    dev.next_event();
    assert_eq!(dev.pending_count(), 0);
}
