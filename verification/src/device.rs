//! The device model: capability sets, state mirror, event buffer with its
//! delivery cursor, overflow compensation, and the event stream.
//!
//! All I/O stays outside the crate.  The caller opens the device node, runs
//! the capability and state queries, and reads raw bytes; this module turns
//! those plain values into a consistent model:
//!
//! - [`Device::from_probe`] builds the model from the open-time queries,
//!   rejecting capability masks with bits outside the known tables;
//! - the `sync_*` methods overwrite the state mirror from ground-truth query
//!   answers, category by category;
//! - [`Device::fill_from`] appends the records decoded from a read;
//! - [`Device::truncate_dropped`] and [`Device::append_sync_frame`] implement
//!   overflow compensation: discard the untrustworthy tail, then append one
//!   synthetic delta event per changed sub-code and a closing terminator;
//! - [`Device::next_event`] yields pending records oldest-first, exactly once
//!   each, advancing the cursor by exactly what was delivered.

use vstd::prelude::*;

use fixedbitset::FixedBitSet;

use crate::bits::{bit_at, fbs_bits, fbs_contains, fbs_len, fbs_set, fbs_with_capacity,
    spec_bit_at};
use crate::data::{AbsoluteAxis, FFStatus, Led, Misc, Props, RelativeAxis, Repeat, Sound, Switch,
    Types};
use crate::data::{ABSOLUTE, ABSOLUTE_ALL, EV_ABSOLUTE, EV_KEY, EV_LED, EV_RELATIVE, EV_SWITCH,
    EV_SYNCHRONIZATION, KEY, LED, LED_ALL, MISC, MISC_ALL, PROPS_ALL, RELATIVE, RELATIVE_ALL,
    SOUND, SOUND_ALL, SWITCH, SWITCH_ALL, SYN_DROPPED, SYN_REPORT, TYPES_ALL};
use crate::raw::{decode_record, input_absinfo, input_event, input_id, spec_decode_record,
    spec_decode_records, TimeVal, EVENT_WIRE_SIZE};
use crate::state::{DeviceState, StateView};
use crate::Error;

verus! {

/// A frame terminator: a record of the synchronization category closing one
/// atomic batch of state changes.
pub open spec fn is_terminator(e: input_event) -> bool {
    e._type == EV_SYNCHRONIZATION && e.code == SYN_REPORT
}

/// The kernel's overflow marker: a record of the synchronization category
/// signaling that its ring buffer filled and events were discarded.
pub open spec fn is_overflow(e: input_event) -> bool {
    e._type == EV_SYNCHRONIZATION && e.code == SYN_DROPPED
}

/// Tests a record for the frame-terminator shape.
pub fn ev_is_terminator(e: &input_event) -> (r: bool)
    ensures
        r == is_terminator(*e),
{
    e._type == EV_SYNCHRONIZATION && e.code == SYN_REPORT
}

/// Tests a record for the overflow-marker shape.
pub fn ev_is_overflow(e: &input_event) -> (r: bool)
    ensures
        r == is_overflow(*e),
{
    e._type == EV_SYNCHRONIZATION && e.code == SYN_DROPPED
}

/// The least index at or after `i` holding an overflow marker, or the buffer
/// length when none exists.
pub open spec fn scan_overflow(buf: Seq<input_event>, i: int) -> int
    decreases buf.len() - i when 0 <= i <= buf.len()
{
    if i >= buf.len() {
        buf.len() as int
    } else if is_overflow(buf[i]) {
        i
    } else {
        scan_overflow(buf, i + 1)
    }
}

/// The greatest index at or before `i` holding a frame terminator, or -1 when
/// none exists.
pub open spec fn scan_terminator_back(buf: Seq<input_event>, i: int) -> int
    decreases i + 1 when i < buf.len()
{
    if i < 0 {
        -1
    } else if is_terminator(buf[i]) {
        i
    } else {
        scan_terminator_back(buf, i - 1)
    }
}

/// An overflow marker lies in the pending region.
pub open spec fn has_overflow(buf: Seq<input_event>, last_seen: int) -> bool {
    scan_overflow(buf, last_seen) < buf.len()
}

/// The length to which compensation truncates the buffer: everything up to
/// and including the terminator nearest before the overflow marker, but never
/// cutting into the already-delivered region.
pub open spec fn cut_point(buf: Seq<input_event>, last_seen: int) -> int {
    let p = scan_overflow(buf, last_seen);
    let q = scan_terminator_back(buf, p - 1) + 1;
    if q >= last_seen {
        q
    } else {
        last_seen
    }
}

/// What `scan_overflow` finds: the first marker of the region, if any.
pub proof fn lemma_scan_overflow(buf: Seq<input_event>, i: int)
    requires
        0 <= i <= buf.len(),
    ensures
        i <= scan_overflow(buf, i) <= buf.len(),
        scan_overflow(buf, i) < buf.len() ==> is_overflow(buf[scan_overflow(buf, i)]),
        forall|j: int| i <= j < scan_overflow(buf, i) ==> !is_overflow(buf[j]),
    decreases buf.len() - i,
{
    if i < buf.len() && !is_overflow(buf[i]) {
        lemma_scan_overflow(buf, i + 1);
    }
}

/// A position with a marker and nothing before it pins `scan_overflow` down.
pub proof fn lemma_scan_overflow_pins(buf: Seq<input_event>, i: int, p: int)
    requires
        0 <= i <= p <= buf.len(),
        p == buf.len() || is_overflow(buf[p]),
        forall|j: int| i <= j < p ==> !is_overflow(buf[j]),
    ensures
        scan_overflow(buf, i) == p,
    decreases p - i,
{
    if i < p {
        lemma_scan_overflow_pins(buf, i + 1, p);
    }
}

/// What `scan_terminator_back` finds: the nearest terminator at or before `i`.
pub proof fn lemma_scan_terminator_back(buf: Seq<input_event>, i: int)
    requires
        -1 <= i < buf.len(),
    ensures
        -1 <= scan_terminator_back(buf, i) <= i,
        scan_terminator_back(buf, i) >= 0 ==> is_terminator(buf[scan_terminator_back(buf, i)]),
        forall|j: int| scan_terminator_back(buf, i) < j <= i ==> !is_terminator(buf[j]),
    decreases i + 1,
{
    if i >= 0 && !is_terminator(buf[i]) {
        lemma_scan_terminator_back(buf, i - 1);
    }
}

/// A position with a terminator and nothing after it pins
/// `scan_terminator_back` down.
pub proof fn lemma_scan_terminator_back_pins(buf: Seq<input_event>, i: int, t: int)
    requires
        -1 <= t <= i < buf.len(),
        t == -1 || is_terminator(buf[t]),
        forall|j: int| t < j <= i ==> !is_terminator(buf[j]),
    ensures
        scan_terminator_back(buf, i) == t,
    decreases i - t,
{
    if t < i {
        lemma_scan_terminator_back_pins(buf, i - 1, t);
    }
}

/// The key mirror a sync from ground-truth bytes produces: a sub-code reads
/// set exactly when it is supported and its bit is set in the answer.
pub open spec fn synced_bools(caps: Seq<bool>, raw: Seq<u8>) -> Seq<bool> {
    Seq::new(caps.len(), |i: int| caps[i] && spec_bit_at(raw, i))
}

/// The all-zero calibration record.
pub open spec fn spec_absinfo_zero() -> input_absinfo {
    input_absinfo { value: 0, minimum: 0, maximum: 0, fuzz: 0, flat: 0, resolution: 0 }
}

/// `vals` is masked by `caps`: same length, and an entry can be set only
/// where its capability is.
pub open spec fn masked_by(vals: Seq<bool>, caps: Seq<bool>) -> bool {
    &&& vals.len() == caps.len()
    &&& forall|i: int| 0 <= i < vals.len() && !caps[i] ==> !vals[i]
}

/// Calibration entries without a tracked capability are all-zero.
pub open spec fn zeros_outside(vals: Seq<input_absinfo>, caps: Seq<bool>) -> bool {
    &&& vals.len() == caps.len()
    &&& forall|i: int| 0 <= i < vals.len() && !caps[i] ==> vals[i] == spec_absinfo_zero()
}

/// A freshly synced container is masked by the capability set it was synced
/// against.
pub proof fn lemma_synced_masked(caps: Seq<bool>, raw: Seq<u8>)
    ensures
        masked_by(synced_bools(caps, raw), caps),
{
    assert forall|i: int|
        0 <= i < synced_bools(caps, raw).len() && !caps[i] implies !synced_bools(caps, raw)[i] by {
    }
}

/// Absolute axes at or above this index (the miscellaneous axis and the
/// multitouch block) are recognized but excluded from state tracking.
pub const ABS_STATE_LIMIT: usize = 0x28;

/// The number of entries of the absolute-axis mirror.
pub const ABS_VALS_LEN: usize = 0x3f;

/// The number of entries of the switch and LED mirrors.
pub const SMALL_SET_LEN: usize = 0x10;

/// One more than the highest force-feedback sub-code.
pub const FF_SET_LEN: usize = 0x80;

/// A synthetic key event re-aligning one key of the mirror.
pub open spec fn spec_key_event(time: TimeVal, code: int, pressed: bool) -> input_event {
    input_event {
        time: time,
        _type: EV_KEY,
        code: code as u16,
        value: if pressed {
            1
        } else {
            0
        },
    }
}

/// A synthetic absolute-axis event carrying the fresh ground-truth value.
pub open spec fn spec_abs_event(time: TimeVal, code: int, value: i32) -> input_event {
    input_event { time: time, _type: EV_ABSOLUTE, code: code as u16, value: value }
}

/// A synthetic switch event re-aligning one switch of the mirror.
pub open spec fn spec_switch_event(time: TimeVal, code: int, on: bool) -> input_event {
    input_event {
        time: time,
        _type: EV_SWITCH,
        code: code as u16,
        value: if on {
            1
        } else {
            0
        },
    }
}

/// A synthetic LED event re-aligning one LED of the mirror.
pub open spec fn spec_led_event(time: TimeVal, code: int, on: bool) -> input_event {
    input_event {
        time: time,
        _type: EV_LED,
        code: code as u16,
        value: if on {
            1
        } else {
            0
        },
    }
}

/// The terminator closing a synthetic frame.
pub open spec fn spec_terminator_event(time: TimeVal) -> input_event {
    input_event { time: time, _type: EV_SYNCHRONIZATION, code: SYN_REPORT, value: 0 }
}

/// The synthetic key deltas for key codes below `i`, in code order: one event
/// per supported key whose old and new mirror values differ, carrying the new
/// value.
pub open spec fn key_deltas_upto(
    d: Device,
    o: StateView,
    nw: StateView,
    time: TimeVal,
    i: int,
) -> Seq<input_event>
    decreases i,
{
    if i <= 0 {
        Seq::empty()
    } else {
        key_deltas_upto(d, o, nw, time, i - 1) + (if d.key_supported(i - 1) && o.keys[i - 1]
            != nw.keys[i - 1] {
            seq![spec_key_event(time, i - 1, nw.keys[i - 1])]
        } else {
            Seq::empty()
        })
    }
}

/// The synthetic absolute-axis deltas for axes below `i`, in axis order.
pub open spec fn abs_deltas_upto(
    d: Device,
    o: StateView,
    nw: StateView,
    time: TimeVal,
    i: int,
) -> Seq<input_event>
    decreases i,
{
    if i <= 0 {
        Seq::empty()
    } else {
        abs_deltas_upto(d, o, nw, time, i - 1) + (if d.abs_tracked(i - 1) && o.abs[i - 1]
            != nw.abs[i - 1] {
            seq![spec_abs_event(time, i - 1, nw.abs[i - 1].value)]
        } else {
            Seq::empty()
        })
    }
}

/// The synthetic switch deltas for switches below `i`, in code order.
pub open spec fn switch_deltas_upto(
    d: Device,
    o: StateView,
    nw: StateView,
    time: TimeVal,
    i: int,
) -> Seq<input_event>
    decreases i,
{
    if i <= 0 {
        Seq::empty()
    } else {
        switch_deltas_upto(d, o, nw, time, i - 1) + (if d.switch_supported(i - 1) && o.switches[i
            - 1] != nw.switches[i - 1] {
            seq![spec_switch_event(time, i - 1, nw.switches[i - 1])]
        } else {
            Seq::empty()
        })
    }
}

/// The synthetic LED deltas for LEDs below `i`, in code order.
pub open spec fn led_deltas_upto(
    d: Device,
    o: StateView,
    nw: StateView,
    time: TimeVal,
    i: int,
) -> Seq<input_event>
    decreases i,
{
    if i <= 0 {
        Seq::empty()
    } else {
        led_deltas_upto(d, o, nw, time, i - 1) + (if d.led_supported(i - 1) && o.leds[i - 1]
            != nw.leds[i - 1] {
            seq![spec_led_event(time, i - 1, nw.leds[i - 1])]
        } else {
            Seq::empty()
        })
    }
}

/// The whole synthetic frame compensation appends after resynchronizing the
/// mirror from ground truth: one delta per changed supported sub-code, key
/// then absolute-axis then switch then LED deltas, closed by exactly one
/// terminator.
pub open spec fn synthetic_frame(d: Device, o: StateView, nw: StateView, time: TimeVal) -> Seq<
    input_event,
> {
    key_deltas_upto(d, o, nw, time, fbs_bits(d.key_bits).len() as int) + abs_deltas_upto(
        d,
        o,
        nw,
        time,
        ABS_STATE_LIMIT as int,
    ) + switch_deltas_upto(d, o, nw, time, SMALL_SET_LEN as int) + led_deltas_upto(
        d,
        o,
        nw,
        time,
        SMALL_SET_LEN as int,
    ) + seq![spec_terminator_event(time)]
}

/// Every synthetic key delta carries the key category.
pub proof fn lemma_key_deltas_types(d: Device, o: StateView, nw: StateView, time: TimeVal, i: int)
    ensures
        forall|k: int|
            0 <= k < key_deltas_upto(d, o, nw, time, i).len() ==> #[trigger] key_deltas_upto(
                d,
                o,
                nw,
                time,
                i,
            )[k]._type == EV_KEY,
    decreases i,
{
    if i > 0 {
        lemma_key_deltas_types(d, o, nw, time, i - 1);
        let rec = key_deltas_upto(d, o, nw, time, i - 1);
        let s = key_deltas_upto(d, o, nw, time, i);
        assert forall|k: int| 0 <= k < s.len() implies s[k]._type == EV_KEY by {
            if k < rec.len() {
                assert(s[k] == rec[k]);
            } else {
                assert(s[k] == spec_key_event(time, i - 1, nw.keys[i - 1]));
            }
        }
    }
}

/// Every synthetic absolute-axis delta carries the absolute-axis category.
pub proof fn lemma_abs_deltas_types(d: Device, o: StateView, nw: StateView, time: TimeVal, i: int)
    ensures
        forall|k: int|
            0 <= k < abs_deltas_upto(d, o, nw, time, i).len() ==> #[trigger] abs_deltas_upto(
                d,
                o,
                nw,
                time,
                i,
            )[k]._type == EV_ABSOLUTE,
    decreases i,
{
    if i > 0 {
        lemma_abs_deltas_types(d, o, nw, time, i - 1);
        let rec = abs_deltas_upto(d, o, nw, time, i - 1);
        let s = abs_deltas_upto(d, o, nw, time, i);
        assert forall|k: int| 0 <= k < s.len() implies s[k]._type == EV_ABSOLUTE by {
            if k < rec.len() {
                assert(s[k] == rec[k]);
            } else {
                assert(s[k] == spec_abs_event(time, i - 1, nw.abs[i - 1].value));
            }
        }
    }
}

/// Every synthetic switch delta carries the switch category.
pub proof fn lemma_switch_deltas_types(
    d: Device,
    o: StateView,
    nw: StateView,
    time: TimeVal,
    i: int,
)
    ensures
        forall|k: int|
            0 <= k < switch_deltas_upto(d, o, nw, time, i).len() ==> #[trigger] switch_deltas_upto(
                d,
                o,
                nw,
                time,
                i,
            )[k]._type == EV_SWITCH,
    decreases i,
{
    if i > 0 {
        lemma_switch_deltas_types(d, o, nw, time, i - 1);
        let rec = switch_deltas_upto(d, o, nw, time, i - 1);
        let s = switch_deltas_upto(d, o, nw, time, i);
        assert forall|k: int| 0 <= k < s.len() implies s[k]._type == EV_SWITCH by {
            if k < rec.len() {
                assert(s[k] == rec[k]);
            } else {
                assert(s[k] == spec_switch_event(time, i - 1, nw.switches[i - 1]));
            }
        }
    }
}

/// Every synthetic LED delta carries the LED category.
pub proof fn lemma_led_deltas_types(d: Device, o: StateView, nw: StateView, time: TimeVal, i: int)
    ensures
        forall|k: int|
            0 <= k < led_deltas_upto(d, o, nw, time, i).len() ==> #[trigger] led_deltas_upto(
                d,
                o,
                nw,
                time,
                i,
            )[k]._type == EV_LED,
    decreases i,
{
    if i > 0 {
        lemma_led_deltas_types(d, o, nw, time, i - 1);
        let rec = led_deltas_upto(d, o, nw, time, i - 1);
        let s = led_deltas_upto(d, o, nw, time, i);
        assert forall|k: int| 0 <= k < s.len() implies s[k]._type == EV_LED by {
            if k < rec.len() {
                assert(s[k] == rec[k]);
            } else {
                assert(s[k] == spec_led_event(time, i - 1, nw.leds[i - 1]));
            }
        }
    }
}

/// Law: compensation never synthesizes a relative-axis event, however much
/// the mirror changed — relative motion carries no persistent state, so what
/// was lost stays lost.
pub proof fn lemma_no_relative_synthetics(d: Device, o: StateView, nw: StateView, time: TimeVal)
    ensures
        forall|k: int|
            0 <= k < synthetic_frame(d, o, nw, time).len() ==> #[trigger] synthetic_frame(
                d,
                o,
                nw,
                time,
            )[k]._type != EV_RELATIVE,
{
    let klen = fbs_bits(d.key_bits).len() as int;
    let ks = key_deltas_upto(d, o, nw, time, klen);
    let ab = abs_deltas_upto(d, o, nw, time, ABS_STATE_LIMIT as int);
    let sw = switch_deltas_upto(d, o, nw, time, SMALL_SET_LEN as int);
    let le = led_deltas_upto(d, o, nw, time, SMALL_SET_LEN as int);
    lemma_key_deltas_types(d, o, nw, time, klen);
    lemma_abs_deltas_types(d, o, nw, time, ABS_STATE_LIMIT as int);
    lemma_switch_deltas_types(d, o, nw, time, SMALL_SET_LEN as int);
    lemma_led_deltas_types(d, o, nw, time, SMALL_SET_LEN as int);
    assert forall|k: int| 0 <= k < synthetic_frame(d, o, nw, time).len() implies #[trigger]
    synthetic_frame(d, o, nw, time)[k]._type != EV_RELATIVE by {
        let f = synthetic_frame(d, o, nw, time);
        if k < ks.len() {
            assert(f[k] == ks[k]);
        } else if k < ks.len() + ab.len() {
            assert(f[k] == ab[k - ks.len()]);
        } else if k < ks.len() + ab.len() + sw.len() {
            assert(f[k] == sw[k - ks.len() - ab.len()]);
        } else if k < ks.len() + ab.len() + sw.len() + le.len() {
            assert(f[k] == le[k - ks.len() - ab.len() - sw.len()]);
        } else {
            assert(f[k] == spec_terminator_event(time));
        }
    }
}

/// Law: a full sync leaves the mirror equal to ground truth — every supported
/// sub-code reads exactly the value the device reports, and every unsupported
/// sub-code reads clear.  A fresh sync from the same ground truth therefore
/// reproduces the mirror unchanged.
pub proof fn lemma_sync_matches_ground_truth(caps: Seq<bool>, raw: Seq<u8>)
    ensures
        synced_bools(caps, raw).len() == caps.len(),
        forall|i: int|
            0 <= i < caps.len() && caps[i] ==> #[trigger] synced_bools(caps, raw)[i]
                == spec_bit_at(raw, i),
        forall|i: int| 0 <= i < caps.len() && !caps[i] ==> !#[trigger] synced_bools(caps, raw)[i],
{
}

/// Law: compensation cuts the buffer directly after the terminator nearest
/// before the overflow marker, so every record strictly between that
/// terminator and the marker — the partial frame the overflow corrupted —
/// lies at or beyond the cut and does not survive; provided the terminator
/// does not lie inside the already-delivered region, where compensation never
/// cuts.
pub proof fn lemma_partial_frame_discarded(buf: Seq<input_event>, last_seen: int)
    requires
        0 <= last_seen <= buf.len(),
        has_overflow(buf, last_seen),
        scan_terminator_back(buf, scan_overflow(buf, last_seen) - 1) + 1 >= last_seen,
    ensures
        cut_point(buf, last_seen) == scan_terminator_back(
            buf,
            scan_overflow(buf, last_seen) - 1,
        ) + 1,
        cut_point(buf, last_seen) <= scan_overflow(buf, last_seen),
{
    lemma_scan_overflow(buf, last_seen);
    lemma_scan_terminator_back(buf, scan_overflow(buf, last_seen) - 1);
}

/// Law: the delivery cursor of a well-formed device never runs past the
/// buffer; together with the contracts of every mutating operation, which
/// never decrease the cursor, the cursor is monotone and in bounds across any
/// sequence of fill, compensation and stream-consumption steps.
pub proof fn lemma_cursor_in_bounds(d: Device)
    requires
        d.wf(),
    ensures
        d.last_seen <= d.pending_events@.len(),
{
}

/// Everything the open-time capability queries answer, as plain values.
pub struct Probe {
    /// The device-wide category bitmask.
    pub ty_bits: u32,
    /// Device name, without terminator.
    pub name: Vec<u8>,
    /// Physical address, if the device reports one.
    pub phys: Option<Vec<u8>>,
    /// Unique name, if the device reports one.
    pub uniq: Option<Vec<u8>>,
    /// Bus type, vendor, product, version.
    pub id: input_id,
    /// Raw driver version, holding three version bytes.
    pub driver_version: i32,
    /// The device property bitmask.
    pub props_bits: u32,
    /// The probed length of the key-capability set, in key positions.
    pub key_len: usize,
    /// The bit-packed key-capability answer.
    pub key_raw: Vec<u8>,
    /// The relative-axis sub-code mask; read only when the category is set.
    pub rel_bits: u32,
    /// The absolute-axis sub-code mask; read only when the category is set.
    pub abs_bits: u64,
    /// The switch sub-code mask; read only when the category is set.
    pub switch_bits: u32,
    /// The LED sub-code mask; read only when the category is set.
    pub led_bits: u32,
    /// The miscellaneous sub-code mask; read only when the category is set.
    pub misc_bits: u32,
    /// The sound sub-code mask; read only when the category is set.
    pub snd_bits: u32,
}

/// A probe is accepted when the category mask and every sub-code mask of a
/// supported category hold only bits of the known tables.
pub open spec fn probe_acceptable(p: Probe) -> bool {
    &&& p.ty_bits & TYPES_ALL == p.ty_bits
    &&& p.props_bits & PROPS_ALL == p.props_bits
    &&& (p.ty_bits & RELATIVE == RELATIVE ==> p.rel_bits & RELATIVE_ALL == p.rel_bits)
    &&& (p.ty_bits & ABSOLUTE == ABSOLUTE ==> p.abs_bits & ABSOLUTE_ALL == p.abs_bits)
    &&& (p.ty_bits & SWITCH == SWITCH ==> p.switch_bits & SWITCH_ALL == p.switch_bits)
    &&& (p.ty_bits & LED == LED ==> p.led_bits & LED_ALL == p.led_bits)
    &&& (p.ty_bits & MISC == MISC ==> p.misc_bits & MISC_ALL == p.misc_bits)
    &&& (p.ty_bits & SOUND == SOUND ==> p.snd_bits & SOUND_ALL == p.snd_bits)
}

/// The local model of one opened device.
#[derive(Debug)]
pub struct Device {
    /// Supported event categories.
    pub ty: Types,
    /// Device name, without terminator.
    pub name: Vec<u8>,
    /// Physical address, if reported.
    pub phys: Option<Vec<u8>>,
    /// Unique name, if reported.
    pub uniq: Option<Vec<u8>>,
    /// Device identity.
    pub id: input_id,
    /// Device properties.
    pub props: Props,
    /// Driver version as (major, minor, patch).
    pub driver_version: (u8, u8, u8),
    /// Supported keys, sized at open time from the probed length.
    pub key_bits: FixedBitSet,
    /// Supported relative axes.
    pub rel: RelativeAxis,
    /// Supported absolute axes.
    pub abs: AbsoluteAxis,
    /// Supported switches.
    pub switch: Switch,
    /// Supported LEDs.
    pub led: Led,
    /// Supported miscellaneous events.
    pub misc: Misc,
    /// Force-feedback effect slots.
    pub ff: FixedBitSet,
    /// Force-feedback status capability.
    pub ff_stat: FFStatus,
    /// Key-repeat configuration capability.
    pub rep: Repeat,
    /// Supported sounds.
    pub snd: Sound,
    /// Time-ordered event records received from the device.
    pub pending_events: Vec<input_event>,
    /// Records at indices below the cursor were already delivered; records at
    /// or above it are pending.
    pub last_seen: usize,
    /// The state mirror.
    pub state: DeviceState,
}

impl Device {
    /// The device reports the key category and key `i`.
    pub open spec fn key_supported(&self, i: int) -> bool {
        &&& self.ty.bits & KEY == KEY
        &&& 0 <= i < fbs_bits(self.key_bits).len()
        &&& fbs_bits(self.key_bits)[i]
    }

    /// The device reports the absolute-axis category and axis `i`.
    pub open spec fn abs_supported(&self, i: int) -> bool {
        &&& self.ty.bits & ABSOLUTE == ABSOLUTE
        &&& 0 <= i < ABS_VALS_LEN
        &&& (self.abs.bits >> (i as u64)) & 1u64 == 1u64
    }

    /// Axis `i` carries tracked state: supported and below the untracked
    /// (miscellaneous and multitouch) block.
    pub open spec fn abs_tracked(&self, i: int) -> bool {
        self.abs_supported(i) && i < ABS_STATE_LIMIT
    }

    /// The device reports the switch category and switch `i`.
    pub open spec fn switch_supported(&self, i: int) -> bool {
        &&& self.ty.bits & SWITCH == SWITCH
        &&& 0 <= i < SMALL_SET_LEN
        &&& (self.switch.bits >> (i as u32)) & 1u32 == 1u32
    }

    /// The device reports the LED category and LED `i`.
    pub open spec fn led_supported(&self, i: int) -> bool {
        &&& self.ty.bits & LED == LED
        &&& 0 <= i < SMALL_SET_LEN
        &&& (self.led.bits >> (i as u32)) & 1u32 == 1u32
    }

    /// The supported-key set, as booleans.
    pub open spec fn key_caps(&self) -> Seq<bool> {
        Seq::new(fbs_bits(self.key_bits).len(), |i: int| self.key_supported(i))
    }

    /// The supported-switch set, as booleans.
    pub open spec fn switch_caps(&self) -> Seq<bool> {
        Seq::new(SMALL_SET_LEN as nat, |i: int| self.switch_supported(i))
    }

    /// The supported-LED set, as booleans.
    pub open spec fn led_caps(&self) -> Seq<bool> {
        Seq::new(SMALL_SET_LEN as nat, |i: int| self.led_supported(i))
    }

    /// The tracked absolute axes, as booleans.
    pub open spec fn abs_caps(&self) -> Seq<bool> {
        Seq::new(ABS_VALS_LEN as nat, |i: int| self.abs_tracked(i))
    }

    /// Well-formedness: the delivery cursor lies within the buffer, every
    /// mirror container matches its capability set, and unsupported mirror
    /// entries are clear.
    pub open spec fn wf(&self) -> bool {
        &&& self.last_seen <= self.pending_events@.len()
        &&& fbs_bits(self.key_bits).len() <= 0x10000
        &&& masked_by(fbs_bits(self.state.key_vals), self.key_caps())
        &&& masked_by(fbs_bits(self.state.switch_vals), self.switch_caps())
        &&& masked_by(fbs_bits(self.state.led_vals), self.led_caps())
        &&& zeros_outside(self.state.abs_vals@, self.abs_caps())
    }

    /// The capability half of the model: everything fixed at open time.
    pub open spec fn caps_eq(a: &Device, b: &Device) -> bool {
        &&& a.ty == b.ty
        &&& a.name@ == b.name@
        &&& a.phys == b.phys
        &&& a.uniq == b.uniq
        &&& a.id == b.id
        &&& a.props == b.props
        &&& a.driver_version == b.driver_version
        &&& fbs_bits(a.key_bits) == fbs_bits(b.key_bits)
        &&& a.rel == b.rel
        &&& a.abs == b.abs
        &&& a.switch == b.switch
        &&& a.led == b.led
        &&& a.misc == b.misc
        &&& fbs_bits(a.ff) == fbs_bits(b.ff)
        &&& a.ff_stat == b.ff_stat
        &&& a.rep == b.rep
        &&& a.snd == b.snd
    }

    /// Builds the model from the open-time query answers.  Fails with
    /// [`Error::UnexpectedCapabilityBits`] exactly when a probed mask holds a
    /// bit outside the known tables; the mirror starts cleared and sized to
    /// the probed capabilities, the buffer empty, the cursor at zero.
    ///
    /// The probed key length is bounded so that every key code fits the
    /// sub-code field of a synthetic event record.
    pub fn from_probe(p: Probe) -> (r: Result<Device, Error>)
        requires
            p.key_len <= 0x10000,
        ensures
            r is Ok <==> probe_acceptable(p),
            r is Err ==> r == Err::<Device, Error>(Error::UnexpectedCapabilityBits),
            r matches Ok(d) ==> {
                &&& d.wf()
                &&& d.ty.bits == p.ty_bits
                &&& d.name@ == p.name@
                &&& d.phys == p.phys
                &&& d.uniq == p.uniq
                &&& d.id == p.id
                &&& d.props.bits == p.props_bits
                &&& fbs_bits(d.key_bits).len() == p.key_len
                &&& forall|i: int|
                    0 <= i < p.key_len ==> fbs_bits(d.key_bits)[i] == (p.ty_bits & KEY == KEY
                        && spec_bit_at(p.key_raw@, i))
                &&& d.rel.bits == (if p.ty_bits & RELATIVE == RELATIVE { p.rel_bits } else { 0u32 })
                &&& d.abs.bits == (if p.ty_bits & ABSOLUTE == ABSOLUTE { p.abs_bits } else { 0u64 })
                &&& d.switch.bits == (if p.ty_bits & SWITCH == SWITCH { p.switch_bits } else { 0u32 })
                &&& d.led.bits == (if p.ty_bits & LED == LED { p.led_bits } else { 0u32 })
                &&& d.misc.bits == (if p.ty_bits & MISC == MISC { p.misc_bits } else { 0u32 })
                &&& d.snd.bits == (if p.ty_bits & SOUND == SOUND { p.snd_bits } else { 0u32 })
                &&& d.ff_stat.bits == 0 && d.rep.bits == 0
                &&& fbs_bits(d.state.key_vals).len() == p.key_len
                &&& forall|i: int| 0 <= i < p.key_len ==> !fbs_bits(d.state.key_vals)[i]
                &&& forall|i: int| 0 <= i < SMALL_SET_LEN ==> !fbs_bits(d.state.switch_vals)[i]
                &&& forall|i: int| 0 <= i < SMALL_SET_LEN ==> !fbs_bits(d.state.led_vals)[i]
                &&& forall|i: int|
                    0 <= i < ABS_VALS_LEN ==> d.state.abs_vals@[i] == spec_absinfo_zero()
                &&& d.state.timestamp.tv_sec == 0 && d.state.timestamp.tv_usec == 0
                &&& d.pending_events@.len() == 0
                &&& d.last_seen == 0
            },
    {
        let ty = match Types::from_bits(p.ty_bits) {
            Some(t) => t,
            None => { return Err(Error::UnexpectedCapabilityBits); },
        };
        let props = match Props::from_bits(p.props_bits) {
            Some(t) => t,
            None => { return Err(Error::UnexpectedCapabilityBits); },
        };
        let rel = if ty.contains(RELATIVE) {
            match RelativeAxis::from_bits(p.rel_bits) {
                Some(t) => t,
                None => { return Err(Error::UnexpectedCapabilityBits); },
            }
        } else {
            RelativeAxis::empty()
        };
        let abs = if ty.contains(ABSOLUTE) {
            match AbsoluteAxis::from_bits(p.abs_bits) {
                Some(t) => t,
                None => { return Err(Error::UnexpectedCapabilityBits); },
            }
        } else {
            AbsoluteAxis::empty()
        };
        let switch = if ty.contains(SWITCH) {
            match Switch::from_bits(p.switch_bits) {
                Some(t) => t,
                None => { return Err(Error::UnexpectedCapabilityBits); },
            }
        } else {
            Switch::empty()
        };
        let led = if ty.contains(LED) {
            match Led::from_bits(p.led_bits) {
                Some(t) => t,
                None => { return Err(Error::UnexpectedCapabilityBits); },
            }
        } else {
            Led::empty()
        };
        let misc = if ty.contains(MISC) {
            match Misc::from_bits(p.misc_bits) {
                Some(t) => t,
                None => { return Err(Error::UnexpectedCapabilityBits); },
            }
        } else {
            Misc::empty()
        };
        let snd = if ty.contains(SOUND) {
            match Sound::from_bits(p.snd_bits) {
                Some(t) => t,
                None => { return Err(Error::UnexpectedCapabilityBits); },
            }
        } else {
            Sound::empty()
        };

        let supports_key = ty.contains(KEY);
        let mut key_bits = fbs_with_capacity(p.key_len);
        if supports_key {
            let mut i: usize = 0;
            while i < p.key_len
                invariant
                    i <= p.key_len,
                    fbs_bits(key_bits).len() == p.key_len,
                    forall|j: int| 0 <= j < i ==> fbs_bits(key_bits)[j] == spec_bit_at(p.key_raw@, j),
                    forall|j: int| i <= j < p.key_len ==> !fbs_bits(key_bits)[j],
                decreases p.key_len - i,
            {
                let b = bit_at(p.key_raw.as_slice(), i);
                fbs_set(&mut key_bits, i, b);
                i = i + 1;
            }
        }

        let mut abs_vals: Vec<input_absinfo> = Vec::new();
        let mut i: usize = 0;
        while i < ABS_VALS_LEN
            invariant
                i <= ABS_VALS_LEN,
                abs_vals@.len() == i,
                forall|j: int| 0 <= j < i ==> abs_vals@[j] == spec_absinfo_zero(),
            decreases ABS_VALS_LEN - i,
        {
            abs_vals.push(input_absinfo { value: 0, minimum: 0, maximum: 0, fuzz: 0, flat: 0, resolution: 0 });
            i = i + 1;
        }

        let d = Device {
            ty: ty,
            name: p.name,
            phys: p.phys,
            uniq: p.uniq,
            id: p.id,
            props: props,
            driver_version: crate::raw::decode_driver_version(p.driver_version),
            key_bits: key_bits,
            rel: rel,
            abs: abs,
            switch: switch,
            led: led,
            misc: misc,
            ff: fbs_with_capacity(FF_SET_LEN),
            ff_stat: FFStatus::empty(),
            rep: Repeat::empty(),
            snd: snd,
            pending_events: Vec::new(),
            last_seen: 0,
            state: DeviceState {
                timestamp: TimeVal { tv_sec: 0, tv_usec: 0 },
                key_vals: fbs_with_capacity(p.key_len),
                abs_vals: abs_vals,
                switch_vals: fbs_with_capacity(SMALL_SET_LEN),
                led_vals: fbs_with_capacity(SMALL_SET_LEN),
            },
        };
        Ok(d)
    }

    /// Axis `idx` is queried and tracked during a full sync.
    pub fn abs_axis_wanted(&self, idx: usize) -> (r: bool)
        ensures
            r == self.abs_tracked(idx as int),
    {
        if self.ty.contains(ABSOLUTE) && idx < ABS_STATE_LIMIT {
            (self.abs.bits() >> (idx as u64)) & 1u64 == 1u64
        } else {
            false
        }
    }

    /// Overwrites the key mirror from a ground-truth key-state answer: a key
    /// reads pressed exactly when the device supports it and its bit is set.
    /// Without the key category the mirror stays all-clear.
    pub fn sync_keys(&mut self, raw: &[u8])
        requires
            old(self).wf(),
        ensures
            final(self).wf(),
            Device::caps_eq(final(self), old(self)),
            final(self).pending_events@ == old(self).pending_events@,
            final(self).last_seen == old(self).last_seen,
            final(self).state@.keys == synced_bools(old(self).key_caps(), raw@),
            final(self).state@.abs == old(self).state@.abs,
            final(self).state@.switches == old(self).state@.switches,
            final(self).state@.leds == old(self).state@.leds,
            final(self).state@.timestamp == old(self).state@.timestamp,
    {
        let ghost pre = *self;
        if !self.ty.contains(KEY) {
            proof {
                assert(fbs_bits(self.state.key_vals) =~= synced_bools(pre.key_caps(), raw@));
                lemma_synced_masked(pre.key_caps(), raw@);
            }
            return ;
        }
        let len = fbs_len(&self.state.key_vals);
        proof {
            assert(fbs_bits(self.state.key_vals) =~= synced_bools(pre.key_caps(), raw@).take(0)
                + fbs_bits(pre.state.key_vals).skip(0));
        }
        let mut i: usize = 0;
        while i < len
            invariant
                i <= len,
                pre.wf(),
                pre.ty.bits & KEY == KEY,
                len == fbs_bits(pre.state.key_vals).len(),
                self.ty == pre.ty,
                self.name == pre.name,
                self.phys == pre.phys,
                self.uniq == pre.uniq,
                self.id == pre.id,
                self.props == pre.props,
                self.driver_version == pre.driver_version,
                self.key_bits == pre.key_bits,
                self.rel == pre.rel,
                self.abs == pre.abs,
                self.switch == pre.switch,
                self.led == pre.led,
                self.misc == pre.misc,
                self.ff == pre.ff,
                self.ff_stat == pre.ff_stat,
                self.rep == pre.rep,
                self.snd == pre.snd,
                self.pending_events == pre.pending_events,
                self.last_seen == pre.last_seen,
                self.state.timestamp == pre.state.timestamp,
                self.state.abs_vals == pre.state.abs_vals,
                self.state.switch_vals == pre.state.switch_vals,
                self.state.led_vals == pre.state.led_vals,
                fbs_bits(self.state.key_vals).len() == len,
                len == pre.key_caps().len(),
                fbs_bits(self.state.key_vals) == synced_bools(pre.key_caps(), raw@).take(i as int)
                    + fbs_bits(pre.state.key_vals).skip(i as int),
            decreases len - i,
        {
            let sup = fbs_contains(&self.key_bits, i);
            proof {
                assert(sup == pre.key_supported(i as int));
            }
            let b = sup && bit_at(raw, i);
            fbs_set(&mut self.state.key_vals, i, b);
            proof {
                assert(fbs_bits(self.state.key_vals) =~= synced_bools(
                    pre.key_caps(),
                    raw@,
                ).take(i as int + 1) + fbs_bits(pre.state.key_vals).skip(i as int + 1));
            }
            i = i + 1;
        }
        proof {
            assert(self.key_caps() =~= pre.key_caps());
            assert(self.switch_caps() =~= pre.switch_caps());
            assert(self.led_caps() =~= pre.led_caps());
            assert(self.abs_caps() =~= pre.abs_caps());
            assert(fbs_bits(self.state.key_vals) =~= synced_bools(pre.key_caps(), raw@));
            lemma_synced_masked(pre.key_caps(), raw@);
        }
    }

    /// Overwrites the switch mirror from a ground-truth switch-state answer,
    /// masked by the supported-switch set.
    pub fn sync_switches(&mut self, raw: &[u8])
        requires
            old(self).wf(),
        ensures
            final(self).wf(),
            Device::caps_eq(final(self), old(self)),
            final(self).pending_events@ == old(self).pending_events@,
            final(self).last_seen == old(self).last_seen,
            final(self).state@.switches == synced_bools(old(self).switch_caps(), raw@),
            final(self).state@.keys == old(self).state@.keys,
            final(self).state@.abs == old(self).state@.abs,
            final(self).state@.leds == old(self).state@.leds,
            final(self).state@.timestamp == old(self).state@.timestamp,
    {
        let ghost pre = *self;
        if !self.ty.contains(SWITCH) {
            proof {
                assert(fbs_bits(self.state.switch_vals) =~= synced_bools(
                    pre.switch_caps(),
                    raw@,
                ));
                lemma_synced_masked(pre.switch_caps(), raw@);
            }
            return ;
        }
        proof {
            assert(fbs_bits(self.state.switch_vals) =~= synced_bools(
                pre.switch_caps(),
                raw@,
            ).take(0) + fbs_bits(pre.state.switch_vals).skip(0));
        }
        let mut i: usize = 0;
        while i < SMALL_SET_LEN
            invariant
                i <= SMALL_SET_LEN,
                pre.wf(),
                pre.ty.bits & SWITCH == SWITCH,
                self.ty == pre.ty,
                self.name == pre.name,
                self.phys == pre.phys,
                self.uniq == pre.uniq,
                self.id == pre.id,
                self.props == pre.props,
                self.driver_version == pre.driver_version,
                self.key_bits == pre.key_bits,
                self.rel == pre.rel,
                self.abs == pre.abs,
                self.switch == pre.switch,
                self.led == pre.led,
                self.misc == pre.misc,
                self.ff == pre.ff,
                self.ff_stat == pre.ff_stat,
                self.rep == pre.rep,
                self.snd == pre.snd,
                self.pending_events == pre.pending_events,
                self.last_seen == pre.last_seen,
                self.state.timestamp == pre.state.timestamp,
                self.state.abs_vals == pre.state.abs_vals,
                self.state.key_vals == pre.state.key_vals,
                self.state.led_vals == pre.state.led_vals,
                fbs_bits(self.state.switch_vals).len() == SMALL_SET_LEN,
                fbs_bits(self.state.switch_vals) == synced_bools(pre.switch_caps(), raw@).take(
                    i as int,
                ) + fbs_bits(pre.state.switch_vals).skip(i as int),
            decreases SMALL_SET_LEN - i,
        {
            let sup = (self.switch.bits() >> (i as u32)) & 1u32 == 1u32;
            proof {
                assert(sup == pre.switch_supported(i as int));
            }
            let b = sup && bit_at(raw, i);
            fbs_set(&mut self.state.switch_vals, i, b);
            proof {
                assert(fbs_bits(self.state.switch_vals) =~= synced_bools(
                    pre.switch_caps(),
                    raw@,
                ).take(i as int + 1) + fbs_bits(pre.state.switch_vals).skip(i as int + 1));
            }
            i = i + 1;
        }
        proof {
            assert(self.key_caps() =~= pre.key_caps());
            assert(self.switch_caps() =~= pre.switch_caps());
            assert(self.led_caps() =~= pre.led_caps());
            assert(self.abs_caps() =~= pre.abs_caps());
            assert(fbs_bits(self.state.switch_vals) =~= synced_bools(pre.switch_caps(), raw@));
            lemma_synced_masked(pre.switch_caps(), raw@);
        }
    }

    /// Overwrites the LED mirror from a ground-truth LED-state answer, masked
    /// by the supported-LED set.
    pub fn sync_leds(&mut self, raw: &[u8])
        requires
            old(self).wf(),
        ensures
            final(self).wf(),
            Device::caps_eq(final(self), old(self)),
            final(self).pending_events@ == old(self).pending_events@,
            final(self).last_seen == old(self).last_seen,
            final(self).state@.leds == synced_bools(old(self).led_caps(), raw@),
            final(self).state@.keys == old(self).state@.keys,
            final(self).state@.abs == old(self).state@.abs,
            final(self).state@.switches == old(self).state@.switches,
            final(self).state@.timestamp == old(self).state@.timestamp,
    {
        let ghost pre = *self;
        if !self.ty.contains(LED) {
            proof {
                assert(fbs_bits(self.state.led_vals) =~= synced_bools(pre.led_caps(), raw@));
                lemma_synced_masked(pre.led_caps(), raw@);
            }
            return ;
        }
        proof {
            assert(fbs_bits(self.state.led_vals) =~= synced_bools(pre.led_caps(), raw@).take(0)
                + fbs_bits(pre.state.led_vals).skip(0));
        }
        let mut i: usize = 0;
        while i < SMALL_SET_LEN
            invariant
                i <= SMALL_SET_LEN,
                pre.wf(),
                pre.ty.bits & LED == LED,
                self.ty == pre.ty,
                self.name == pre.name,
                self.phys == pre.phys,
                self.uniq == pre.uniq,
                self.id == pre.id,
                self.props == pre.props,
                self.driver_version == pre.driver_version,
                self.key_bits == pre.key_bits,
                self.rel == pre.rel,
                self.abs == pre.abs,
                self.switch == pre.switch,
                self.led == pre.led,
                self.misc == pre.misc,
                self.ff == pre.ff,
                self.ff_stat == pre.ff_stat,
                self.rep == pre.rep,
                self.snd == pre.snd,
                self.pending_events == pre.pending_events,
                self.last_seen == pre.last_seen,
                self.state.timestamp == pre.state.timestamp,
                self.state.abs_vals == pre.state.abs_vals,
                self.state.key_vals == pre.state.key_vals,
                self.state.switch_vals == pre.state.switch_vals,
                fbs_bits(self.state.led_vals).len() == SMALL_SET_LEN,
                fbs_bits(self.state.led_vals) == synced_bools(pre.led_caps(), raw@).take(i as int)
                    + fbs_bits(pre.state.led_vals).skip(i as int),
            decreases SMALL_SET_LEN - i,
        {
            let sup = (self.led.bits() >> (i as u32)) & 1u32 == 1u32;
            proof {
                assert(sup == pre.led_supported(i as int));
            }
            let b = sup && bit_at(raw, i);
            fbs_set(&mut self.state.led_vals, i, b);
            proof {
                assert(fbs_bits(self.state.led_vals) =~= synced_bools(
                    pre.led_caps(),
                    raw@,
                ).take(i as int + 1) + fbs_bits(pre.state.led_vals).skip(i as int + 1));
            }
            i = i + 1;
        }
        proof {
            assert(self.key_caps() =~= pre.key_caps());
            assert(self.switch_caps() =~= pre.switch_caps());
            assert(self.led_caps() =~= pre.led_caps());
            assert(self.abs_caps() =~= pre.abs_caps());
            assert(fbs_bits(self.state.led_vals) =~= synced_bools(pre.led_caps(), raw@));
            lemma_synced_masked(pre.led_caps(), raw@);
        }
    }

    /// Stores the ground-truth calibration record of one tracked axis.  An
    /// untracked axis is left untouched, so unsupported mirror entries stay
    /// zero.
    pub fn sync_abs_axis(&mut self, idx: usize, info: input_absinfo)
        requires
            old(self).wf(),
        ensures
            final(self).wf(),
            Device::caps_eq(final(self), old(self)),
            final(self).pending_events@ == old(self).pending_events@,
            final(self).last_seen == old(self).last_seen,
            final(self).state@.keys == old(self).state@.keys,
            final(self).state@.switches == old(self).state@.switches,
            final(self).state@.leds == old(self).state@.leds,
            final(self).state@.timestamp == old(self).state@.timestamp,
            old(self).abs_tracked(idx as int) ==> final(self).state@.abs == old(
                self,
            ).state@.abs.update(idx as int, info),
            !old(self).abs_tracked(idx as int) ==> final(self).state@.abs == old(self).state@.abs,
    {
        let ghost pre = *self;
        if self.abs_axis_wanted(idx) {
            self.state.abs_vals[idx] = info;
        }
        proof {
            assert(self.key_caps() =~= pre.key_caps());
            assert(self.switch_caps() =~= pre.switch_caps());
            assert(self.led_caps() =~= pre.led_caps());
            assert(self.abs_caps() =~= pre.abs_caps());
            assert(zeros_outside(self.state.abs_vals@, pre.abs_caps()));
        }
    }

    /// Appends every complete record decoded from one read's bytes; a
    /// trailing partial record is ignored.  The cursor and the mirror are
    /// untouched, so already-delivered records stay delivered and pending
    /// records stay pending.
    pub fn fill_from(&mut self, buf: &[u8])
        requires
            old(self).wf(),
        ensures
            final(self).wf(),
            Device::caps_eq(final(self), old(self)),
            final(self).state@ == old(self).state@,
            final(self).last_seen == old(self).last_seen,
            final(self).pending_events@ == old(self).pending_events@ + spec_decode_records(buf@),
    {
        let ghost pre = *self;
        let blen = buf.len();
        let n = blen / EVENT_WIRE_SIZE;
        let mut k: usize = 0;
        while k < n
            invariant
                k <= n,
                n == buf@.len() / 24,
                buf@.len() <= usize::MAX,
                self.ty == pre.ty,
                self.name == pre.name,
                self.phys == pre.phys,
                self.uniq == pre.uniq,
                self.id == pre.id,
                self.props == pre.props,
                self.driver_version == pre.driver_version,
                self.key_bits == pre.key_bits,
                self.rel == pre.rel,
                self.abs == pre.abs,
                self.switch == pre.switch,
                self.led == pre.led,
                self.misc == pre.misc,
                self.ff == pre.ff,
                self.ff_stat == pre.ff_stat,
                self.rep == pre.rep,
                self.snd == pre.snd,
                self.last_seen == pre.last_seen,
                self.state == pre.state,
                self.pending_events@ == pre.pending_events@ + spec_decode_records(buf@).take(
                    k as int,
                ),
            decreases n - k,
        {
            let off = k * EVENT_WIRE_SIZE;
            let e = decode_record(buf, off);
            self.pending_events.push(e);
            proof {
                assert(spec_decode_records(buf@).take(k + 1 as int) =~= spec_decode_records(
                    buf@,
                ).take(k as int).push(spec_decode_record(buf@, 24 * (k as int))));
                assert(self.pending_events@ == pre.pending_events@ + spec_decode_records(
                    buf@,
                ).take(k + 1 as int));
            }
            k = k + 1;
        }
        proof {
            assert(spec_decode_records(buf@).take(n as int) =~= spec_decode_records(buf@));
            assert(self.key_caps() =~= pre.key_caps());
            assert(self.switch_caps() =~= pre.switch_caps());
            assert(self.led_caps() =~= pre.led_caps());
            assert(self.abs_caps() =~= pre.abs_caps());
        }
    }

    /// Detects the kernel's overflow marker in the pending region.  When one
    /// is found, the buffer keeps only what precedes the nearest terminator's
    /// end (never cutting into already-delivered records): the marker, the
    /// partial frame before it and everything after it are discarded, and the
    /// call reports `true`.  Without a marker in the pending region the
    /// device is left untouched, buffer and mirror alike.
    ///
    /// The mirror is not changed here; after a `true` answer the caller
    /// snapshots the mirror, runs a full sync, and closes compensation with
    /// [`Device::append_sync_frame`].
    pub fn truncate_dropped(&mut self) -> (found: bool)
        requires
            old(self).wf(),
        ensures
            final(self).wf(),
            found == has_overflow(old(self).pending_events@, old(self).last_seen as int),
            !found ==> *final(self) == *old(self),
            found ==> {
                &&& Device::caps_eq(final(self), old(self))
                &&& final(self).state@ == old(self).state@
                &&& final(self).last_seen == old(self).last_seen
                &&& final(self).pending_events@ == old(self).pending_events@.take(
                    cut_point(old(self).pending_events@, old(self).last_seen as int),
                )
            },
    {
        let ghost pre = *self;
        let n = self.pending_events.len();
        let mut p = self.last_seen;
        while p < n && !ev_is_overflow(&self.pending_events[p])
            invariant
                pre.last_seen <= p <= n,
                n == pre.pending_events@.len(),
                *self == pre,
                forall|j: int| pre.last_seen <= j < p ==> !is_overflow(pre.pending_events@[j]),
            decreases n - p,
        {
            p = p + 1;
        }
        proof {
            lemma_scan_overflow_pins(pre.pending_events@, pre.last_seen as int, p as int);
        }
        if p == n {
            return false;
        }
        let mut q = p;
        while q > 0 && !ev_is_terminator(&self.pending_events[q - 1])
            invariant
                q <= p < n,
                n == pre.pending_events@.len(),
                *self == pre,
                forall|k: int| q <= k < p ==> !is_terminator(pre.pending_events@[k]),
            decreases q,
        {
            q = q - 1;
        }
        proof {
            lemma_scan_terminator_back_pins(pre.pending_events@, p - 1, q - 1);
            assert(scan_terminator_back(pre.pending_events@, p - 1) == q - 1);
        }
        let cut = if q >= self.last_seen {
            q
        } else {
            self.last_seen
        };
        proof {
            assert(cut as int == cut_point(pre.pending_events@, pre.last_seen as int));
        }
        self.pending_events.truncate(cut);
        proof {
            assert(self.key_caps() =~= pre.key_caps());
            assert(self.switch_caps() =~= pre.switch_caps());
            assert(self.led_caps() =~= pre.led_caps());
            assert(self.abs_caps() =~= pre.abs_caps());
        }
        true
    }

    /// Yields the oldest pending record, if any, and advances the delivery
    /// cursor past it; a record is yielded exactly once.  With nothing
    /// pending the device is left untouched.
    pub fn next_event(&mut self) -> (r: Option<input_event>)
        requires
            old(self).wf(),
        ensures
            final(self).wf(),
            Device::caps_eq(final(self), old(self)),
            final(self).state@ == old(self).state@,
            final(self).pending_events@ == old(self).pending_events@,
            old(self).last_seen < old(self).pending_events@.len() ==> {
                &&& r == Some(old(self).pending_events@[old(self).last_seen as int])
                &&& final(self).last_seen == old(self).last_seen + 1
            },
            old(self).last_seen >= old(self).pending_events@.len() ==> r is None && *final(self)
                == *old(self),
    {
        let ghost pre = *self;
        if self.last_seen < self.pending_events.len() {
            let e = self.pending_events[self.last_seen];
            self.last_seen = self.last_seen + 1;
            proof {
                assert(self.key_caps() =~= pre.key_caps());
                assert(self.switch_caps() =~= pre.switch_caps());
                assert(self.led_caps() =~= pre.led_caps());
                assert(self.abs_caps() =~= pre.abs_caps());
            }
            Some(e)
        } else {
            None
        }
    }

    /// How many records are buffered but not yet delivered.
    pub fn pending_count(&self) -> (r: usize)
        requires
            self.wf(),
        ensures
            r == self.pending_events@.len() - self.last_seen,
    {
        self.pending_events.len() - self.last_seen
    }

    /// Closes overflow compensation: compares the pre-sync mirror snapshot
    /// `old_state` with the freshly synced mirror and appends one synthetic
    /// event per supported sub-code whose value changed — carrying the new
    /// value and the caller's freshly captured timestamp, never a
    /// reconstructed one — then exactly one frame terminator.  No relative-
    /// axis event is ever synthesized; deltas come in key, absolute-axis,
    /// switch, LED order, each in ascending sub-code order.
    pub fn append_sync_frame(&mut self, old_state: &DeviceState, time: TimeVal)
        requires
            old(self).wf(),
            fbs_bits(old_state.key_vals).len() == fbs_bits(old(self).key_bits).len(),
            fbs_bits(old_state.switch_vals).len() == SMALL_SET_LEN,
            fbs_bits(old_state.led_vals).len() == SMALL_SET_LEN,
            old_state.abs_vals@.len() == ABS_VALS_LEN,
        ensures
            final(self).wf(),
            Device::caps_eq(final(self), old(self)),
            final(self).state@ == old(self).state@,
            final(self).last_seen == old(self).last_seen,
            final(self).pending_events@ == old(self).pending_events@ + synthetic_frame(
                *old(self),
                old_state@,
                old(self).state@,
                time,
            ),
    {
        let ghost pre = *self;
        let ghost o = old_state@;
        let ghost nw = pre.state@;

        let cat_key = self.ty.contains(KEY);
        let klen = fbs_len(&self.key_bits);
        proof {
            assert(self.pending_events@ =~= pre.pending_events@ + key_deltas_upto(
                pre,
                o,
                nw,
                time,
                0,
            ));
        }
        let mut i: usize = 0;
        while i < klen
            invariant
                i <= klen,
                pre.wf(),
                klen == fbs_bits(pre.key_bits).len(),
                klen <= 0x10000,
                cat_key == (pre.ty.bits & KEY == KEY),
                fbs_bits(old_state.key_vals).len() == klen,
                self.ty == pre.ty,
                self.name == pre.name,
                self.phys == pre.phys,
                self.uniq == pre.uniq,
                self.id == pre.id,
                self.props == pre.props,
                self.driver_version == pre.driver_version,
                self.key_bits == pre.key_bits,
                self.rel == pre.rel,
                self.abs == pre.abs,
                self.switch == pre.switch,
                self.led == pre.led,
                self.misc == pre.misc,
                self.ff == pre.ff,
                self.ff_stat == pre.ff_stat,
                self.rep == pre.rep,
                self.snd == pre.snd,
                self.last_seen == pre.last_seen,
                self.state == pre.state,
                o == old_state@,
                nw == pre.state@,
                self.pending_events@ == pre.pending_events@ + key_deltas_upto(
                    pre,
                    o,
                    nw,
                    time,
                    i as int,
                ),
            decreases klen - i,
        {
            let sup = cat_key && fbs_contains(&self.key_bits, i);
            proof {
                assert(sup == pre.key_supported(i as int));
            }
            let ov = fbs_contains(&old_state.key_vals, i);
            let nv = fbs_contains(&self.state.key_vals, i);
            proof {
                assert(ov == o.keys[i as int]);
                assert(nv == nw.keys[i as int]);
            }
            if sup && ov != nv {
                self.pending_events.push(
                    input_event {
                        time: time,
                        _type: EV_KEY,
                        code: i as u16,
                        value: if nv {
                            1
                        } else {
                            0
                        },
                    },
                );
            }
            proof {
                assert(self.pending_events@ =~= pre.pending_events@ + key_deltas_upto(
                    pre,
                    o,
                    nw,
                    time,
                    i as int + 1,
                ));
            }
            i = i + 1;
        }
        let ghost after_keys = pre.pending_events@ + key_deltas_upto(pre, o, nw, time, klen as int);

        proof {
            assert(self.pending_events@ =~= after_keys + abs_deltas_upto(pre, o, nw, time, 0));
        }
        let mut i: usize = 0;
        while i < ABS_STATE_LIMIT
            invariant
                i <= ABS_STATE_LIMIT,
                pre.wf(),
                old_state.abs_vals@.len() == ABS_VALS_LEN,
                self.ty == pre.ty,
                self.name == pre.name,
                self.phys == pre.phys,
                self.uniq == pre.uniq,
                self.id == pre.id,
                self.props == pre.props,
                self.driver_version == pre.driver_version,
                self.key_bits == pre.key_bits,
                self.rel == pre.rel,
                self.abs == pre.abs,
                self.switch == pre.switch,
                self.led == pre.led,
                self.misc == pre.misc,
                self.ff == pre.ff,
                self.ff_stat == pre.ff_stat,
                self.rep == pre.rep,
                self.snd == pre.snd,
                self.last_seen == pre.last_seen,
                self.state == pre.state,
                o == old_state@,
                nw == pre.state@,
                self.pending_events@ == after_keys + abs_deltas_upto(pre, o, nw, time, i as int),
            decreases ABS_STATE_LIMIT - i,
        {
            let sup = self.abs_axis_wanted(i);
            let ov = old_state.abs_vals[i];
            let nv = self.state.abs_vals[i];
            if sup && (ov != nv) {
                self.pending_events.push(
                    input_event { time: time, _type: EV_ABSOLUTE, code: i as u16, value: nv.value },
                );
            }
            proof {
                assert(self.pending_events@ =~= after_keys + abs_deltas_upto(
                    pre,
                    o,
                    nw,
                    time,
                    i as int + 1,
                ));
            }
            i = i + 1;
        }
        let ghost after_abs = after_keys + abs_deltas_upto(pre, o, nw, time, ABS_STATE_LIMIT as int);

        let cat_switch = self.ty.contains(SWITCH);
        proof {
            assert(self.pending_events@ =~= after_abs + switch_deltas_upto(pre, o, nw, time, 0));
        }
        let mut i: usize = 0;
        while i < SMALL_SET_LEN
            invariant
                i <= SMALL_SET_LEN,
                pre.wf(),
                cat_switch == (pre.ty.bits & SWITCH == SWITCH),
                fbs_bits(old_state.switch_vals).len() == SMALL_SET_LEN,
                self.ty == pre.ty,
                self.name == pre.name,
                self.phys == pre.phys,
                self.uniq == pre.uniq,
                self.id == pre.id,
                self.props == pre.props,
                self.driver_version == pre.driver_version,
                self.key_bits == pre.key_bits,
                self.rel == pre.rel,
                self.abs == pre.abs,
                self.switch == pre.switch,
                self.led == pre.led,
                self.misc == pre.misc,
                self.ff == pre.ff,
                self.ff_stat == pre.ff_stat,
                self.rep == pre.rep,
                self.snd == pre.snd,
                self.last_seen == pre.last_seen,
                self.state == pre.state,
                o == old_state@,
                nw == pre.state@,
                self.pending_events@ == after_abs + switch_deltas_upto(pre, o, nw, time, i as int),
            decreases SMALL_SET_LEN - i,
        {
            let sup = cat_switch && (self.switch.bits() >> (i as u32)) & 1u32 == 1u32;
            proof {
                assert(sup == pre.switch_supported(i as int));
            }
            let ov = fbs_contains(&old_state.switch_vals, i);
            let nv = fbs_contains(&self.state.switch_vals, i);
            proof {
                assert(ov == o.switches[i as int]);
                assert(nv == nw.switches[i as int]);
            }
            if sup && ov != nv {
                self.pending_events.push(
                    input_event {
                        time: time,
                        _type: EV_SWITCH,
                        code: i as u16,
                        value: if nv {
                            1
                        } else {
                            0
                        },
                    },
                );
            }
            proof {
                assert(self.pending_events@ =~= after_abs + switch_deltas_upto(
                    pre,
                    o,
                    nw,
                    time,
                    i as int + 1,
                ));
            }
            i = i + 1;
        }
        let ghost after_switch = after_abs + switch_deltas_upto(pre, o, nw, time, SMALL_SET_LEN as int);

        let cat_led = self.ty.contains(LED);
        proof {
            assert(self.pending_events@ =~= after_switch + led_deltas_upto(pre, o, nw, time, 0));
        }
        let mut i: usize = 0;
        while i < SMALL_SET_LEN
            invariant
                i <= SMALL_SET_LEN,
                pre.wf(),
                cat_led == (pre.ty.bits & LED == LED),
                fbs_bits(old_state.led_vals).len() == SMALL_SET_LEN,
                self.ty == pre.ty,
                self.name == pre.name,
                self.phys == pre.phys,
                self.uniq == pre.uniq,
                self.id == pre.id,
                self.props == pre.props,
                self.driver_version == pre.driver_version,
                self.key_bits == pre.key_bits,
                self.rel == pre.rel,
                self.abs == pre.abs,
                self.switch == pre.switch,
                self.led == pre.led,
                self.misc == pre.misc,
                self.ff == pre.ff,
                self.ff_stat == pre.ff_stat,
                self.rep == pre.rep,
                self.snd == pre.snd,
                self.last_seen == pre.last_seen,
                self.state == pre.state,
                o == old_state@,
                nw == pre.state@,
                self.pending_events@ == after_switch + led_deltas_upto(pre, o, nw, time, i as int),
            decreases SMALL_SET_LEN - i,
        {
            let sup = cat_led && (self.led.bits() >> (i as u32)) & 1u32 == 1u32;
            proof {
                assert(sup == pre.led_supported(i as int));
            }
            let ov = fbs_contains(&old_state.led_vals, i);
            let nv = fbs_contains(&self.state.led_vals, i);
            proof {
                assert(ov == o.leds[i as int]);
                assert(nv == nw.leds[i as int]);
            }
            if sup && ov != nv {
                self.pending_events.push(
                    input_event {
                        time: time,
                        _type: EV_LED,
                        code: i as u16,
                        value: if nv {
                            1
                        } else {
                            0
                        },
                    },
                );
            }
            proof {
                assert(self.pending_events@ =~= after_switch + led_deltas_upto(
                    pre,
                    o,
                    nw,
                    time,
                    i as int + 1,
                ));
            }
            i = i + 1;
        }

        self.pending_events.push(
            input_event { time: time, _type: EV_SYNCHRONIZATION, code: SYN_REPORT, value: 0 },
        );
        proof {
            assert(self.pending_events@ =~= pre.pending_events@ + synthetic_frame(
                pre,
                o,
                nw,
                time,
            ));
            assert(self.key_caps() =~= pre.key_caps());
            assert(self.switch_caps() =~= pre.switch_caps());
            assert(self.led_caps() =~= pre.led_caps());
            assert(self.abs_caps() =~= pre.abs_caps());
        }
    }

    /// The event categories the device supports.
    pub fn events_supported(&self) -> (r: Types)
        ensures
            r == self.ty,
    {
        self.ty
    }

    /// The device name.
    pub fn name(&self) -> (r: &Vec<u8>)
        ensures
            r == self.name,
    {
        &self.name
    }

    /// The physical address, if the device reports one.
    pub fn physical_path(&self) -> (r: &Option<Vec<u8>>)
        ensures
            r == self.phys,
    {
        &self.phys
    }

    /// The unique name, if the device reports one.
    pub fn unique_name(&self) -> (r: &Option<Vec<u8>>)
        ensures
            r == self.uniq,
    {
        &self.uniq
    }

    /// The device identity.
    pub fn input_id(&self) -> (r: input_id)
        ensures
            r == self.id,
    {
        self.id
    }

    /// The device properties.
    pub fn properties(&self) -> (r: Props)
        ensures
            r == self.props,
    {
        self.props
    }

    /// The driver version as (major, minor, patch).
    pub fn driver_version(&self) -> (r: (u8, u8, u8))
        ensures
            r == self.driver_version,
    {
        self.driver_version
    }

    /// The supported-key set.
    pub fn keys_supported(&self) -> (r: &FixedBitSet)
        ensures
            r == self.key_bits,
    {
        &self.key_bits
    }

    /// The supported relative axes.
    pub fn relative_axes_supported(&self) -> (r: RelativeAxis)
        ensures
            r == self.rel,
    {
        self.rel
    }

    /// The supported absolute axes.
    pub fn absolute_axes_supported(&self) -> (r: AbsoluteAxis)
        ensures
            r == self.abs,
    {
        self.abs
    }

    /// The supported switches.
    pub fn switches_supported(&self) -> (r: Switch)
        ensures
            r == self.switch,
    {
        self.switch
    }

    /// The supported LEDs.
    pub fn leds_supported(&self) -> (r: Led)
        ensures
            r == self.led,
    {
        self.led
    }

    /// The supported miscellaneous events.
    pub fn misc_properties(&self) -> (r: Misc)
        ensures
            r == self.misc,
    {
        self.misc
    }

    /// The key-repeat configuration capability.
    pub fn repeats_supported(&self) -> (r: Repeat)
        ensures
            r == self.rep,
    {
        self.rep
    }

    /// The supported sounds.
    pub fn sounds_supported(&self) -> (r: Sound)
        ensures
            r == self.snd,
    {
        self.snd
    }

    /// The state mirror.
    pub fn state(&self) -> (r: &DeviceState)
        ensures
            r == self.state,
    {
        &self.state
    }

    /// Stamps the mirror with the time of the last confirmed synchronization.
    pub fn set_sync_time(&mut self, t: TimeVal)
        requires
            old(self).wf(),
        ensures
            final(self).wf(),
            Device::caps_eq(final(self), old(self)),
            final(self).pending_events@ == old(self).pending_events@,
            final(self).last_seen == old(self).last_seen,
            final(self).state@.keys == old(self).state@.keys,
            final(self).state@.abs == old(self).state@.abs,
            final(self).state@.switches == old(self).state@.switches,
            final(self).state@.leds == old(self).state@.leds,
            final(self).state@.timestamp == t,
    {
        let ghost pre = *self;
        self.state.timestamp = t;
        proof {
            assert(self.key_caps() =~= pre.key_caps());
            assert(self.switch_caps() =~= pre.switch_caps());
            assert(self.led_caps() =~= pre.led_caps());
            assert(self.abs_caps() =~= pre.abs_caps());
        }
    }
}

} // verus!
