//! Fixed-layout records exchanged with the device, and their wire codec.
//!
//! Every record crosses the device boundary as little-endian bytes of fixed
//! width.  The encode and decode functions below are the only place where the
//! library touches raw bytes of the event wire format; the rest of the core
//! works on the decoded records.

#![allow(non_camel_case_types)]

use vstd::prelude::*;

use crate::Error;

verus! {

/// A timestamp: seconds and microseconds.
#[derive(Clone, Copy, Debug, PartialEq, Eq, Structural)]
pub struct TimeVal {
    pub tv_sec: i64,
    pub tv_usec: i64,
}

impl TimeVal {
    pub fn zero() -> (r: TimeVal)
        ensures
            r.tv_sec == 0 && r.tv_usec == 0,
    {
        TimeVal { tv_sec: 0, tv_usec: 0 }
    }
}

/// One event record: a timestamp, a category code, a sub-code within the
/// category, and a value whose meaning depends on the category.
#[derive(Clone, Copy, Debug, PartialEq, Eq, Structural)]
pub struct input_event {
    pub time: TimeVal,
    pub _type: u16,
    pub code: u16,
    pub value: i32,
}

impl Default for input_event {
    /// The all-zero record.
    fn default() -> (r: Self)
        ensures
            r.time.tv_sec == 0 && r.time.tv_usec == 0,
            r._type == 0 && r.code == 0 && r.value == 0,
    {
        input_event { time: TimeVal { tv_sec: 0, tv_usec: 0 }, _type: 0, code: 0, value: 0 }
    }
}

/// Device identity: immutable after open, used only for diagnostics.
#[derive(Clone, Copy, Debug, PartialEq, Eq, Structural, Default)]
pub struct input_id {
    pub bustype: u16,
    pub vendor: u16,
    pub product: u16,
    pub version: u16,
}

/// Calibration record of one absolute axis: live value and range metadata.
#[derive(Clone, Copy, Debug, PartialEq, Eq, Structural, Default)]
pub struct input_absinfo {
    pub value: i32,
    pub minimum: i32,
    pub maximum: i32,
    pub fuzz: i32,
    pub flat: i32,
    pub resolution: i32,
}

/// One entry of a device's scancode-to-keycode map.
#[derive(Clone, Copy, Debug)]
pub struct input_keymap_entry {
    pub flags: u8,
    pub len: u8,
    pub index: u16,
    pub keycode: u32,
    pub scancode: [u8; 32],
}

/// Replay parameters of a force-feedback effect.
#[derive(Clone, Copy, Debug, PartialEq, Eq, Structural, Default)]
pub struct ff_replay {
    pub length: u16,
    pub delay: u16,
}

/// Trigger parameters of a force-feedback effect.
#[derive(Clone, Copy, Debug, PartialEq, Eq, Structural, Default)]
pub struct ff_trigger {
    pub button: u16,
    pub interval: u16,
}

/// Attack/fade envelope of a force-feedback effect.
#[derive(Clone, Copy, Debug, PartialEq, Eq, Structural, Default)]
pub struct ff_envelope {
    pub attack_length: u16,
    pub attack_level: u16,
    pub fade_length: u16,
    pub fade_level: u16,
}

/// A constant-force effect.
#[derive(Clone, Copy, Debug, PartialEq, Eq, Structural, Default)]
pub struct ff_constant_effect {
    pub level: i16,
    pub envelope: ff_envelope,
}

/// A ramp effect.
#[derive(Clone, Copy, Debug, PartialEq, Eq, Structural, Default)]
pub struct ff_ramp_effect {
    pub start_level: i16,
    pub end_level: i16,
    pub envelope: ff_envelope,
}

/// A condition effect (spring, friction, damper, inertia).
#[derive(Clone, Copy, Debug, PartialEq, Eq, Structural, Default)]
pub struct ff_condition_effect {
    pub right_saturation: u16,
    pub left_saturation: u16,
    pub right_coeff: i16,
    pub left_coeff: i16,
    pub deadband: u16,
    pub center: i16,
}

/// A periodic effect; the custom waveform is carried as plain samples.
#[derive(Clone, Debug, PartialEq, Eq, Default)]
pub struct ff_periodic_effect {
    pub waveform: u16,
    pub period: u16,
    pub magnitude: i16,
    pub offset: i16,
    pub phase: u16,
    pub envelope: ff_envelope,
    pub custom_data: Vec<i16>,
}

/// A rumble effect.
#[derive(Clone, Copy, Debug, PartialEq, Eq, Structural, Default)]
pub struct ff_rumble_effect {
    pub strong_magnitude: u16,
    pub weak_magnitude: u16,
}

/// The effect-specific payload of a force-feedback effect, as an opaque blob
/// whose interpretation depends on the effect kind.
#[derive(Clone, Copy, Debug, Default)]
pub struct Union_Unnamed16 {
    pub _bindgen_data_: [u64; 4],
}

/// One force-feedback effect as a device consumes it.
#[derive(Clone, Copy, Debug, Default)]
pub struct ff_effect {
    pub _type: u16,
    pub id: i16,
    pub direction: u16,
    pub trigger: ff_trigger,
    pub replay: ff_replay,
    pub u: Union_Unnamed16,
}

/// The name buffer of a synthetic device holds this many bytes, terminator
/// included.
pub const UINPUT_MAX_NAME_SIZE: usize = 80;

/// Identity and name under which a synthetic device is created.
#[derive(Clone, Debug, PartialEq, Eq)]
pub struct uinput_setup {
    pub id: input_id,
    /// Zero-terminated name, padded with zeros to the fixed buffer size.
    pub name: Vec<u8>,
    pub ff_effects_max: u32,
}

impl uinput_setup {
    /// A setup record with the given identity and an empty name.
    pub fn new(id: input_id) -> (r: uinput_setup)
        ensures
            r.id == id,
            r.ff_effects_max == 0,
            r.name@.len() == UINPUT_MAX_NAME_SIZE,
            forall|i: int| 0 <= i < r.name@.len() ==> r.name@[i] == 0u8,
    {
        let mut name: Vec<u8> = Vec::new();
        let mut i: usize = 0;
        while i < UINPUT_MAX_NAME_SIZE
            invariant
                i <= UINPUT_MAX_NAME_SIZE,
                name@.len() == i,
                forall|j: int| 0 <= j < i ==> name@[j] == 0u8,
            decreases UINPUT_MAX_NAME_SIZE - i,
        {
            name.push(0u8);
            i = i + 1;
        }
        uinput_setup { id: id, name: name, ff_effects_max: 0 }
    }

    /// Installs `name` in the fixed-size buffer, zero-terminated and
    /// zero-padded.  Rejects a name that holds an interior zero byte, or one
    /// that does not fit the buffer with its terminator.
    pub fn set_name(&mut self, name: &[u8]) -> (r: Result<(), Error>)
        ensures
            r is Ok <==> (name@.len() < UINPUT_MAX_NAME_SIZE
                && forall|i: int| 0 <= i < name@.len() ==> name@[i] != 0u8),
            r is Ok ==> {
                &&& final(self).name@.len() == UINPUT_MAX_NAME_SIZE
                &&& forall|i: int| 0 <= i < name@.len() ==> final(self).name@[i] == name@[i]
                &&& forall|i: int|
                    name@.len() <= i < UINPUT_MAX_NAME_SIZE ==> final(self).name@[i] == 0u8
            },
            r is Err ==> *final(self) == *old(self) && r == Err::<(), Error>(Error::PathInvalid),
            final(self).id == old(self).id,
            final(self).ff_effects_max == old(self).ff_effects_max,
    {
        if name.len() >= UINPUT_MAX_NAME_SIZE {
            return Err(Error::PathInvalid);
        }
        let mut i: usize = 0;
        while i < name.len()
            invariant
                i <= name@.len(),
                forall|j: int| 0 <= j < i ==> name@[j] != 0u8,
            decreases name@.len() - i,
        {
            if name[i] == 0u8 {
                return Err(Error::PathInvalid);
            }
            i = i + 1;
        }
        let mut buf: Vec<u8> = Vec::new();
        let mut i: usize = 0;
        while i < name.len()
            invariant
                i <= name@.len(),
                name@.len() < UINPUT_MAX_NAME_SIZE,
                buf@.len() == i,
                forall|j: int| 0 <= j < i ==> buf@[j] == name@[j],
            decreases name@.len() - i,
        {
            buf.push(name[i]);
            i = i + 1;
        }
        while i < UINPUT_MAX_NAME_SIZE
            invariant
                buf@.len() == i,
                name@.len() <= i <= UINPUT_MAX_NAME_SIZE,
                forall|j: int| 0 <= j < name@.len() ==> buf@[j] == name@[j],
                forall|j: int| name@.len() <= j < i ==> buf@[j] == 0u8,
            decreases UINPUT_MAX_NAME_SIZE - i,
        {
            buf.push(0u8);
            i = i + 1;
        }
        self.name = buf;
        Ok(())
    }
}

/// An event record crosses the wire as this many bytes.
pub const EVENT_WIRE_SIZE: usize = 24;

/// Two little-endian bytes, as an unsigned value.
pub open spec fn spec_le16(b: Seq<u8>, off: int) -> int {
    b[off] + 0x100 * b[off + 1]
}

/// Four little-endian bytes, as an unsigned value.
pub open spec fn spec_le32(b: Seq<u8>, off: int) -> int {
    b[off] + 0x100 * b[off + 1] + 0x10000 * b[off + 2] + 0x1000000 * b[off + 3]
}

/// Eight little-endian bytes, as an unsigned value.
pub open spec fn spec_le64(b: Seq<u8>, off: int) -> int {
    b[off] + 0x100 * b[off + 1] + 0x10000 * b[off + 2] + 0x1000000 * b[off + 3]
        + 0x100000000 * b[off + 4] + 0x10000000000 * b[off + 5] + 0x1000000000000 * b[off + 6]
        + 0x100000000000000 * b[off + 7]
}

/// The signed reading (two's complement) of an unsigned 32-bit value.
pub open spec fn spec_signed32(u: int) -> int {
    if u < 0x80000000 {
        u
    } else {
        u - 0x100000000
    }
}

/// The signed reading (two's complement) of an unsigned 64-bit value.
pub open spec fn spec_signed64(u: int) -> int {
    if u < 0x8000000000000000 {
        u
    } else {
        u - 0x10000000000000000
    }
}

/// The record encoded little-endian at `off`: seconds, microseconds, category,
/// sub-code, value.
pub open spec fn spec_decode_record(b: Seq<u8>, off: int) -> input_event {
    input_event {
        time: TimeVal {
            tv_sec: spec_signed64(spec_le64(b, off)) as i64,
            tv_usec: spec_signed64(spec_le64(b, off + 8)) as i64,
        },
        _type: spec_le16(b, off + 16) as u16,
        code: spec_le16(b, off + 18) as u16,
        value: spec_signed32(spec_le32(b, off + 20)) as i32,
    }
}

/// Every complete record at the front of `b`, in order; a trailing partial
/// record is ignored.
pub open spec fn spec_decode_records(b: Seq<u8>) -> Seq<input_event> {
    Seq::new((b.len() / 24) as nat, |k: int| spec_decode_record(b, 24 * k))
}

fn read_u16_le(buf: &[u8], off: usize) -> (r: u16)
    requires
        off + 2 <= buf@.len(),
    ensures
        r as int == spec_le16(buf@, off as int),
{
    (buf[off] as u16) + 0x100 * (buf[off + 1] as u16)
}

fn read_u32_le(buf: &[u8], off: usize) -> (r: u32)
    requires
        off + 4 <= buf@.len(),
    ensures
        r as int == spec_le32(buf@, off as int),
{
    (buf[off] as u32) + 0x100 * (buf[off + 1] as u32) + 0x10000 * (buf[off + 2] as u32)
        + 0x1000000 * (buf[off + 3] as u32)
}

fn read_u64_le(buf: &[u8], off: usize) -> (r: u64)
    requires
        off + 8 <= buf@.len(),
    ensures
        r as int == spec_le64(buf@, off as int),
{
    (buf[off] as u64) + 0x100 * (buf[off + 1] as u64) + 0x10000 * (buf[off + 2] as u64)
        + 0x1000000 * (buf[off + 3] as u64) + 0x100000000 * (buf[off + 4] as u64)
        + 0x10000000000 * (buf[off + 5] as u64) + 0x1000000000000 * (buf[off + 6] as u64)
        + 0x100000000000000 * (buf[off + 7] as u64)
}

/// The signed value whose two's complement bits are `u`.
fn signed_of_u32(u: u32) -> (r: i32)
    ensures
        r as int == spec_signed32(u as int),
{
    if u < 0x80000000 {
        u as i32
    } else {
        let low = (u - 0x80000000) as i32;
        low + i32::MIN
    }
}

/// The signed value whose two's complement bits are `u`.
fn signed_of_u64(u: u64) -> (r: i64)
    ensures
        r as int == spec_signed64(u as int),
{
    if u < 0x8000000000000000 {
        u as i64
    } else {
        let low = (u - 0x8000000000000000) as i64;
        low + i64::MIN
    }
}

/// The two's complement bits of a signed value.
fn unsigned_of_i32(x: i32) -> (r: u32)
    ensures
        spec_signed32(r as int) == x as int,
{
    if x >= 0 {
        x as u32
    } else {
        let low = (x - i32::MIN) as u32;
        low + 0x80000000
    }
}

/// The two's complement bits of a signed value.
fn unsigned_of_i64(x: i64) -> (r: u64)
    ensures
        spec_signed64(r as int) == x as int,
{
    if x >= 0 {
        x as u64
    } else {
        let low = (x - i64::MIN) as u64;
        low + 0x8000000000000000
    }
}

fn push_u16_le(out: &mut Vec<u8>, v: u16)
    ensures
        final(out)@.len() == old(out)@.len() + 2,
        forall|i: int| 0 <= i < old(out)@.len() ==> final(out)@[i] == old(out)@[i],
        spec_le16(final(out)@, old(out)@.len() as int) == v as int,
{
    let b0 = (v % 0x100) as u8;
    let b1 = (v / 0x100) as u8;
    out.push(b0);
    out.push(b1);
}

fn push_u32_le(out: &mut Vec<u8>, v: u32)
    ensures
        final(out)@.len() == old(out)@.len() + 4,
        forall|i: int| 0 <= i < old(out)@.len() ==> final(out)@[i] == old(out)@[i],
        spec_le32(final(out)@, old(out)@.len() as int) == v as int,
{
    let b0 = (v % 0x100) as u8;
    let v1 = v / 0x100;
    let b1 = (v1 % 0x100) as u8;
    let v2 = v1 / 0x100;
    let b2 = (v2 % 0x100) as u8;
    let b3 = (v2 / 0x100) as u8;
    proof {
        assert(v as int == b0 + 0x100 * b1 + 0x10000 * b2 + 0x1000000 * b3);
    }
    out.push(b0);
    out.push(b1);
    out.push(b2);
    out.push(b3);
}

fn push_u64_le(out: &mut Vec<u8>, v: u64)
    ensures
        final(out)@.len() == old(out)@.len() + 8,
        forall|i: int| 0 <= i < old(out)@.len() ==> final(out)@[i] == old(out)@[i],
        spec_le64(final(out)@, old(out)@.len() as int) == v as int,
{
    let b0 = (v % 0x100) as u8;
    let v1 = v / 0x100;
    let b1 = (v1 % 0x100) as u8;
    let v2 = v1 / 0x100;
    let b2 = (v2 % 0x100) as u8;
    let v3 = v2 / 0x100;
    let b3 = (v3 % 0x100) as u8;
    let v4 = v3 / 0x100;
    let b4 = (v4 % 0x100) as u8;
    let v5 = v4 / 0x100;
    let b5 = (v5 % 0x100) as u8;
    let v6 = v5 / 0x100;
    let b6 = (v6 % 0x100) as u8;
    let b7 = (v6 / 0x100) as u8;
    proof {
        assert(v as int == b0 + 0x100 * b1 + 0x10000 * b2 + 0x1000000 * b3 + 0x100000000 * b4
            + 0x10000000000 * b5 + 0x1000000000000 * b6 + 0x100000000000000 * b7);
    }
    out.push(b0);
    out.push(b1);
    out.push(b2);
    out.push(b3);
    out.push(b4);
    out.push(b5);
    out.push(b6);
    out.push(b7);
}

/// The unsigned reading of a raw driver-version word.
pub open spec fn spec_version_bits(v: i32) -> int {
    if v >= 0 {
        v as int
    } else {
        v + 0x100000000
    }
}

/// Splits a raw driver-version word into its three version bytes, highest
/// first.
pub fn decode_driver_version(v: i32) -> (r: (u8, u8, u8))
    ensures
        r.0 as int == (spec_version_bits(v) / 0x10000) % 0x100,
        r.1 as int == (spec_version_bits(v) / 0x100) % 0x100,
        r.2 as int == spec_version_bits(v) % 0x100,
{
    let u = unsigned_of_i32(v);
    proof {
        assert(u as int == spec_version_bits(v));
    }
    (((u / 0x10000) % 0x100) as u8, ((u / 0x100) % 0x100) as u8, (u % 0x100) as u8)
}

/// Decodes the record stored little-endian at `off`.
pub fn decode_record(buf: &[u8], off: usize) -> (r: input_event)
    requires
        off + EVENT_WIRE_SIZE <= buf@.len(),
    ensures
        r == spec_decode_record(buf@, off as int),
{
    let blen = buf.len();
    let tv_sec = signed_of_u64(read_u64_le(buf, off));
    let tv_usec = signed_of_u64(read_u64_le(buf, off + 8));
    let _type = read_u16_le(buf, off + 16);
    let code = read_u16_le(buf, off + 18);
    let value = signed_of_u32(read_u32_le(buf, off + 20));
    input_event { time: TimeVal { tv_sec: tv_sec, tv_usec: tv_usec }, _type: _type, code: code, value: value }
}

/// Encodes one record as its little-endian wire bytes.
pub fn encode_record(e: &input_event) -> (r: Vec<u8>)
    ensures
        r@.len() == EVENT_WIRE_SIZE,
        spec_decode_record(r@, 0) == *e,
{
    let mut out: Vec<u8> = Vec::new();
    push_u64_le(&mut out, unsigned_of_i64(e.time.tv_sec));
    push_u64_le(&mut out, unsigned_of_i64(e.time.tv_usec));
    push_u16_le(&mut out, e._type);
    push_u16_le(&mut out, e.code);
    push_u32_le(&mut out, unsigned_of_i32(e.value));
    out
}

} // verus!
