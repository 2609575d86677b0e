//! Capability categories and per-category sub-code masks.
//!
//! A device advertises a set of event categories in one device-wide bitmask,
//! and for most categories a bounded set of sub-codes in a per-category
//! bitmask.  Each mask type below holds the raw bits together with the table
//! of bits the library knows; a probed mask with bits outside that table is
//! rejected as [`crate::Error::UnexpectedCapabilityBits`] rather than
//! accepted blindly.

#![allow(non_camel_case_types)]

use vstd::prelude::*;

verus! {

// Category bits of the device-wide capability mask.
pub const SYNCHRONIZATION: u32 = 1u32 << 0x00;
pub const KEY: u32 = 1u32 << 0x01;
pub const RELATIVE: u32 = 1u32 << 0x02;
pub const ABSOLUTE: u32 = 1u32 << 0x03;
pub const MISC: u32 = 1u32 << 0x04;
pub const SWITCH: u32 = 1u32 << 0x05;
pub const LED: u32 = 1u32 << 0x11;
pub const SOUND: u32 = 1u32 << 0x12;
pub const REPEAT: u32 = 1u32 << 0x14;
pub const FORCEFEEDBACK: u32 = 1u32 << 0x15;
pub const POWER: u32 = 1u32 << 0x16;
pub const FORCEFEEDBACKSTATUS: u32 = 1u32 << 0x17;

/// Every category bit the library knows.
pub const TYPES_ALL: u32 = SYNCHRONIZATION | KEY | RELATIVE | ABSOLUTE | MISC | SWITCH | LED
    | SOUND | REPEAT | FORCEFEEDBACK | POWER | FORCEFEEDBACKSTATUS;

/// Event categories supported by a device.
#[derive(Clone, Copy, Debug, PartialEq, Eq, Structural)]
pub struct Types {
    pub bits: u32,
}

impl Types {
    /// The mask with no category set.
    pub fn empty() -> (r: Types)
        ensures
            r.bits == 0,
    {
        Types { bits: 0 }
    }

    /// Accepts exactly the masks whose bits all lie in the known table.
    pub fn from_bits(bits: u32) -> (r: Option<Types>)
        ensures
            r is Some <==> bits & TYPES_ALL == bits,
            r matches Some(t) ==> t.bits == bits,
    {
        if bits & TYPES_ALL == bits {
            Some(Types { bits: bits })
        } else {
            None
        }
    }

    pub fn bits(&self) -> (r: u32)
        ensures
            r == self.bits,
    {
        self.bits
    }

    /// Mask containment: every bit of `flag` is set in `self`.
    pub fn contains(&self, flag: u32) -> (r: bool)
        ensures
            r == (self.bits & flag == flag),
    {
        self.bits & flag == flag
    }

    /// The event code of a mask with a single category bit set: the index of
    /// its lowest set bit.
    pub fn number(&self) -> (r: u16)
        requires
            self.bits != 0,
        ensures
            r == vstd::std_specs::bits::u32_trailing_zeros(self.bits),
            r < 32,
    {
        proof {
            vstd::std_specs::bits::axiom_u32_trailing_zeros(self.bits);
        }
        let n = self.bits.trailing_zeros();
        n as u16
    }
}

// Category codes as they appear in an event record's category field.
pub const EV_SYNCHRONIZATION: u16 = 0x00;
pub const EV_KEY: u16 = 0x01;
pub const EV_RELATIVE: u16 = 0x02;
pub const EV_ABSOLUTE: u16 = 0x03;
pub const EV_MISC: u16 = 0x04;
pub const EV_SWITCH: u16 = 0x05;
pub const EV_LED: u16 = 0x11;
pub const EV_SOUND: u16 = 0x12;

// Sub-codes of the synchronization category.
pub const SYN_REPORT: u16 = 0;
pub const SYN_CONFIG: u16 = 1;
pub const SYN_MT_REPORT: u16 = 2;
pub const SYN_DROPPED: u16 = 3;

/// Structural events of the synchronization category.
#[derive(Clone, Copy, Debug, PartialEq, Eq, Structural)]
pub enum Synchronization {
    /// Terminates a packet of events from the device.
    SYN_REPORT,
    /// Appears to be unused.
    SYN_CONFIG,
    /// Used to synchronize and separate touch events.
    SYN_MT_REPORT,
    /// Ring buffer filled, events were dropped.
    SYN_DROPPED,
}

impl Synchronization {
    /// The sub-code carried by a record of this kind.
    pub fn code(&self) -> (r: u16)
        ensures
            *self == Synchronization::SYN_REPORT ==> r == SYN_REPORT,
            *self == Synchronization::SYN_CONFIG ==> r == SYN_CONFIG,
            *self == Synchronization::SYN_MT_REPORT ==> r == SYN_MT_REPORT,
            *self == Synchronization::SYN_DROPPED ==> r == SYN_DROPPED,
    {
        match self {
            Synchronization::SYN_REPORT => SYN_REPORT,
            Synchronization::SYN_CONFIG => SYN_CONFIG,
            Synchronization::SYN_MT_REPORT => SYN_MT_REPORT,
            Synchronization::SYN_DROPPED => SYN_DROPPED,
        }
    }
}

// Device property bits.
pub const POINTER: u32 = 1u32 << 0x00;
pub const DIRECT: u32 = 1u32 << 0x01;
pub const BUTTONPAD: u32 = 1u32 << 0x02;
pub const SEMI_MT: u32 = 1u32 << 0x03;
pub const TOPBUTTONPAD: u32 = 1u32 << 0x04;
pub const POINTING_STICK: u32 = 1u32 << 0x05;
pub const ACCELEROMETER: u32 = 1u32 << 0x06;

/// Every property bit the library knows.
pub const PROPS_ALL: u32 = POINTER | DIRECT | BUTTONPAD | SEMI_MT | TOPBUTTONPAD
    | POINTING_STICK | ACCELEROMETER;

/// Device properties.
#[derive(Clone, Copy, Debug, PartialEq, Eq, Structural)]
pub struct Props {
    pub bits: u32,
}

impl Props {
    pub fn empty() -> (r: Props)
        ensures
            r.bits == 0,
    {
        Props { bits: 0 }
    }

    /// Accepts exactly the masks whose bits all lie in the known table.
    pub fn from_bits(bits: u32) -> (r: Option<Props>)
        ensures
            r is Some <==> bits & PROPS_ALL == bits,
            r matches Some(t) ==> t.bits == bits,
    {
        if bits & PROPS_ALL == bits {
            Some(Props { bits: bits })
        } else {
            None
        }
    }

    pub fn bits(&self) -> (r: u32)
        ensures
            r == self.bits,
    {
        self.bits
    }

    pub fn contains(&self, flag: u32) -> (r: bool)
        ensures
            r == (self.bits & flag == flag),
    {
        self.bits & flag == flag
    }
}

// Relative-axis sub-codes, as mask bits.
pub const REL_X: u32 = 1u32 << 0x00;
pub const REL_Y: u32 = 1u32 << 0x01;
pub const REL_Z: u32 = 1u32 << 0x02;
pub const REL_RX: u32 = 1u32 << 0x03;
pub const REL_RY: u32 = 1u32 << 0x04;
pub const REL_RZ: u32 = 1u32 << 0x05;
pub const REL_HWHEEL: u32 = 1u32 << 0x06;
pub const REL_DIAL: u32 = 1u32 << 0x07;
pub const REL_WHEEL: u32 = 1u32 << 0x08;
pub const REL_MISC: u32 = 1u32 << 0x09;

/// Every relative-axis bit the library knows.
pub const RELATIVE_ALL: u32 = REL_X | REL_Y | REL_Z | REL_RX | REL_RY | REL_RZ | REL_HWHEEL
    | REL_DIAL | REL_WHEEL | REL_MISC;

/// Relative axes a device can report.
#[derive(Clone, Copy, Debug, PartialEq, Eq, Structural)]
pub struct RelativeAxis {
    pub bits: u32,
}

impl RelativeAxis {
    pub fn empty() -> (r: RelativeAxis)
        ensures
            r.bits == 0,
    {
        RelativeAxis { bits: 0 }
    }

    /// Accepts exactly the masks whose bits all lie in the known table.
    pub fn from_bits(bits: u32) -> (r: Option<RelativeAxis>)
        ensures
            r is Some <==> bits & RELATIVE_ALL == bits,
            r matches Some(t) ==> t.bits == bits,
    {
        if bits & RELATIVE_ALL == bits {
            Some(RelativeAxis { bits: bits })
        } else {
            None
        }
    }

    pub fn bits(&self) -> (r: u32)
        ensures
            r == self.bits,
    {
        self.bits
    }

    pub fn contains(&self, flag: u32) -> (r: bool)
        ensures
            r == (self.bits & flag == flag),
    {
        self.bits & flag == flag
    }
}

// Absolute-axis sub-codes, as mask bits.
pub const ABS_X: u64 = 1u64 << 0x00;
pub const ABS_Y: u64 = 1u64 << 0x01;
pub const ABS_Z: u64 = 1u64 << 0x02;
pub const ABS_RX: u64 = 1u64 << 0x03;
pub const ABS_RY: u64 = 1u64 << 0x04;
pub const ABS_RZ: u64 = 1u64 << 0x05;
pub const ABS_THROTTLE: u64 = 1u64 << 0x06;
pub const ABS_RUDDER: u64 = 1u64 << 0x07;
pub const ABS_WHEEL: u64 = 1u64 << 0x08;
pub const ABS_GAS: u64 = 1u64 << 0x09;
pub const ABS_BRAKE: u64 = 1u64 << 0x0a;
pub const ABS_HAT0X: u64 = 1u64 << 0x10;
pub const ABS_HAT0Y: u64 = 1u64 << 0x11;
pub const ABS_HAT1X: u64 = 1u64 << 0x12;
pub const ABS_HAT1Y: u64 = 1u64 << 0x13;
pub const ABS_HAT2X: u64 = 1u64 << 0x14;
pub const ABS_HAT2Y: u64 = 1u64 << 0x15;
pub const ABS_HAT3X: u64 = 1u64 << 0x16;
pub const ABS_HAT3Y: u64 = 1u64 << 0x17;
pub const ABS_PRESSURE: u64 = 1u64 << 0x18;
pub const ABS_DISTANCE: u64 = 1u64 << 0x19;
pub const ABS_TILT_X: u64 = 1u64 << 0x1a;
pub const ABS_TILT_Y: u64 = 1u64 << 0x1b;
pub const ABS_TOOL_WIDTH: u64 = 1u64 << 0x1c;
pub const ABS_VOLUME: u64 = 1u64 << 0x20;
pub const ABS_MISC: u64 = 1u64 << 0x28;
/// Multitouch slot being modified.
pub const ABS_MT_SLOT: u64 = 1u64 << 0x2f;
pub const ABS_MT_TOUCH_MAJOR: u64 = 1u64 << 0x30;
pub const ABS_MT_TOUCH_MINOR: u64 = 1u64 << 0x31;
pub const ABS_MT_WIDTH_MAJOR: u64 = 1u64 << 0x32;
pub const ABS_MT_WIDTH_MINOR: u64 = 1u64 << 0x33;
pub const ABS_MT_ORIENTATION: u64 = 1u64 << 0x34;
pub const ABS_MT_POSITION_X: u64 = 1u64 << 0x35;
pub const ABS_MT_POSITION_Y: u64 = 1u64 << 0x36;
pub const ABS_MT_TOOL_TYPE: u64 = 1u64 << 0x37;
pub const ABS_MT_BLOB_ID: u64 = 1u64 << 0x38;
pub const ABS_MT_TRACKING_ID: u64 = 1u64 << 0x39;
pub const ABS_MT_PRESSURE: u64 = 1u64 << 0x3a;
pub const ABS_MT_DISTANCE: u64 = 1u64 << 0x3b;
pub const ABS_MT_TOOL_X: u64 = 1u64 << 0x3c;
pub const ABS_MT_TOOL_Y: u64 = 1u64 << 0x3d;

/// Every absolute-axis bit the library knows.
pub const ABSOLUTE_ALL: u64 = ABS_X | ABS_Y | ABS_Z | ABS_RX | ABS_RY | ABS_RZ | ABS_THROTTLE
    | ABS_RUDDER | ABS_WHEEL | ABS_GAS | ABS_BRAKE | ABS_HAT0X | ABS_HAT0Y | ABS_HAT1X
    | ABS_HAT1Y | ABS_HAT2X | ABS_HAT2Y | ABS_HAT3X | ABS_HAT3Y | ABS_PRESSURE | ABS_DISTANCE
    | ABS_TILT_X | ABS_TILT_Y | ABS_TOOL_WIDTH | ABS_VOLUME | ABS_MISC | ABS_MT_SLOT
    | ABS_MT_TOUCH_MAJOR | ABS_MT_TOUCH_MINOR | ABS_MT_WIDTH_MAJOR | ABS_MT_WIDTH_MINOR
    | ABS_MT_ORIENTATION | ABS_MT_POSITION_X | ABS_MT_POSITION_Y | ABS_MT_TOOL_TYPE
    | ABS_MT_BLOB_ID | ABS_MT_TRACKING_ID | ABS_MT_PRESSURE | ABS_MT_DISTANCE | ABS_MT_TOOL_X
    | ABS_MT_TOOL_Y;

/// Absolute axes a device can report; each supported axis also carries a
/// calibration record in the state mirror.
#[derive(Clone, Copy, Debug, PartialEq, Eq, Structural)]
pub struct AbsoluteAxis {
    pub bits: u64,
}

impl AbsoluteAxis {
    pub fn empty() -> (r: AbsoluteAxis)
        ensures
            r.bits == 0,
    {
        AbsoluteAxis { bits: 0 }
    }

    /// Accepts exactly the masks whose bits all lie in the known table.
    pub fn from_bits(bits: u64) -> (r: Option<AbsoluteAxis>)
        ensures
            r is Some <==> bits & ABSOLUTE_ALL == bits,
            r matches Some(t) ==> t.bits == bits,
    {
        if bits & ABSOLUTE_ALL == bits {
            Some(AbsoluteAxis { bits: bits })
        } else {
            None
        }
    }

    pub fn bits(&self) -> (r: u64)
        ensures
            r == self.bits,
    {
        self.bits
    }

    pub fn contains(&self, flag: u64) -> (r: bool)
        ensures
            r == (self.bits & flag == flag),
    {
        self.bits & flag == flag
    }
}

// Switch sub-codes, as mask bits.
pub const SW_LID: u32 = 1u32 << 0x00;
pub const SW_TABLET_MODE: u32 = 1u32 << 0x01;
pub const SW_HEADPHONE_INSERT: u32 = 1u32 << 0x02;
pub const SW_RFKILL_ALL: u32 = 1u32 << 0x03;
pub const SW_MICROPHONE_INSERT: u32 = 1u32 << 0x04;
pub const SW_DOCK: u32 = 1u32 << 0x05;
pub const SW_LINEOUT_INSERT: u32 = 1u32 << 0x06;
pub const SW_JACK_PHYSICAL_INSERT: u32 = 1u32 << 0x07;
pub const SW_VIDEOOUT_INSERT: u32 = 1u32 << 0x08;
pub const SW_CAMERA_LENS_COVER: u32 = 1u32 << 0x09;
pub const SW_KEYPAD_SLIDE: u32 = 1u32 << 0x0a;
pub const SW_FRONT_PROXIMITY: u32 = 1u32 << 0x0b;
pub const SW_ROTATE_LOCK: u32 = 1u32 << 0x0c;
pub const SW_LINEIN_INSERT: u32 = 1u32 << 0x0d;
pub const SW_MUTE_DEVICE: u32 = 1u32 << 0x0e;
pub const SW_PEN_INSERTED: u32 = 1u32 << 0x0f;

/// Every switch bit the library knows.
pub const SWITCH_ALL: u32 = SW_LID | SW_TABLET_MODE | SW_HEADPHONE_INSERT | SW_RFKILL_ALL
    | SW_MICROPHONE_INSERT | SW_DOCK | SW_LINEOUT_INSERT | SW_JACK_PHYSICAL_INSERT
    | SW_VIDEOOUT_INSERT | SW_CAMERA_LENS_COVER | SW_KEYPAD_SLIDE | SW_FRONT_PROXIMITY
    | SW_ROTATE_LOCK | SW_LINEIN_INSERT | SW_MUTE_DEVICE | SW_PEN_INSERTED;

/// Switches a device can report.
#[derive(Clone, Copy, Debug, PartialEq, Eq, Structural)]
pub struct Switch {
    pub bits: u32,
}

impl Switch {
    pub fn empty() -> (r: Switch)
        ensures
            r.bits == 0,
    {
        Switch { bits: 0 }
    }

    /// Accepts exactly the masks whose bits all lie in the known table.
    pub fn from_bits(bits: u32) -> (r: Option<Switch>)
        ensures
            r is Some <==> bits & SWITCH_ALL == bits,
            r matches Some(t) ==> t.bits == bits,
    {
        if bits & SWITCH_ALL == bits {
            Some(Switch { bits: bits })
        } else {
            None
        }
    }

    pub fn bits(&self) -> (r: u32)
        ensures
            r == self.bits,
    {
        self.bits
    }

    pub fn contains(&self, flag: u32) -> (r: bool)
        ensures
            r == (self.bits & flag == flag),
    {
        self.bits & flag == flag
    }
}

// LED sub-codes, as mask bits.
pub const LED_NUML: u32 = 1u32 << 0x00;
pub const LED_CAPSL: u32 = 1u32 << 0x01;
pub const LED_SCROLLL: u32 = 1u32 << 0x02;
pub const LED_COMPOSE: u32 = 1u32 << 0x03;
pub const LED_KANA: u32 = 1u32 << 0x04;
pub const LED_SLEEP: u32 = 1u32 << 0x05;
pub const LED_SUSPEND: u32 = 1u32 << 0x06;
pub const LED_MUTE: u32 = 1u32 << 0x07;
pub const LED_MISC: u32 = 1u32 << 0x08;
pub const LED_MAIL: u32 = 1u32 << 0x09;
pub const LED_CHARGING: u32 = 1u32 << 0x0a;
pub const LED_MAX: u32 = 1u32 << 0x0f;

/// Every LED bit the library knows.
pub const LED_ALL: u32 = LED_NUML | LED_CAPSL | LED_SCROLLL | LED_COMPOSE | LED_KANA | LED_SLEEP
    | LED_SUSPEND | LED_MUTE | LED_MISC | LED_MAIL | LED_CHARGING | LED_MAX;

/// LEDs a device can light.
#[derive(Clone, Copy, Debug, PartialEq, Eq, Structural)]
pub struct Led {
    pub bits: u32,
}

impl Led {
    pub fn empty() -> (r: Led)
        ensures
            r.bits == 0,
    {
        Led { bits: 0 }
    }

    /// Accepts exactly the masks whose bits all lie in the known table.
    pub fn from_bits(bits: u32) -> (r: Option<Led>)
        ensures
            r is Some <==> bits & LED_ALL == bits,
            r matches Some(t) ==> t.bits == bits,
    {
        if bits & LED_ALL == bits {
            Some(Led { bits: bits })
        } else {
            None
        }
    }

    pub fn bits(&self) -> (r: u32)
        ensures
            r == self.bits,
    {
        self.bits
    }

    pub fn contains(&self, flag: u32) -> (r: bool)
        ensures
            r == (self.bits & flag == flag),
    {
        self.bits & flag == flag
    }
}

// Miscellaneous-event sub-codes, as mask bits.
pub const MSC_SERIAL: u32 = 1u32 << 0x00;
pub const MSC_PULSELED: u32 = 1u32 << 0x01;
pub const MSC_GESTURE: u32 = 1u32 << 0x02;
pub const MSC_RAW: u32 = 1u32 << 0x03;
pub const MSC_SCAN: u32 = 1u32 << 0x04;
pub const MSC_TIMESTAMP: u32 = 1u32 << 0x05;
pub const MSC_MAX: u32 = 1u32 << 0x07;

/// Every miscellaneous bit the library knows.
pub const MISC_ALL: u32 = MSC_SERIAL | MSC_PULSELED | MSC_GESTURE | MSC_RAW | MSC_SCAN
    | MSC_TIMESTAMP | MSC_MAX;

/// Miscellaneous event kinds a device can report.
#[derive(Clone, Copy, Debug, PartialEq, Eq, Structural)]
pub struct Misc {
    pub bits: u32,
}

impl Misc {
    pub fn empty() -> (r: Misc)
        ensures
            r.bits == 0,
    {
        Misc { bits: 0 }
    }

    /// Accepts exactly the masks whose bits all lie in the known table.
    pub fn from_bits(bits: u32) -> (r: Option<Misc>)
        ensures
            r is Some <==> bits & MISC_ALL == bits,
            r matches Some(t) ==> t.bits == bits,
    {
        if bits & MISC_ALL == bits {
            Some(Misc { bits: bits })
        } else {
            None
        }
    }

    pub fn bits(&self) -> (r: u32)
        ensures
            r == self.bits,
    {
        self.bits
    }

    pub fn contains(&self, flag: u32) -> (r: bool)
        ensures
            r == (self.bits & flag == flag),
    {
        self.bits & flag == flag
    }
}

// Force-feedback status bits.
pub const FF_STATUS_STOPPED: u32 = 1u32 << 0x00;
pub const FF_STATUS_PLAYING: u32 = 1u32 << 0x01;

/// Every force-feedback status bit the library knows.
pub const FFSTATUS_ALL: u32 = FF_STATUS_STOPPED | FF_STATUS_PLAYING;

/// Force-feedback effect states a device can report.
#[derive(Clone, Copy, Debug, PartialEq, Eq, Structural)]
pub struct FFStatus {
    pub bits: u32,
}

impl FFStatus {
    pub fn empty() -> (r: FFStatus)
        ensures
            r.bits == 0,
    {
        FFStatus { bits: 0 }
    }

    /// Accepts exactly the masks whose bits all lie in the known table.
    pub fn from_bits(bits: u32) -> (r: Option<FFStatus>)
        ensures
            r is Some <==> bits & FFSTATUS_ALL == bits,
            r matches Some(t) ==> t.bits == bits,
    {
        if bits & FFSTATUS_ALL == bits {
            Some(FFStatus { bits: bits })
        } else {
            None
        }
    }

    pub fn bits(&self) -> (r: u32)
        ensures
            r == self.bits,
    {
        self.bits
    }

    pub fn contains(&self, flag: u32) -> (r: bool)
        ensures
            r == (self.bits & flag == flag),
    {
        self.bits & flag == flag
    }
}

// Key-repeat configuration bits.
pub const REP_DELAY: u32 = 1u32 << 0x00;
pub const REP_PERIOD: u32 = 1u32 << 0x01;

/// Every repeat bit the library knows.
pub const REPEAT_ALL: u32 = REP_DELAY | REP_PERIOD;

/// Key-repeat configuration a device supports.
#[derive(Clone, Copy, Debug, PartialEq, Eq, Structural)]
pub struct Repeat {
    pub bits: u32,
}

impl Repeat {
    pub fn empty() -> (r: Repeat)
        ensures
            r.bits == 0,
    {
        Repeat { bits: 0 }
    }

    /// Accepts exactly the masks whose bits all lie in the known table.
    pub fn from_bits(bits: u32) -> (r: Option<Repeat>)
        ensures
            r is Some <==> bits & REPEAT_ALL == bits,
            r matches Some(t) ==> t.bits == bits,
    {
        if bits & REPEAT_ALL == bits {
            Some(Repeat { bits: bits })
        } else {
            None
        }
    }

    pub fn bits(&self) -> (r: u32)
        ensures
            r == self.bits,
    {
        self.bits
    }

    pub fn contains(&self, flag: u32) -> (r: bool)
        ensures
            r == (self.bits & flag == flag),
    {
        self.bits & flag == flag
    }
}

// Sound sub-codes, as mask bits.
pub const SND_CLICK: u32 = 1u32 << 0x00;
pub const SND_BELL: u32 = 1u32 << 0x01;
pub const SND_TONE: u32 = 1u32 << 0x02;

/// Every sound bit the library knows.
pub const SOUND_ALL: u32 = SND_CLICK | SND_BELL | SND_TONE;

/// Sounds a device can make.
#[derive(Clone, Copy, Debug, PartialEq, Eq, Structural)]
pub struct Sound {
    pub bits: u32,
}

impl Sound {
    pub fn empty() -> (r: Sound)
        ensures
            r.bits == 0,
    {
        Sound { bits: 0 }
    }

    /// Accepts exactly the masks whose bits all lie in the known table.
    pub fn from_bits(bits: u32) -> (r: Option<Sound>)
        ensures
            r is Some <==> bits & SOUND_ALL == bits,
            r matches Some(t) ==> t.bits == bits,
    {
        if bits & SOUND_ALL == bits {
            Some(Sound { bits: bits })
        } else {
            None
        }
    }

    pub fn bits(&self) -> (r: u32)
        ensures
            r == self.bits,
    {
        self.bits
    }

    pub fn contains(&self, flag: u32) -> (r: bool)
        ensures
            r == (self.bits & flag == flag),
    {
        self.bits & flag == flag
    }
}

/// Force-feedback effect kinds.
#[derive(Clone, Copy, Debug, PartialEq, Eq, Structural)]
pub enum FFEffect {
    FF_RUMBLE,
    FF_PERIODIC,
    FF_CONSTANT,
    FF_SPRING,
    FF_FRICTION,
    FF_DAMPER,
    FF_INERTIA,
    FF_RAMP,
    FF_SQUARE,
    FF_TRIANGLE,
    FF_SINE,
    FF_SAW_UP,
    FF_SAW_DOWN,
    FF_CUSTOM,
    FF_GAIN,
    FF_AUTOCENTER,
    FF_MAX,
}

impl FFEffect {
    /// The sub-code carried by a record of this kind.
    pub fn code(&self) -> (r: u16)
        ensures
            r == self.spec_code(),
    {
        match self {
            FFEffect::FF_RUMBLE => 0x50,
            FFEffect::FF_PERIODIC => 0x51,
            FFEffect::FF_CONSTANT => 0x52,
            FFEffect::FF_SPRING => 0x53,
            FFEffect::FF_FRICTION => 0x54,
            FFEffect::FF_DAMPER => 0x55,
            FFEffect::FF_INERTIA => 0x56,
            FFEffect::FF_RAMP => 0x57,
            FFEffect::FF_SQUARE => 0x58,
            FFEffect::FF_TRIANGLE => 0x59,
            FFEffect::FF_SINE => 0x5a,
            FFEffect::FF_SAW_UP => 0x5b,
            FFEffect::FF_SAW_DOWN => 0x5c,
            FFEffect::FF_CUSTOM => 0x5d,
            FFEffect::FF_GAIN => 0x60,
            FFEffect::FF_AUTOCENTER => 0x61,
            FFEffect::FF_MAX => 0x7f,
        }
    }

    /// The sub-code of each force-feedback effect kind.
    pub open spec fn spec_code(&self) -> u16 {
        match self {
            FFEffect::FF_RUMBLE => 0x50,
            FFEffect::FF_PERIODIC => 0x51,
            FFEffect::FF_CONSTANT => 0x52,
            FFEffect::FF_SPRING => 0x53,
            FFEffect::FF_FRICTION => 0x54,
            FFEffect::FF_DAMPER => 0x55,
            FFEffect::FF_INERTIA => 0x56,
            FFEffect::FF_RAMP => 0x57,
            FFEffect::FF_SQUARE => 0x58,
            FFEffect::FF_TRIANGLE => 0x59,
            FFEffect::FF_SINE => 0x5a,
            FFEffect::FF_SAW_UP => 0x5b,
            FFEffect::FF_SAW_DOWN => 0x5c,
            FFEffect::FF_CUSTOM => 0x5d,
            FFEffect::FF_GAIN => 0x60,
            FFEffect::FF_AUTOCENTER => 0x61,
            FFEffect::FF_MAX => 0x7f,
        }
    }
}

} // verus!
