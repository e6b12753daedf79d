//! The feature-report codec: field codecs for the single-byte settings,
//! the lighting-effect codec over its 78-byte window, and the aggregate
//! that owns a full report buffer.
//!
//! All offsets are fixed by the device firmware. Speed and brightness are
//! bit-packed into shared bytes through the disjoint masks 0x03 and 0x70,
//! so each enum's byte value is chosen to be mask-compatible and packed
//! fields are produced by bitwise OR.

use vstd::prelude::*;
use vstd::slice::{slice_subrange, slice_to_vec};

verus! {

broadcast use vstd::array::group_array_axioms;

/// Direction of travel for the `GloriousMode` wave effect.
#[derive(Copy, Clone, PartialEq, Eq, Debug)]
pub enum LightingDirection {
    Down,
    Up,
}

/// Byte stored in the report for a direction.
pub open spec fn spec_direction_byte(d: LightingDirection) -> u8 {
    match d {
        LightingDirection::Down => 0x00,
        LightingDirection::Up => 0x01,
    }
}

/// Direction read back from a report byte: zero is down, anything else up.
pub open spec fn spec_direction_from_byte(b: u8) -> LightingDirection {
    if b == 0x00 {
        LightingDirection::Down
    } else {
        LightingDirection::Up
    }
}

impl LightingDirection {
    /// The byte this direction is stored as.
    pub fn byte_value(&self) -> (r: u8)
        ensures
            r == spec_direction_byte(*self),
    {
        match self {
            LightingDirection::Down => 0x00,
            LightingDirection::Up => 0x01,
        }
    }
}

/// Animation speed of a lighting effect. Stored in the low two bits of a
/// byte (mask 0x03).
#[derive(Copy, Clone, PartialEq, Eq, Debug)]
pub enum EffectSpeed {
    Low,
    Medium,
    High,
}

/// Byte value of a speed; always fits the 0x03 mask.
pub open spec fn spec_speed_byte(s: EffectSpeed) -> u8 {
    match s {
        EffectSpeed::Low => 0x01,
        EffectSpeed::Medium => 0x02,
        EffectSpeed::High => 0x03,
    }
}

/// Speed read back from a byte: mask with 0x03; the reserved masked value
/// zero falls back to `High` rather than failing.
pub open spec fn spec_speed_from_byte(b: u8) -> EffectSpeed {
    if b & 0x03 == 0x01 {
        EffectSpeed::Low
    } else if b & 0x03 == 0x02 {
        EffectSpeed::Medium
    } else {
        EffectSpeed::High
    }
}

impl EffectSpeed {
    /// Decode a speed from a report byte, defaulting out-of-range values
    /// to `High`.
    pub fn from_u8(value: u8) -> (r: Self)
        ensures
            r == spec_speed_from_byte(value),
    {
        let masked: u8 = value & 0x03;
        match masked {
            0x01 => EffectSpeed::Low,
            0x02 => EffectSpeed::Medium,
            _ => EffectSpeed::High,
        }
    }

    /// The byte this speed is stored as.
    pub fn byte_value(&self) -> (r: u8)
        ensures
            r == spec_speed_byte(*self),
    {
        match self {
            EffectSpeed::Low => 0x01,
            EffectSpeed::Medium => 0x02,
            EffectSpeed::High => 0x03,
        }
    }
}

/// Brightness of a lighting effect. Stored in bits 4..6 of a byte
/// (mask 0x70).
#[derive(Copy, Clone, PartialEq, Eq, Debug)]
pub enum EffectBrightness {
    Low,
    Medium,
    High,
    Highest,
}

/// Byte value of a brightness; always fits the 0x70 mask.
pub open spec fn spec_brightness_byte(b: EffectBrightness) -> u8 {
    match b {
        EffectBrightness::Low => 0x10,
        EffectBrightness::Medium => 0x20,
        EffectBrightness::High => 0x30,
        EffectBrightness::Highest => 0x40,
    }
}

/// Brightness read back from a byte: mask with 0x70; reserved masked
/// values fall back to `Highest`.
pub open spec fn spec_brightness_from_byte(b: u8) -> EffectBrightness {
    if b & 0x70 == 0x10 {
        EffectBrightness::Low
    } else if b & 0x70 == 0x20 {
        EffectBrightness::Medium
    } else if b & 0x70 == 0x30 {
        EffectBrightness::High
    } else {
        EffectBrightness::Highest
    }
}

impl EffectBrightness {
    /// Decode a brightness from a report byte, defaulting out-of-range
    /// values to `Highest`.
    pub fn from_u8(value: u8) -> (r: Self)
        ensures
            r == spec_brightness_from_byte(value),
    {
        let masked: u8 = value & 0x70;
        match masked {
            0x10 => EffectBrightness::Low,
            0x20 => EffectBrightness::Medium,
            0x30 => EffectBrightness::High,
            _ => EffectBrightness::Highest,
        }
    }

    /// The byte this brightness is stored as.
    pub fn byte_value(&self) -> (r: u8)
        ensures
            r == spec_brightness_byte(*self),
    {
        match self {
            EffectBrightness::Low => 0x10,
            EffectBrightness::Medium => 0x20,
            EffectBrightness::High => 0x30,
            EffectBrightness::Highest => 0x40,
        }
    }
}

/// An 8-bit-per-channel color. The device stores colors in red, blue,
/// green order; the codec below performs that permutation in both
/// directions.
#[derive(Copy, Clone, PartialEq, Eq, Debug)]
pub struct RGBColor {
    pub red: u8,
    pub green: u8,
    pub blue: u8,
}

/// Color read from a red-blue-green byte sequence; a missing channel
/// (sequence too short) reads as zero rather than failing.
pub open spec fn spec_color_decode(s: Seq<u8>) -> RGBColor {
    RGBColor {
        red: if s.len() > 0 { s[0] } else { 0 },
        green: if s.len() > 2 { s[2] } else { 0 },
        blue: if s.len() > 1 { s[1] } else { 0 },
    }
}

/// The three bytes a color is stored as: red, blue, green.
pub open spec fn spec_color_encode(c: RGBColor) -> Seq<u8> {
    seq![c.red, c.blue, c.green]
}

impl RGBColor {
    /// Decode a color from a red-blue-green byte slice, substituting zero
    /// for any channel the slice is too short to hold.
    pub fn from_rbg_buffer(buffer: &[u8]) -> (r: Self)
        ensures
            r == spec_color_decode(buffer@),
    {
        let red: u8 = if buffer.len() > 0 { buffer[0] } else { 0 };
        let green: u8 = if buffer.len() > 2 { buffer[2] } else { 0 };
        let blue: u8 = if buffer.len() > 1 { buffer[1] } else { 0 };
        RGBColor { red, green, blue }
    }

    /// Encode the color into its red-blue-green storage order.
    pub fn to_rbg_buffer(&self) -> (r: [u8; 3])
        ensures
            r@ == spec_color_encode(*self),
    {
        [self.red, self.blue, self.green]
    }
}

/// Decoding an encoded color restores it exactly: the intermediate three
/// bytes are a permutation of the channels, not the identity, but the two
/// permutations cancel.
pub proof fn lemma_color_round_trip(c: RGBColor)
    ensures
        spec_color_decode(spec_color_encode(c)) == c,
{
}

/// A speed's byte value decodes back to the same speed.
pub proof fn lemma_speed_round_trip(s: EffectSpeed)
    ensures
        spec_speed_from_byte(spec_speed_byte(s)) == s,
{
    assert(0x01u8 & 0x03 == 0x01 && 0x02u8 & 0x03 == 0x02 && 0x03u8 & 0x03 == 0x03)
        by (bit_vector);
}

/// A brightness's byte value decodes back to the same brightness.
pub proof fn lemma_brightness_round_trip(b: EffectBrightness)
    ensures
        spec_brightness_from_byte(spec_brightness_byte(b)) == b,
{
    assert(0x10u8 & 0x70 == 0x10 && 0x20u8 & 0x70 == 0x20 && 0x30u8 & 0x70 == 0x30 && 0x40u8
        & 0x70 == 0x40) by (bit_vector);
}

/// Brightness and speed packed into one byte by bitwise OR decode back
/// to the same pair: their masks (0x70 and 0x03) are disjoint.
pub proof fn lemma_packed_field_round_trip(b: EffectBrightness, s: EffectSpeed)
    ensures
        spec_speed_from_byte(spec_brightness_byte(b) | spec_speed_byte(s)) == s,
        spec_brightness_from_byte(spec_brightness_byte(b) | spec_speed_byte(s)) == b,
{
    let bb = spec_brightness_byte(b);
    let sb = spec_speed_byte(s);
    assert((bb | sb) & 0x03 == sb && (bb | sb) & 0x70 == bb) by (bit_vector)
        requires
            (bb == 0x10 || bb == 0x20 || bb == 0x30 || bb == 0x40) && (sb == 0x01 || sb == 0x02
                || sb == 0x03),
    ;
}

/// Absolute offset of the polling-rate byte in the report.
pub const POLLING_RATE_OFFSET: usize = 10;

/// Absolute offset of the lift-off-distance byte in the report.
pub const LIFT_OFF_OFFSET: usize = 129;

/// Absolute offset where the lighting window starts in the report.
pub const LIGHTING_OFFSET: usize = 53;

/// Length of the lighting-effect window.
pub const LIGHTING_WINDOW_LEN: usize = 78;

/// Minimum length of a report buffer accepted on construction.
pub const REPORT_MIN_LEN: usize = 131;

/// Exact length of the buffer handed to the device on a write.
pub const REPORT_OUT_LEN: usize = 520;

/// Sensor lift-off distance: `Low` is 2 mm, `High` is 3 mm.
#[derive(Copy, Clone, PartialEq, Eq, Debug)]
pub enum LiftOffDistance {
    Low,
    High,
}

/// Byte stored at offset 129 for a lift-off distance.
pub open spec fn spec_lift_off_byte(d: LiftOffDistance) -> u8 {
    match d {
        LiftOffDistance::Low => 0x01,
        LiftOffDistance::High => 0x02,
    }
}

/// Lift-off distance read back from its byte: exactly 0x02 is `High`,
/// anything else is `Low`.
pub open spec fn spec_lift_off_from_byte(b: u8) -> LiftOffDistance {
    if b == 0x02 {
        LiftOffDistance::High
    } else {
        LiftOffDistance::Low
    }
}

impl LiftOffDistance {
    /// The 2 mm setting.
    pub fn new_2mm() -> (r: Self)
        ensures
            r == LiftOffDistance::Low,
    {
        LiftOffDistance::Low
    }

    /// The 3 mm setting.
    pub fn new_3mm() -> (r: Self)
        ensures
            r == LiftOffDistance::High,
    {
        LiftOffDistance::High
    }

    /// Decode the lift-off distance from a full report buffer.
    pub fn from_buffer(buffer: &[u8]) -> (r: Self)
        requires
            buffer@.len() > LIFT_OFF_OFFSET,
        ensures
            r == spec_lift_off_from_byte(buffer@[LIFT_OFF_OFFSET as int]),
    {
        match buffer[LIFT_OFF_OFFSET] {
            0x02 => LiftOffDistance::High,
            _ => LiftOffDistance::Low,
        }
    }

    /// Write the lift-off distance byte into a full report buffer.
    pub fn set_in_buffer(&self, buffer: &mut [u8])
        requires
            old(buffer)@.len() > LIFT_OFF_OFFSET,
        ensures
            final(buffer)@ == old(buffer)@.update(
                LIFT_OFF_OFFSET as int,
                spec_lift_off_byte(*self),
            ),
    {
        buffer[LIFT_OFF_OFFSET] = self.byte_value();
    }

    /// The byte this lift-off distance is stored as.
    pub fn byte_value(&self) -> (r: u8)
        ensures
            r == spec_lift_off_byte(*self),
    {
        match self {
            LiftOffDistance::Low => 0x01,
            LiftOffDistance::High => 0x02,
        }
    }
}

/// USB polling rate: `Low` is 125 Hz, `Medium` 250 Hz, `High` 500 Hz,
/// `Highest` 1000 Hz.
#[derive(Copy, Clone, PartialEq, Eq, Debug)]
pub enum PollingRate {
    Low,
    Medium,
    High,
    Highest,
}

/// Byte stored at offset 10 for a polling rate.
pub open spec fn spec_polling_rate_byte(p: PollingRate) -> u8 {
    match p {
        PollingRate::Low => 0x01,
        PollingRate::Medium => 0x02,
        PollingRate::High => 0x03,
        PollingRate::Highest => 0x04,
    }
}

/// Polling rate read back from its byte: exact match on 0x02..0x04,
/// anything else is `Low`.
pub open spec fn spec_polling_rate_from_byte(b: u8) -> PollingRate {
    if b == 0x04 {
        PollingRate::Highest
    } else if b == 0x03 {
        PollingRate::High
    } else if b == 0x02 {
        PollingRate::Medium
    } else {
        PollingRate::Low
    }
}

impl PollingRate {
    /// The 125 Hz setting.
    pub fn new_125_hz() -> (r: Self)
        ensures
            r == PollingRate::Low,
    {
        PollingRate::Low
    }

    /// The 250 Hz setting.
    pub fn new_250_hz() -> (r: Self)
        ensures
            r == PollingRate::Medium,
    {
        PollingRate::Medium
    }

    /// The 500 Hz setting.
    pub fn new_500_hz() -> (r: Self)
        ensures
            r == PollingRate::High,
    {
        PollingRate::High
    }

    /// The 1000 Hz setting.
    pub fn new_1000_hz() -> (r: Self)
        ensures
            r == PollingRate::Highest,
    {
        PollingRate::Highest
    }

    /// Decode the polling rate from a full report buffer.
    pub fn from_buffer(buffer: &[u8]) -> (r: Self)
        requires
            buffer@.len() > POLLING_RATE_OFFSET,
        ensures
            r == spec_polling_rate_from_byte(buffer@[POLLING_RATE_OFFSET as int]),
    {
        match buffer[POLLING_RATE_OFFSET] {
            0x04 => PollingRate::Highest,
            0x03 => PollingRate::High,
            0x02 => PollingRate::Medium,
            _ => PollingRate::Low,
        }
    }

    /// Write the polling-rate byte into a full report buffer.
    pub fn set_in_buffer(&self, buffer: &mut [u8])
        requires
            old(buffer)@.len() > POLLING_RATE_OFFSET,
        ensures
            final(buffer)@ == old(buffer)@.update(
                POLLING_RATE_OFFSET as int,
                spec_polling_rate_byte(*self),
            ),
    {
        buffer[POLLING_RATE_OFFSET] = self.byte_value();
    }

    /// The byte this polling rate is stored as.
    pub fn byte_value(&self) -> (r: u8)
        ensures
            r == spec_polling_rate_byte(*self),
    {
        match self {
            PollingRate::Low => 0x01,
            PollingRate::Medium => 0x02,
            PollingRate::High => 0x03,
            PollingRate::Highest => 0x04,
        }
    }
}

/// The RGB lighting effect, one variant per tag byte the firmware knows.
/// Tags 0x06 and 0x08 are reserved by the firmware and decode to
/// `Unknown`, as does any other unrecognized tag.
#[derive(Copy, Clone, PartialEq, Eq, Debug)]
pub enum LightingEffect {
    Unknown,
    Off,
    GloriousMode { speed: EffectSpeed, direction: LightingDirection },
    Breathing { speed: EffectSpeed, colors: [RGBColor; 7] },
    SeamlessBreathingRGB { speed: EffectSpeed },
    SingleColor { color: RGBColor, brightness: EffectBrightness },
    BreathingSingleColor { color: RGBColor, speed: EffectSpeed },
    Tail { brightness: EffectBrightness, speed: EffectSpeed },
    Rave { colors: [RGBColor; 2], speed: EffectSpeed, brightness: EffectBrightness },
    Wave { speed: EffectSpeed, brightness: EffectBrightness },
}

/// The color whose red-blue-green bytes sit at window offsets
/// `p`, `p + 1`, `p + 2`.
pub open spec fn spec_color_at(w: Seq<u8>, p: int) -> RGBColor {
    RGBColor { red: w[p], green: w[p + 2], blue: w[p + 1] }
}

/// The lighting effect described by a 78-byte window. A window shorter
/// than 78 bytes, or an unrecognized tag byte, decodes to `Unknown`.
pub open spec fn spec_effect_decode(w: Seq<u8>) -> LightingEffect {
    if w.len() < LIGHTING_WINDOW_LEN {
        LightingEffect::Unknown
    } else {
        match w[0] {
            0x00 => LightingEffect::Off,
            0x01 => LightingEffect::GloriousMode {
                speed: spec_speed_from_byte(w[1]),
                direction: spec_direction_from_byte(w[2]),
            },
            0x02 => LightingEffect::SingleColor {
                color: spec_color_at(w, 4),
                brightness: spec_brightness_from_byte(w[3]),
            },
            0x03 => LightingEffect::Breathing {
                speed: spec_speed_from_byte(w[7]),
                colors: [
                    spec_color_at(w, 9),
                    spec_color_at(w, 12),
                    spec_color_at(w, 15),
                    spec_color_at(w, 18),
                    spec_color_at(w, 21),
                    spec_color_at(w, 24),
                    spec_color_at(w, 27),
                ],
            },
            0x04 => LightingEffect::Tail {
                brightness: spec_brightness_from_byte(w[30]),
                speed: spec_speed_from_byte(w[30]),
            },
            0x05 => LightingEffect::SeamlessBreathingRGB { speed: spec_speed_from_byte(w[31]) },
            0x07 => LightingEffect::Rave {
                colors: [spec_color_at(w, 64), spec_color_at(w, 67)],
                speed: spec_speed_from_byte(w[63]),
                brightness: spec_brightness_from_byte(w[63]),
            },
            0x09 => LightingEffect::Wave {
                speed: spec_speed_from_byte(w[71]),
                brightness: spec_brightness_from_byte(w[71]),
            },
            0x0A => LightingEffect::BreathingSingleColor {
                color: spec_color_at(w, 73),
                speed: spec_speed_from_byte(w[72]),
            },
            _ => LightingEffect::Unknown,
        }
    }
}

/// The tag byte each effect is written with. `Unknown` is written back
/// as tag 0x00, the same as `Off`.
pub open spec fn spec_effect_tag(e: LightingEffect) -> u8 {
    match e {
        LightingEffect::Unknown => 0x00,
        LightingEffect::Off => 0x00,
        LightingEffect::GloriousMode { .. } => 0x01,
        LightingEffect::Breathing { .. } => 0x03,
        LightingEffect::SeamlessBreathingRGB { .. } => 0x05,
        LightingEffect::SingleColor { .. } => 0x02,
        LightingEffect::BreathingSingleColor { .. } => 0x0A,
        LightingEffect::Tail { .. } => 0x04,
        LightingEffect::Rave { .. } => 0x07,
        LightingEffect::Wave { .. } => 0x09,
    }
}

/// The trailing sentinel at window offset 77: 0x03 exactly when the
/// lighting is fully off, 0x00 for every other effect.
pub open spec fn spec_sentinel_byte(e: LightingEffect) -> u8 {
    if e is Off {
        0x03
    } else {
        0x00
    }
}

/// A window with one color written at offsets `p`, `p + 1`, `p + 2` in
/// red-blue-green order.
pub open spec fn spec_write_color(w: Seq<u8>, p: int, c: RGBColor) -> Seq<u8> {
    w.update(p, c.red).update(p + 1, c.blue).update(p + 2, c.green)
}

/// The variant-specific field bytes of an effect written over a window.
/// Only the offsets belonging to the variant's own layout change.
pub open spec fn spec_effect_fields(e: LightingEffect, w: Seq<u8>) -> Seq<u8> {
    match e {
        LightingEffect::Unknown => w,
        LightingEffect::Off => w,
        LightingEffect::GloriousMode { speed, direction } => w.update(
            1,
            spec_brightness_byte(EffectBrightness::Highest) | spec_speed_byte(speed),
        ).update(2, spec_direction_byte(direction)),
        LightingEffect::Breathing { speed, colors } => {
            let w1 = w.update(7, spec_speed_byte(speed));
            let w2 = spec_write_color(w1, 9, colors@[0]);
            let w3 = spec_write_color(w2, 12, colors@[1]);
            let w4 = spec_write_color(w3, 15, colors@[2]);
            let w5 = spec_write_color(w4, 18, colors@[3]);
            let w6 = spec_write_color(w5, 21, colors@[4]);
            let w7 = spec_write_color(w6, 24, colors@[5]);
            spec_write_color(w7, 27, colors@[6])
        },
        LightingEffect::SeamlessBreathingRGB { speed } => w.update(31, spec_speed_byte(speed)),
        LightingEffect::SingleColor { color, brightness } => spec_write_color(
            w.update(3, spec_brightness_byte(brightness)),
            4,
            color,
        ),
        LightingEffect::BreathingSingleColor { color, speed } => spec_write_color(
            w.update(72, spec_speed_byte(speed)),
            73,
            color,
        ),
        LightingEffect::Tail { brightness, speed } => w.update(
            30,
            spec_brightness_byte(brightness) | spec_speed_byte(speed),
        ),
        LightingEffect::Rave { colors, speed, brightness } => {
            let w1 = w.update(63, spec_brightness_byte(brightness) | spec_speed_byte(speed));
            let w2 = spec_write_color(w1, 64, colors@[0]);
            spec_write_color(w2, 67, colors@[1])
        },
        LightingEffect::Wave { speed, brightness } => w.update(
            71,
            spec_brightness_byte(brightness) | spec_speed_byte(speed),
        ),
    }
}

/// A window after an effect is encoded into it: the tag byte, the
/// variant's own fields, and the sentinel byte; nothing else changes.
pub open spec fn spec_effect_encode(e: LightingEffect, w: Seq<u8>) -> Seq<u8> {
    spec_effect_fields(e, w.update(0, spec_effect_tag(e))).update(77, spec_sentinel_byte(e))
}

/// One 3-byte chunk of a color strip, decoded; a chunk the strip is too
/// short to complete decodes to black.
pub open spec fn spec_color_chunk(s: Seq<u8>, i: int) -> RGBColor {
    if 3 * i + 3 <= s.len() {
        spec_color_decode(s.subrange(3 * i, 3 * i + 3))
    } else {
        RGBColor { red: 0, green: 0, blue: 0 }
    }
}

/// Chunk `i` of the strip `w[lo..hi]`, when fully inside the strip, is
/// the color stored at absolute offset `lo + 3 * i`.
proof fn lemma_color_chunk_at(w: Seq<u8>, lo: int, hi: int, i: int)
    requires
        0 <= lo <= hi <= w.len(),
        0 <= i,
        lo + 3 * i + 3 <= hi,
    ensures
        spec_color_chunk(w.subrange(lo, hi), i) == spec_color_at(w, lo + 3 * i),
{
    assert(w.subrange(lo, hi).subrange(3 * i, 3 * i + 3) =~= w.subrange(
        lo + 3 * i,
        lo + 3 * i + 3,
    ));
}

/// Write one color's three bytes at `p`, `p + 1`, `p + 2`.
fn write_color(buffer: &mut [u8], p: usize, c: RGBColor)
    requires
        p + 3 <= old(buffer)@.len(),
    ensures
        final(buffer)@ == spec_write_color(old(buffer)@, p as int, c),
{
    buffer[p] = c.red;
    buffer[p + 1] = c.blue;
    buffer[p + 2] = c.green;
}

impl LightingEffect {
    /// Decode the effect from a lighting window (the report's bytes from
    /// offset 53 on). A window shorter than 78 bytes yields `Unknown`.
    pub fn from_buffer(buffer: &[u8]) -> (r: Self)
        ensures
            r == spec_effect_decode(buffer@),
    {
        if buffer.len() < LIGHTING_WINDOW_LEN {
            return LightingEffect::Unknown;
        }
        match buffer[0] {
            0x00 => LightingEffect::Off,
            0x01 => LightingEffect::GloriousMode {
                speed: EffectSpeed::from_u8(buffer[1]),
                direction: match buffer[2] {
                    0x00 => LightingDirection::Down,
                    _ => LightingDirection::Up,
                },
            },
            0x02 => LightingEffect::SingleColor {
                color: RGBColor::from_rbg_buffer(slice_subrange(buffer, 4, 7)),
                brightness: EffectBrightness::from_u8(buffer[3]),
            },
            0x03 => {
                let colors = Self::rgbcolor_buffer_to_sized_array::<7>(
                    slice_subrange(buffer, 9, 30),
                );
                proof {
                    lemma_color_chunk_at(buffer@, 9, 30, 0);
                    lemma_color_chunk_at(buffer@, 9, 30, 1);
                    lemma_color_chunk_at(buffer@, 9, 30, 2);
                    lemma_color_chunk_at(buffer@, 9, 30, 3);
                    lemma_color_chunk_at(buffer@, 9, 30, 4);
                    lemma_color_chunk_at(buffer@, 9, 30, 5);
                    lemma_color_chunk_at(buffer@, 9, 30, 6);
                    assert(colors =~= [
                        spec_color_at(buffer@, 9),
                        spec_color_at(buffer@, 12),
                        spec_color_at(buffer@, 15),
                        spec_color_at(buffer@, 18),
                        spec_color_at(buffer@, 21),
                        spec_color_at(buffer@, 24),
                        spec_color_at(buffer@, 27),
                    ]);
                }
                LightingEffect::Breathing { speed: EffectSpeed::from_u8(buffer[7]), colors }
            },
            0x04 => LightingEffect::Tail {
                brightness: EffectBrightness::from_u8(buffer[30]),
                speed: EffectSpeed::from_u8(buffer[30]),
            },
            0x05 => LightingEffect::SeamlessBreathingRGB {
                speed: EffectSpeed::from_u8(buffer[31]),
            },
            0x07 => {
                let colors = Self::rgbcolor_buffer_to_sized_array::<2>(
                    slice_subrange(buffer, 64, 70),
                );
                proof {
                    lemma_color_chunk_at(buffer@, 64, 70, 0);
                    lemma_color_chunk_at(buffer@, 64, 70, 1);
                    assert(colors =~= [spec_color_at(buffer@, 64), spec_color_at(buffer@, 67)]);
                }
                LightingEffect::Rave {
                    colors,
                    speed: EffectSpeed::from_u8(buffer[63]),
                    brightness: EffectBrightness::from_u8(buffer[63]),
                }
            },
            0x09 => LightingEffect::Wave {
                speed: EffectSpeed::from_u8(buffer[71]),
                brightness: EffectBrightness::from_u8(buffer[71]),
            },
            0x0A => LightingEffect::BreathingSingleColor {
                color: RGBColor::from_rbg_buffer(slice_subrange(buffer, 73, 76)),
                speed: EffectSpeed::from_u8(buffer[72]),
            },
            _ => LightingEffect::Unknown,
        }
    }

    /// Encode the effect into a lighting window. A window shorter than
    /// 78 bytes is reported as failure and left untouched; otherwise the
    /// tag, the variant's fields and the sentinel are written.
    pub fn set_in_buffer(&self, buffer: &mut [u8]) -> (r: bool)
        ensures
            old(buffer)@.len() < LIGHTING_WINDOW_LEN ==> r == false && final(buffer)@ == old(
                buffer,
            )@,
            old(buffer)@.len() >= LIGHTING_WINDOW_LEN ==> r == true && final(buffer)@
                == spec_effect_encode(*self, old(buffer)@),
    {
        if buffer.len() < LIGHTING_WINDOW_LEN {
            return false;
        }
        match self {
            LightingEffect::Off | LightingEffect::Unknown => {
                buffer[0] = 0x00;
            },
            LightingEffect::GloriousMode { speed, direction } => {
                buffer[0] = 0x01;
                // The device has no independent brightness for this mode:
                // the brightness half of the byte is forced to Highest.
                buffer[1] = EffectBrightness::Highest.byte_value() | speed.byte_value();
                buffer[2] = direction.byte_value();
            },
            LightingEffect::Breathing { speed, colors } => {
                buffer[0] = 0x03;
                buffer[7] = speed.byte_value();
                write_color(buffer, 9, colors[0]);
                write_color(buffer, 12, colors[1]);
                write_color(buffer, 15, colors[2]);
                write_color(buffer, 18, colors[3]);
                write_color(buffer, 21, colors[4]);
                write_color(buffer, 24, colors[5]);
                write_color(buffer, 27, colors[6]);
            },
            LightingEffect::SeamlessBreathingRGB { speed } => {
                buffer[0] = 0x05;
                buffer[31] = speed.byte_value();
            },
            LightingEffect::SingleColor { color, brightness } => {
                buffer[0] = 0x02;
                buffer[3] = brightness.byte_value();
                write_color(buffer, 4, *color);
            },
            LightingEffect::BreathingSingleColor { color, speed } => {
                buffer[0] = 0x0A;
                buffer[72] = speed.byte_value();
                write_color(buffer, 73, *color);
            },
            LightingEffect::Tail { brightness, speed } => {
                buffer[0] = 0x04;
                buffer[30] = brightness.byte_value() | speed.byte_value();
            },
            LightingEffect::Rave { colors, speed, brightness } => {
                buffer[0] = 0x07;
                buffer[63] = brightness.byte_value() | speed.byte_value();
                write_color(buffer, 64, colors[0]);
                write_color(buffer, 67, colors[1]);
            },
            LightingEffect::Wave { speed, brightness } => {
                buffer[0] = 0x09;
                buffer[71] = brightness.byte_value() | speed.byte_value();
            },
        }
        match self {
            LightingEffect::Off => {
                buffer[77] = 0x03;
            },
            _ => {
                buffer[77] = 0x00;
            },
        }
        true
    }

    /// Decode a byte strip into a fixed number of colors, 3 bytes per
    /// color; entries the strip is too short to fill stay black, and
    /// bytes beyond the last full chunk are ignored.
    pub fn rgbcolor_buffer_to_sized_array<const ARRAY_SIZE: usize>(buffer: &[u8]) -> (r: [
        RGBColor;
        ARRAY_SIZE
    ])
        ensures
            forall|i: int| 0 <= i < ARRAY_SIZE ==> r@[i] == spec_color_chunk(buffer@, i),
    {
        let mut color_array: [RGBColor; ARRAY_SIZE] = [
            RGBColor { red: 0, green: 0, blue: 0 };
            ARRAY_SIZE
        ];
        let mut index: usize = 0;
        let mut start: usize = 0;
        while index < ARRAY_SIZE && buffer.len() >= 3 && start <= buffer.len() - 3
            invariant
                index <= ARRAY_SIZE,
                start == 3 * index,
                forall|j: int| 0 <= j < index ==> color_array@[j] == spec_color_chunk(buffer@, j),
                forall|j: int|
                    index <= j < ARRAY_SIZE ==> color_array@[j] == (RGBColor {
                        red: 0,
                        green: 0,
                        blue: 0,
                    }),
            decreases ARRAY_SIZE - index,
        {
            color_array[index] = RGBColor::from_rbg_buffer(
                slice_subrange(buffer, start, start + 3),
            );
            index = index + 1;
            start = start + 3;
        }
        proof {
            assert forall|j: int| index <= j < ARRAY_SIZE implies spec_color_chunk(buffer@, j)
                == (RGBColor { red: 0, green: 0, blue: 0 }) by {
                assert(3 * j + 3 > buffer@.len());
            }
        }
        color_array
    }

    /// Flatten a strip of colors into their red-blue-green bytes, three
    /// per color, in order.
    pub fn rgbcolor_sized_array_to_rbg_buffer(colors: &[RGBColor]) -> (r: Vec<u8>)
        ensures
            r@ == spec_colors_encode(colors@),
    {
        let mut out: Vec<u8> = Vec::new();
        let mut index: usize = 0;
        while index < colors.len()
            invariant
                index <= colors@.len(),
                out@ == spec_colors_encode(colors@.take(index as int)),
            decreases colors@.len() - index,
        {
            let c = colors[index];
            out.push(c.red);
            out.push(c.blue);
            out.push(c.green);
            proof {
                assert(colors@.take(index + 1).drop_last() =~= colors@.take(index as int));
                assert(out@ =~= spec_colors_encode(colors@.take(index + 1)));
            }
            index = index + 1;
        }
        proof {
            assert(colors@.take(colors@.len() as int) =~= colors@);
        }
        out
    }
}

/// The byte strip a sequence of colors flattens to: three bytes per
/// color in red-blue-green order.
pub open spec fn spec_colors_encode(cs: Seq<RGBColor>) -> Seq<u8>
    decreases cs.len(),
{
    if cs.len() == 0 {
        Seq::empty()
    } else {
        spec_colors_encode(cs.drop_last()) + spec_color_encode(cs.last())
    }
}

/// Encoding any effect into a window and decoding the window back
/// restores the effect field for field. The one exception is `Unknown`,
/// which is written back with tag 0x00 and therefore reads back as
/// `Off`.
pub proof fn lemma_effect_round_trip(e: LightingEffect, w: Seq<u8>)
    requires
        w.len() >= LIGHTING_WINDOW_LEN,
    ensures
        spec_effect_decode(spec_effect_encode(e, w)) == (if e is Unknown {
            LightingEffect::Off
        } else {
            e
        }),
{
    let enc = spec_effect_encode(e, w);
    match e {
        LightingEffect::Unknown => {},
        LightingEffect::Off => {},
        LightingEffect::GloriousMode { speed, direction } => {
            lemma_packed_field_round_trip(EffectBrightness::Highest, speed);
        },
        LightingEffect::Breathing { speed, colors } => {
            lemma_speed_round_trip(speed);
            assert([
                spec_color_at(enc, 9),
                spec_color_at(enc, 12),
                spec_color_at(enc, 15),
                spec_color_at(enc, 18),
                spec_color_at(enc, 21),
                spec_color_at(enc, 24),
                spec_color_at(enc, 27),
            ] =~= colors);
        },
        LightingEffect::SeamlessBreathingRGB { speed } => {
            lemma_speed_round_trip(speed);
        },
        LightingEffect::SingleColor { color, brightness } => {
            lemma_brightness_round_trip(brightness);
        },
        LightingEffect::BreathingSingleColor { color, speed } => {
            lemma_speed_round_trip(speed);
        },
        LightingEffect::Tail { brightness, speed } => {
            lemma_packed_field_round_trip(brightness, speed);
        },
        LightingEffect::Rave { colors, speed, brightness } => {
            lemma_packed_field_round_trip(brightness, speed);
            assert([spec_color_at(enc, 64), spec_color_at(enc, 67)] =~= colors);
        },
        LightingEffect::Wave { speed, brightness } => {
            lemma_packed_field_round_trip(brightness, speed);
        },
    }
}

/// After encoding, the sentinel at window offset 77 is 0x03 exactly when
/// the encoded effect is `Off`.
pub proof fn lemma_sentinel_iff_off(e: LightingEffect, w: Seq<u8>)
    requires
        w.len() >= LIGHTING_WINDOW_LEN,
    ensures
        spec_effect_encode(e, w)[77] == 0x03 <==> e is Off,
{
}

/// The window offsets an effect's encoding writes: the tag byte, the
/// sentinel byte, and the fields of the active variant; nothing else.
pub open spec fn spec_effect_touched(e: LightingEffect, i: int) -> bool {
    i == 0 || i == 77 || match e {
        LightingEffect::Unknown => false,
        LightingEffect::Off => false,
        LightingEffect::GloriousMode { .. } => i == 1 || i == 2,
        LightingEffect::Breathing { .. } => i == 7 || (9 <= i < 30),
        LightingEffect::SeamlessBreathingRGB { .. } => i == 31,
        LightingEffect::SingleColor { .. } => 3 <= i < 7,
        LightingEffect::BreathingSingleColor { .. } => 72 <= i < 76,
        LightingEffect::Tail { .. } => i == 30,
        LightingEffect::Rave { .. } => 63 <= i < 70,
        LightingEffect::Wave { .. } => i == 71,
    }
}

/// Encoding never changes a window's length.
pub proof fn lemma_encode_len(e: LightingEffect, w: Seq<u8>)
    requires
        w.len() >= LIGHTING_WINDOW_LEN,
    ensures
        spec_effect_encode(e, w).len() == w.len(),
{
    match e {
        LightingEffect::Unknown => {},
        LightingEffect::Off => {},
        LightingEffect::GloriousMode { .. } => {},
        LightingEffect::Breathing { .. } => {},
        LightingEffect::SeamlessBreathingRGB { .. } => {},
        LightingEffect::SingleColor { .. } => {},
        LightingEffect::BreathingSingleColor { .. } => {},
        LightingEffect::Tail { .. } => {},
        LightingEffect::Rave { .. } => {},
        LightingEffect::Wave { .. } => {},
    }
}

/// Every window byte outside the offsets an effect's layout owns keeps
/// whatever value it had before the effect was encoded.
pub proof fn lemma_encode_frame(e: LightingEffect, w: Seq<u8>, i: int)
    requires
        w.len() >= LIGHTING_WINDOW_LEN,
        0 <= i < w.len(),
        !spec_effect_touched(e, i),
    ensures
        spec_effect_encode(e, w)[i] == w[i],
{
}

/// The exact wire-size buffer built from an owned report: the report's
/// bytes, zero-padded (or truncated) to 520 bytes.
pub open spec fn spec_report_pad(s: Seq<u8>) -> Seq<u8> {
    Seq::new(
        REPORT_OUT_LEN as nat,
        |i: int|
            if i < s.len() {
                s[i]
            } else {
                0u8
            },
    )
}

/// A full feature report: the raw buffer as received from the device,
/// plus the decoded settings, which the setters keep in step with the
/// buffer.
pub struct FeatureReport {
    raw_data: Vec<u8>,
    lighting_effect: LightingEffect,
    lift_off_distance: LiftOffDistance,
    polling_rate: PollingRate,
}

impl FeatureReport {
    /// The raw report bytes this aggregate owns.
    pub closed spec fn raw(&self) -> Seq<u8> {
        self.raw_data@
    }

    /// The cached lighting effect.
    pub closed spec fn effect(&self) -> LightingEffect {
        self.lighting_effect
    }

    /// The cached lift-off distance.
    pub closed spec fn lift_off(&self) -> LiftOffDistance {
        self.lift_off_distance
    }

    /// The cached polling rate.
    pub closed spec fn rate(&self) -> PollingRate {
        self.polling_rate
    }

    /// Construction establishes and every setter preserves this: the
    /// owned buffer holds a full report, so the lighting window and the
    /// settings bytes always exist.
    pub open spec fn wf(&self) -> bool {
        self.raw().len() >= REPORT_MIN_LEN
    }

    /// Take ownership of a copy of a received buffer and decode the
    /// lighting effect, lift-off distance and polling rate from it.
    /// A buffer shorter than a full report yields no aggregate at all.
    pub fn from_buffer(buffer: &[u8]) -> (r: Option<FeatureReport>)
        ensures
            match r {
                None => buffer@.len() < REPORT_MIN_LEN,
                Some(report) => buffer@.len() >= REPORT_MIN_LEN && report.wf() && report.raw()
                    == buffer@ && report.effect() == spec_effect_decode(
                    buffer@.skip(LIGHTING_OFFSET as int),
                ) && report.lift_off() == spec_lift_off_from_byte(
                    buffer@[LIFT_OFF_OFFSET as int],
                ) && report.rate() == spec_polling_rate_from_byte(
                    buffer@[POLLING_RATE_OFFSET as int],
                ),
            },
    {
        if buffer.len() < REPORT_MIN_LEN {
            return None;
        }
        let window = slice_subrange(buffer, LIGHTING_OFFSET, buffer.len());
        proof {
            assert(buffer@.subrange(LIGHTING_OFFSET as int, buffer@.len() as int) =~= buffer@.skip(
                LIGHTING_OFFSET as int,
            ));
        }
        Some(
            FeatureReport {
                raw_data: slice_to_vec(buffer),
                lighting_effect: LightingEffect::from_buffer(window),
                lift_off_distance: LiftOffDistance::from_buffer(buffer),
                polling_rate: PollingRate::from_buffer(buffer),
            },
        )
    }

    /// Clone the owned buffer into the exact 520-byte wire buffer the
    /// device's write channel expects, zero-padding past the report's
    /// own length.
    pub fn to_buffer(&self) -> (r: [u8; 520])
        ensures
            r@ == spec_report_pad(self.raw()),
    {
        let mut data: [u8; 520] = [0u8; 520];
        let n: usize = if self.raw_data.len() < 520 {
            self.raw_data.len()
        } else {
            520
        };
        let mut i: usize = 0;
        while i < n
            invariant
                i <= n,
                n <= 520,
                n <= self.raw_data@.len(),
                forall|j: int| 0 <= j < i ==> data@[j] == self.raw_data@[j],
                forall|j: int| i <= j < 520 ==> data@[j] == 0u8,
            decreases n - i,
        {
            data[i] = self.raw_data[i];
            i = i + 1;
        }
        proof {
            assert(data@ =~= spec_report_pad(self.raw()));
        }
        data
    }

    /// The decoded lighting effect, straight from the cache.
    pub fn lighting_effect(&self) -> (r: LightingEffect)
        ensures
            r == self.effect(),
    {
        self.lighting_effect
    }

    /// Re-encode a lighting effect into the owned buffer's 78-byte
    /// lighting window and cache it. Only the window changes; the bytes
    /// before it are untouched.
    pub fn set_lighting_effect(&mut self, effect: LightingEffect)
        requires
            old(self).wf(),
        ensures
            final(self).wf(),
            final(self).effect() == effect,
            final(self).lift_off() == old(self).lift_off(),
            final(self).rate() == old(self).rate(),
            final(self).raw() == old(self).raw().take(LIGHTING_OFFSET as int)
                + spec_effect_encode(effect, old(self).raw().skip(LIGHTING_OFFSET as int)),
    {
        let buffer = self.raw_data.as_mut_slice();
        let (_front, window) = buffer.split_at_mut(LIGHTING_OFFSET);
        let _encoded = effect.set_in_buffer(window);
        self.lighting_effect = effect;
        proof {
            assert(old(self).raw().subrange(0, LIGHTING_OFFSET as int) =~= old(self).raw().take(
                LIGHTING_OFFSET as int,
            ));
            assert(old(self).raw().subrange(
                LIGHTING_OFFSET as int,
                old(self).raw().len() as int,
            ) =~= old(self).raw().skip(LIGHTING_OFFSET as int));
        }
    }

    /// The decoded lift-off distance, straight from the cache.
    pub fn lift_off_distance(&self) -> (r: LiftOffDistance)
        ensures
            r == self.lift_off(),
    {
        self.lift_off_distance
    }

    /// Write a lift-off distance's byte into the owned buffer and cache
    /// it; no other byte changes.
    pub fn set_lift_off_distance(&mut self, lift_off_distance: LiftOffDistance)
        requires
            old(self).wf(),
        ensures
            final(self).wf(),
            final(self).lift_off() == lift_off_distance,
            final(self).effect() == old(self).effect(),
            final(self).rate() == old(self).rate(),
            final(self).raw() == old(self).raw().update(
                LIFT_OFF_OFFSET as int,
                spec_lift_off_byte(lift_off_distance),
            ),
    {
        lift_off_distance.set_in_buffer(self.raw_data.as_mut_slice());
        self.lift_off_distance = lift_off_distance;
    }

    /// The decoded polling rate, straight from the cache.
    pub fn polling_rate(&self) -> (r: PollingRate)
        ensures
            r == self.rate(),
    {
        self.polling_rate
    }

    /// Write a polling rate's byte into the owned buffer and cache it;
    /// no other byte changes.
    pub fn set_polling_rate(&mut self, polling_rate: PollingRate)
        requires
            old(self).wf(),
        ensures
            final(self).wf(),
            final(self).rate() == polling_rate,
            final(self).effect() == old(self).effect(),
            final(self).lift_off() == old(self).lift_off(),
            final(self).raw() == old(self).raw().update(
                POLLING_RATE_OFFSET as int,
                spec_polling_rate_byte(polling_rate),
            ),
    {
        polling_rate.set_in_buffer(self.raw_data.as_mut_slice());
        self.polling_rate = polling_rate;
    }
}

/// Encoding `GloriousMode` forces the brightness half of window byte 1
/// to `Highest`, whatever speed and direction are encoded.
pub proof fn lemma_glorious_brightness_forced(
    speed: EffectSpeed,
    direction: LightingDirection,
    w: Seq<u8>,
)
    requires
        w.len() >= LIGHTING_WINDOW_LEN,
    ensures
        spec_brightness_from_byte(
            spec_effect_encode(LightingEffect::GloriousMode { speed, direction }, w)[1],
        ) == EffectBrightness::Highest,
{
    lemma_packed_field_round_trip(EffectBrightness::Highest, speed);
}

} // verus!
