//! The fixed-layout wire payload that carries one sensor reading.
//!
//! A reading is serialized into exactly 14 big-endian bytes:
//! offsets 0-1 hold the temperature (signed 16-bit, hundredths of a
//! degree), 2-5 the pressure (unsigned 32-bit, hundredths of a unit),
//! 6-9 the humidity (unsigned 32-bit, thousandths of a percent) and
//! 10-13 the gas resistance (unsigned 32-bit, ohms). There is no padding
//! and no length prefix; framing is the transport's affair.

use vstd::prelude::*;

verus! {

/// One sensor reading, in fixed-point units. Scaling from raw sensor
/// values happens at the sampling boundary, never inside the codec.
#[derive(Clone, Copy, Debug, PartialEq, Eq, Structural)]
pub struct EnvironmentalPayload {
    /// Hundredths of a degree Celsius.
    pub temperature: i16,
    /// Hundredths of a hectopascal.
    pub pressure: u32,
    /// Thousandths of a percent relative humidity.
    pub humidity: u32,
    /// Ohms.
    pub gas_resistance: u32,
}

/// The two's-complement 16-bit representation of a temperature value.
pub open spec fn spec_temp_repr(t: i16) -> u16 {
    if t >= 0 {
        t as u16
    } else {
        (t + 0x10000) as u16
    }
}

/// The big-endian bytes of a 16-bit value.
pub open spec fn spec_be16(v: u16) -> Seq<u8> {
    seq![(v >> 8) as u8, (v & 0xff) as u8]
}

/// The big-endian bytes of a 32-bit value.
pub open spec fn spec_be32(v: u32) -> Seq<u8> {
    seq![
        (v >> 24) as u8,
        ((v >> 16) & 0xff) as u8,
        ((v >> 8) & 0xff) as u8,
        (v & 0xff) as u8,
    ]
}

/// The 14-byte wire form of a reading: temperature, pressure, humidity
/// and gas resistance, each big-endian, in that order.
pub open spec fn spec_payload_bytes(p: EnvironmentalPayload) -> Seq<u8> {
    spec_be16(spec_temp_repr(p.temperature)) + spec_be32(p.pressure) + spec_be32(p.humidity)
        + spec_be32(p.gas_resistance)
}

/// The 16-bit value that two big-endian bytes denote.
pub open spec fn spec_u16_from_be(hi: u8, lo: u8) -> u16 {
    ((hi as u16) << 8) | (lo as u16)
}

/// The signed 16-bit value whose two's-complement representation is `v`.
pub open spec fn spec_i16_from_repr(v: u16) -> i16 {
    if v < 0x8000 {
        v as i16
    } else {
        (v - 0x10000) as i16
    }
}

/// The 32-bit value that four big-endian bytes denote.
pub open spec fn spec_u32_from_be(b0: u8, b1: u8, b2: u8, b3: u8) -> u32 {
    ((b0 as u32) << 24) | ((b1 as u32) << 16) | ((b2 as u32) << 8) | (b3 as u32)
}

/// The reading that a 14-byte wire payload denotes.
pub open spec fn spec_decode_payload(s: Seq<u8>) -> EnvironmentalPayload
    recommends
        s.len() == 14,
{
    EnvironmentalPayload {
        temperature: spec_i16_from_repr(spec_u16_from_be(s[0], s[1])),
        pressure: spec_u32_from_be(s[2], s[3], s[4], s[5]),
        humidity: spec_u32_from_be(s[6], s[7], s[8], s[9]),
        gas_resistance: spec_u32_from_be(s[10], s[11], s[12], s[13]),
    }
}

/// Decoding inverts encoding: every reading survives the trip through
/// its 14-byte wire form unchanged.
pub proof fn lemma_decode_encode(p: EnvironmentalPayload)
    ensures
        spec_decode_payload(spec_payload_bytes(p)) == p,
{
    let t = p.temperature;
    let r = spec_temp_repr(t);
    assert(spec_u16_from_be((r >> 8) as u8, (r & 0xff) as u8) == r) by (bit_vector);
    if t >= 0 {
        assert(r < 0x8000);
        assert(spec_i16_from_repr(r) == t);
    } else {
        assert(r >= 0x8000);
        assert(spec_i16_from_repr(r) == t);
    }
    lemma_be32_roundtrip(p.pressure);
    lemma_be32_roundtrip(p.humidity);
    lemma_be32_roundtrip(p.gas_resistance);
    assert(spec_decode_payload(spec_payload_bytes(p)) == p);
}

/// Reassembling the four big-endian bytes of a 32-bit value gives the
/// value back.
pub proof fn lemma_be32_roundtrip(v: u32)
    ensures
        spec_u32_from_be(
            (v >> 24) as u8,
            ((v >> 16) & 0xff) as u8,
            ((v >> 8) & 0xff) as u8,
            (v & 0xff) as u8,
        ) == v,
{
    assert((((v >> 24) as u8 as u32) << 24) | ((((v >> 16) & 0xff) as u8 as u32) << 16) | ((((v
        >> 8) & 0xff) as u8 as u32) << 8) | ((v & 0xff) as u8 as u32) == v) by (bit_vector);
}

/// Encoding inverts decoding: every 14-byte string is the wire form of
/// the reading it decodes to, so the codec is a bijection onto the
/// 14-byte layout.
pub proof fn lemma_encode_decode(s: Seq<u8>)
    requires
        s.len() == 14,
    ensures
        spec_payload_bytes(spec_decode_payload(s)) == s,
{
    let hi = s[0];
    let lo = s[1];
    let v = spec_u16_from_be(hi, lo);
    let t = spec_i16_from_repr(v);
    assert(spec_temp_repr(t) == v) by {
        if v < 0x8000 {
            assert(t == v as i16);
            assert(v as i16 >= 0) by (bit_vector)
                requires
                    v < 0x8000,
            ;
        } else {
            assert(t == (v - 0x10000) as i16);
        }
    }
    assert((v >> 8) as u8 == hi && (v & 0xff) as u8 == lo) by (bit_vector)
        requires
            v == ((hi as u16) << 8) | (lo as u16),
    ;
    lemma_be32_split(s[2], s[3], s[4], s[5]);
    lemma_be32_split(s[6], s[7], s[8], s[9]);
    lemma_be32_split(s[10], s[11], s[12], s[13]);
    assert(spec_payload_bytes(spec_decode_payload(s)) =~= s);
}

/// Splitting a 32-bit value assembled from four bytes gives those bytes
/// back.
pub proof fn lemma_be32_split(b0: u8, b1: u8, b2: u8, b3: u8)
    ensures
        (spec_u32_from_be(b0, b1, b2, b3) >> 24) as u8 == b0,
        ((spec_u32_from_be(b0, b1, b2, b3) >> 16) & 0xff) as u8 == b1,
        ((spec_u32_from_be(b0, b1, b2, b3) >> 8) & 0xff) as u8 == b2,
        (spec_u32_from_be(b0, b1, b2, b3) & 0xff) as u8 == b3,
{
    let v = spec_u32_from_be(b0, b1, b2, b3);
    assert((v >> 24) as u8 == b0 && ((v >> 16) & 0xff) as u8 == b1 && ((v >> 8) & 0xff) as u8 == b2
        && (v & 0xff) as u8 == b3) by (bit_vector)
        requires
            v == ((b0 as u32) << 24) | ((b1 as u32) << 16) | ((b2 as u32) << 8) | (b3 as u32),
    ;
}

impl EnvironmentalPayload {
    /// The reading as exactly the 14 big-endian bytes of the wire layout.
    pub fn to_be_bytes(&self) -> (bytes: [u8; 14])
        ensures
            bytes@ == spec_payload_bytes(*self),
    {
        let repr: u16 = if self.temperature >= 0 {
            self.temperature as u16
        } else {
            ((self.temperature as i32) + 0x10000) as u16
        };
        let p = self.pressure;
        let h = self.humidity;
        let g = self.gas_resistance;
        let bytes = [
            (repr >> 8) as u8,
            (repr & 0xff) as u8,
            (p >> 24) as u8,
            ((p >> 16) & 0xff) as u8,
            ((p >> 8) & 0xff) as u8,
            (p & 0xff) as u8,
            (h >> 24) as u8,
            ((h >> 16) & 0xff) as u8,
            ((h >> 8) & 0xff) as u8,
            (h & 0xff) as u8,
            (g >> 24) as u8,
            ((g >> 16) & 0xff) as u8,
            ((g >> 8) & 0xff) as u8,
            (g & 0xff) as u8,
        ];
        assert(bytes@ =~= spec_payload_bytes(*self));
        bytes
    }

    /// The reading that a 14-byte wire payload denotes; the exact inverse
    /// of `to_be_bytes`.
    pub fn from_be_bytes(bytes: &[u8; 14]) -> (p: EnvironmentalPayload)
        ensures
            p == spec_decode_payload(bytes@),
            spec_payload_bytes(p) == bytes@,
    {
        let repr: u16 = ((bytes[0] as u16) << 8) | (bytes[1] as u16);
        let temperature: i16 = if repr < 0x8000 {
            repr as i16
        } else {
            ((repr as i32) - 0x10000) as i16
        };
        let p = EnvironmentalPayload {
            temperature,
            pressure: ((bytes[2] as u32) << 24) | ((bytes[3] as u32) << 16) | ((bytes[4] as u32)
                << 8) | (bytes[5] as u32),
            humidity: ((bytes[6] as u32) << 24) | ((bytes[7] as u32) << 16) | ((bytes[8] as u32)
                << 8) | (bytes[9] as u32),
            gas_resistance: ((bytes[10] as u32) << 24) | ((bytes[11] as u32) << 16) | ((bytes[12]
                as u32) << 8) | (bytes[13] as u32),
        };
        proof {
            lemma_encode_decode(bytes@);
        }
        p
    }
}

} // verus!
