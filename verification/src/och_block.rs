//! Output-channel (OCH) block: the 87-byte record that TunerStudio reads with
//! the `r` command. Multi-byte values are little-endian.

use vstd::prelude::*;

verus! {

/// Low byte of a 16-bit value.
pub open spec fn lo_byte(v: u16) -> u8 {
    (v % 256) as u8
}

/// High byte of a 16-bit value.
pub open spec fn hi_byte(v: u16) -> u8 {
    (v / 256) as u8
}

/// The 16-bit value whose little-endian bytes are `lo`, `hi`.
pub open spec fn le_u16(lo: u8, hi: u8) -> u16 {
    (lo + hi * 256) as u16
}

/// The byte that encodes a boolean indicator (0 = off, 1 = on).
pub open spec fn flag_byte(on: bool) -> u8 {
    if on {
        1
    } else {
        0
    }
}

/// Two's-complement bit pattern of a signed 16-bit value.
pub open spec fn i16_bits(v: i16) -> u16 {
    if v < 0 {
        (v + 65536) as u16
    } else {
        v as u16
    }
}

/// The signed 16-bit value with the given two's-complement bit pattern.
pub open spec fn i16_of_bits(u: u16) -> i16 {
    if u >= 32768 {
        (u - 65536) as i16
    } else {
        u as i16
    }
}

/// A block of 87 zero bytes.
pub open spec fn zero_block() -> Seq<u8> {
    Seq::new(87, |i: int| 0u8)
}

/// `s` with the 16-bit value `v` stored little-endian at `off`, `off + 1`.
pub open spec fn with_u16(s: Seq<u8>, off: int, v: u16) -> Seq<u8> {
    s.update(off, lo_byte(v)).update(off + 1, hi_byte(v))
}

/// The 16-bit value stored little-endian at `off` in `s`.
pub open spec fn read_u16(s: Seq<u8>, off: int) -> u16 {
    le_u16(s[off], s[off + 1])
}

/// Degrees Celsius from a temperature encoded as degrees C + 40.
pub fn c40_to_celsius(v: u8) -> (r: i16)
    ensures
        r == v - 40,
{
    v as i16 - 40
}

/// 87-byte output block matching the TunerStudio INI layout.
pub struct OchBlock {
    data: [u8; 87],
}

impl View for OchBlock {
    type V = Seq<u8>;

    closed spec fn view(&self) -> Seq<u8> {
        self.data@
    }
}

/// Reading a 16-bit value back after storing it gives the value.
pub proof fn lemma_u16_read_after_write(s: Seq<u8>, off: int, v: u16)
    requires
        0 <= off,
        off + 1 < s.len(),
    ensures
        read_u16(with_u16(s, off, v), off) == v,
        with_u16(s, off, v).len() == s.len(),
        forall|i: int|
            0 <= i < s.len() && i != off && i != off + 1 ==> #[trigger] with_u16(s, off, v)[i]
                == s[i],
{
}

/// A signed 16-bit value survives its two's-complement encoding.
pub proof fn lemma_i16_bits_roundtrip(v: i16)
    ensures
        i16_of_bits(i16_bits(v)) == v,
{
}

proof fn lemma_i16_cast(v: i16)
    ensures
        v as u16 == i16_bits(v),
{
    assert(v < 0 ==> v as u16 == (v + 65536) as u16) by (bit_vector);
}

proof fn lemma_u16_cast(u: u16)
    ensures
        u as i16 == i16_of_bits(u),
{
    assert(u >= 32768 ==> u as i16 == (u - 65536) as i16) by (bit_vector);
}

impl OchBlock {
    /// A block always holds exactly 87 bytes.
    pub proof fn lemma_view_len(&self)
        ensures
            self@.len() == 87,
    {
    }

    /// Size of the block in bytes.
    pub const SIZE: usize = 87;

    /// A zero-initialised block.
    pub fn new() -> (r: Self)
        ensures
            r@ == zero_block(),
    {
        let r = OchBlock { data: [0u8; 87] };
        assert(r@ =~= zero_block());
        r
    }

    /// A block holding the given bytes.
    pub fn from_bytes(bytes: &[u8; 87]) -> (r: Self)
        ensures
            r@ == bytes@,
    {
        OchBlock { data: *bytes }
    }

    /// The block as bytes, for transmission.
    pub fn as_bytes(&self) -> (r: &[u8])
        ensures
            r@ == self@,
    {
        &self.data
    }

    /// Set every byte to zero.
    pub fn clear(&mut self)
        ensures
            final(self)@ == zero_block(),
    {
        self.data = [0u8; 87];
        assert(self@ =~= zero_block());
    }

    /// RPM, u16 at offsets 0-1.
    pub fn set_rpm(&mut self, rpm: u16)
        ensures
            final(self)@ == with_u16(old(self)@, 0, rpm),
    {
        self.write_u16_le(0, rpm);
    }

    /// Oil temperature, encoded as degrees C + 40, at offset 3.
    pub fn set_oil_temp_c40(&mut self, temp: u8)
        ensures
            final(self)@ == old(self)@.update(3, temp),
    {
        self.data[3] = temp;
    }

    /// MAP / boost pressure in kPa, i16 (two's complement) at offsets 4-5.
    pub fn set_map_kpa(&mut self, kpa: i16)
        ensures
            final(self)@ == with_u16(old(self)@, 4, i16_bits(kpa)),
    {
        self.write_i16_le(4, kpa);
    }

    /// Coolant temperature, encoded as degrees C + 40, at offset 7.
    pub fn set_coolant_temp_c40(&mut self, temp: u8)
        ensures
            final(self)@ == old(self)@.update(7, temp),
    {
        self.data[7] = temp;
    }

    /// Oil pressure in PSI at offset 10.
    pub fn set_oil_pressure_psi(&mut self, psi: u8)
        ensures
            final(self)@ == old(self)@.update(10, psi),
    {
        self.data[10] = psi;
    }

    /// Fuel pressure in PSI at offset 11.
    pub fn set_fuel_pressure_psi(&mut self, psi: u8)
        ensures
            final(self)@ == old(self)@.update(11, psi),
    {
        self.data[11] = psi;
    }

    /// Fuel level in percent at offset 15.
    pub fn set_fuel_level_pct(&mut self, pct: u8)
        ensures
            final(self)@ == old(self)@.update(15, pct),
    {
        self.data[15] = pct;
    }

    /// Vehicle speed in km/h, u16 at offsets 19-20.
    pub fn set_speed_kph(&mut self, kph: u16)
        ensures
            final(self)@ == with_u16(old(self)@, 19, kph),
    {
        self.write_u16_le(19, kph);
    }

    /// Left turn indicator at offset 40.
    pub fn set_turn_left(&mut self, on: bool)
        ensures
            final(self)@ == old(self)@.update(40, flag_byte(on)),
    {
        self.data[40] = if on {
            1
        } else {
            0
        };
    }

    /// Right turn indicator at offset 41.
    pub fn set_turn_right(&mut self, on: bool)
        ensures
            final(self)@ == old(self)@.update(41, flag_byte(on)),
    {
        self.data[41] = if on {
            1
        } else {
            0
        };
    }

    /// Check-engine light at offset 42.
    pub fn set_cel(&mut self, on: bool)
        ensures
            final(self)@ == old(self)@.update(42, flag_byte(on)),
    {
        self.data[42] = if on {
            1
        } else {
            0
        };
    }

    /// High-beam indicator at offset 43.
    pub fn set_high_beam(&mut self, on: bool)
        ensures
            final(self)@ == old(self)@.update(43, flag_byte(on)),
    {
        self.data[43] = if on {
            1
        } else {
            0
        };
    }

    /// Handbrake indicator at offset 44.
    pub fn set_handbrake(&mut self, on: bool)
        ensures
            final(self)@ == old(self)@.update(44, flag_byte(on)),
    {
        self.data[44] = if on {
            1
        } else {
            0
        };
    }

    /// Store the odometer's four IEEE-754 bytes (little-endian) at offsets 60-63.
    pub fn set_odometer_bytes(&mut self, bytes: [u8; 4])
        ensures
            final(self)@ == old(self)@.update(60, bytes@[0]).update(61, bytes@[1]).update(
                62,
                bytes@[2],
            ).update(63, bytes@[3]),
    {
        self.data[60] = bytes[0];
        self.data[61] = bytes[1];
        self.data[62] = bytes[2];
        self.data[63] = bytes[3];
    }

    /// RPM stored at offsets 0-1.
    pub fn rpm(&self) -> (r: u16)
        ensures
            r == read_u16(self@, 0),
    {
        self.read_u16_le(0)
    }

    /// Oil temperature (degrees C + 40) at offset 3.
    pub fn oil_temp_c40(&self) -> (r: u8)
        ensures
            r == self@[3],
    {
        self.data[3]
    }

    /// MAP / boost pressure (kPa) at offsets 4-5.
    pub fn map_kpa(&self) -> (r: i16)
        ensures
            r == i16_of_bits(read_u16(self@, 4)),
    {
        let u = self.read_u16_le(4);
        proof {
            lemma_u16_cast(u);
        }
        u as i16
    }

    /// Coolant temperature (degrees C + 40) at offset 7.
    pub fn coolant_temp_c40(&self) -> (r: u8)
        ensures
            r == self@[7],
    {
        self.data[7]
    }

    /// Oil pressure (PSI) at offset 10.
    pub fn oil_pressure_psi(&self) -> (r: u8)
        ensures
            r == self@[10],
    {
        self.data[10]
    }

    /// Fuel pressure (PSI) at offset 11.
    pub fn fuel_pressure_psi(&self) -> (r: u8)
        ensures
            r == self@[11],
    {
        self.data[11]
    }

    /// Fuel level (percent) at offset 15.
    pub fn fuel_level_pct(&self) -> (r: u8)
        ensures
            r == self@[15],
    {
        self.data[15]
    }

    /// Vehicle speed (km/h) at offsets 19-20.
    pub fn speed_kph(&self) -> (r: u16)
        ensures
            r == read_u16(self@, 19),
    {
        self.read_u16_le(19)
    }

    /// Left turn indicator: offset 40 is non-zero.
    pub fn turn_left(&self) -> (r: bool)
        ensures
            r == (self@[40] != 0),
    {
        self.data[40] != 0
    }

    /// Right turn indicator: offset 41 is non-zero.
    pub fn turn_right(&self) -> (r: bool)
        ensures
            r == (self@[41] != 0),
    {
        self.data[41] != 0
    }

    /// Check-engine light: offset 42 is non-zero.
    pub fn cel(&self) -> (r: bool)
        ensures
            r == (self@[42] != 0),
    {
        self.data[42] != 0
    }

    /// High-beam indicator: offset 43 is non-zero.
    pub fn high_beam(&self) -> (r: bool)
        ensures
            r == (self@[43] != 0),
    {
        self.data[43] != 0
    }

    /// Handbrake indicator: offset 44 is non-zero.
    pub fn handbrake(&self) -> (r: bool)
        ensures
            r == (self@[44] != 0),
    {
        self.data[44] != 0
    }

    /// The odometer's four bytes at offsets 60-63.
    pub fn odometer_bytes(&self) -> (r: [u8; 4])
        ensures
            r@ == self@.subrange(60, 64),
    {
        let r = [self.data[60], self.data[61], self.data[62], self.data[63]];
        assert(r@ =~= self@.subrange(60, 64));
        r
    }

    fn write_u16_le(&mut self, offset: usize, val: u16)
        requires
            offset + 1 < 87,
        ensures
            final(self)@ == with_u16(old(self)@, offset as int, val),
    {
        let lo = (val & 0xFF) as u8;
        let hi = (val >> 8) as u8;
        assert(lo == lo_byte(val) && hi == hi_byte(val)) by (bit_vector)
            requires
                lo == (val & 0xFF) as u8,
                hi == (val >> 8) as u8,
        ;
        self.data[offset] = lo;
        self.data[offset + 1] = hi;
    }

    fn write_i16_le(&mut self, offset: usize, val: i16)
        requires
            offset + 1 < 87,
        ensures
            final(self)@ == with_u16(old(self)@, offset as int, i16_bits(val)),
    {
        proof {
            lemma_i16_cast(val);
        }
        self.write_u16_le(offset, val as u16);
    }

    fn read_u16_le(&self, offset: usize) -> (r: u16)
        requires
            offset + 1 < 87,
        ensures
            r == read_u16(self@, offset as int),
    {
        (self.data[offset] as u16) + (self.data[offset + 1] as u16) * 256
    }
}

impl Default for OchBlock {
    fn default() -> (r: Self)
        ensures
            r@ == zero_block(),
    {
        Self::new()
    }
}

} // verus!
