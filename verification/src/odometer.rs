//! EEPROM record of the odometer: a magic value (0xC0DE, little-endian) at
//! address 8 marks valid data, followed at address 10 by the four bytes of
//! the mileage. The conversion of the mileage to and from bytes is the
//! caller's.

use vstd::prelude::*;
use crate::och_block::{lo_byte, hi_byte, le_u16};

verus! {

/// EEPROM address of the magic value.
pub const MAGIC_ADDR: u16 = 8;

/// EEPROM address of the mileage bytes.
pub const MILES_ADDR: u16 = 10;

/// Magic value marking a valid record.
pub const MAGIC_VALUE: u16 = 0xC0DE;

/// Length of the record that starts at `MAGIC_ADDR`.
pub const RECORD_LEN: usize = 6;

/// The record bytes for the given mileage bytes.
pub open spec fn record_spec(miles: Seq<u8>) -> Seq<u8> {
    seq![lo_byte(MAGIC_VALUE), hi_byte(MAGIC_VALUE)] + miles
}

/// Bytes to store from `MAGIC_ADDR` on: the magic value, then the mileage bytes.
pub fn encode_odometer_record(miles: [u8; 4]) -> (r: [u8; 6])
    ensures
        r@ == record_spec(miles@),
{
    let lo = (MAGIC_VALUE & 0xFF) as u8;
    let hi = (MAGIC_VALUE >> 8) as u8;
    assert(lo == lo_byte(MAGIC_VALUE) && hi == hi_byte(MAGIC_VALUE)) by (bit_vector)
        requires
            lo == (MAGIC_VALUE & 0xFF) as u8,
            hi == (MAGIC_VALUE >> 8) as u8,
    ;
    let r = [lo, hi, miles[0], miles[1], miles[2], miles[3]];
    assert(r@ =~= record_spec(miles@));
    r
}

/// The mileage bytes of a record read back from `MAGIC_ADDR` on, or `None`
/// when the magic value is missing (first boot).
pub fn decode_odometer_record(record: [u8; 6]) -> (r: Option<[u8; 4]>)
    ensures
        r is Some <==> le_u16(record@[0], record@[1]) == MAGIC_VALUE,
        r matches Some(m) ==> m@ == record@.subrange(2, 6),
{
    let magic = (record[0] as u16) + (record[1] as u16) * 256;
    if magic == MAGIC_VALUE {
        let m = [record[2], record[3], record[4], record[5]];
        assert(m@ =~= record@.subrange(2, 6));
        Some(m)
    } else {
        None
    }
}

/// Reading back a stored record gives the stored mileage bytes.
pub proof fn lemma_record_roundtrip(miles: Seq<u8>)
    requires
        miles.len() == 4,
    ensures
        le_u16(record_spec(miles)[0], record_spec(miles)[1]) == MAGIC_VALUE,
        record_spec(miles).subrange(2, 6) == miles,
{
    assert(record_spec(miles).subrange(2, 6) =~= miles);
}

} // verus!
