//! The birth date that an attestation carries in its data field.

use vstd::prelude::*;
use crate::abi::abi_decode_uints;
use crate::calendar::DateOfBirth;
use crate::errors::AttestError;
use crate::word::{be_value, small_word_value};

verus! {

/// The largest day of a month that a birth date can hold.
pub const MAX_DAY: u16 = 31;

/// The largest month that a birth date can hold.
pub const MAX_MONTH: u16 = 12;

/// The birth date held by attestation data: the data starts with three
/// words, the day, the month and the year, each a big-endian number. The
/// day is at most 31, the month at most 12 and the year below 65536; data
/// that is shorter or holds larger numbers is malformed.
pub open spec fn date_of_birth_of(data: Seq<u8>) -> Result<DateOfBirth, AttestError> {
    if data.len() >= 96 && be_value(data.subrange(0, 32)) <= MAX_DAY && be_value(
        data.subrange(32, 64),
    ) <= MAX_MONTH && be_value(data.subrange(64, 96)) <= 0xffff {
        Ok(
            DateOfBirth {
                day: be_value(data.subrange(0, 32)) as u8,
                month: be_value(data.subrange(32, 64)) as u8,
                year: be_value(data.subrange(64, 96)) as u16,
            },
        )
    } else {
        Err(AttestError::InputError)
    }
}

/// Decodes the birth date from the data field of an attestation, which
/// holds it as the ABI tuple `(uint8 day, uint8 month, uint16 year)`.
pub fn decode_date_of_birth(data: &Vec<u8>) -> (dob: Result<DateOfBirth, AttestError>)
    ensures
        dob == date_of_birth_of(data@),
{
    let mut widths: Vec<usize> = Vec::new();
    widths.push(8);
    widths.push(8);
    widths.push(16);
    let words = match abi_decode_uints(&widths, data.as_slice()) {
        Some(words) => words,
        None => {
            return Err(AttestError::InputError);
        },
    };
    assert(words@[0]@ == data@.subrange(0, 32));
    assert(words@[1]@ == data@.subrange(32, 64));
    assert(words@[2]@ == data@.subrange(64, 96));
    let day = small_word_value(&words[0]);
    let month = small_word_value(&words[1]);
    let year = small_word_value(&words[2]);
    match (day, month, year) {
        (Some(d), Some(m), Some(y)) => {
            if d <= MAX_DAY && m <= MAX_MONTH {
                Ok(DateOfBirth { day: d as u8, month: m as u8, year: y })
            } else {
                Err(AttestError::InputError)
            }
        },
        _ => Err(AttestError::InputError),
    }
}

} // verus!
