use age_attestation::birth_date::decode_date_of_birth;
use age_attestation::calendar::{
    calculate_age, reference_date, CalendarDate, DateOfBirth, MAX_TIMESTAMP,
};
use age_attestation::errors::AttestError;

fn born(year: u16, month: u8, day: u8) -> DateOfBirth {
    DateOfBirth { day, month, year }
}

fn on(year: i32, month: u32, day: u32) -> CalendarDate {
    CalendarDate { year, month, day }
}

fn word(value: u64) -> [u8; 32] {
    let mut out = [0u8; 32];
    out[24..].copy_from_slice(&value.to_be_bytes());
    out
}

fn birth_data(day: u64, month: u64, year: u64) -> Vec<u8> {
    let mut data = Vec::new();
    data.extend_from_slice(&word(day));
    data.extend_from_slice(&word(month));
    data.extend_from_slice(&word(year));
    data
}

#[test]
fn age_after_birthday_in_reference_year() {
    assert_eq!(calculate_age(&born(1990, 1, 1), &on(2024, 6, 15)), Ok(34));
}

#[test]
fn age_before_birthday_in_reference_year() {
    assert_eq!(calculate_age(&born(1990, 12, 31), &on(2024, 1, 1)), Ok(33));
}

#[test]
fn age_on_the_birthday_itself() {
    assert_eq!(calculate_age(&born(2004, 6, 15), &on(2024, 6, 15)), Ok(20));
    assert_eq!(calculate_age(&born(2004, 6, 16), &on(2024, 6, 15)), Ok(19));
    assert_eq!(calculate_age(&born(2004, 6, 14), &on(2024, 6, 15)), Ok(20));
}

#[test]
fn age_turns_on_the_birthday_whatever_the_lengths_of_the_years() {
    // Born in a common year, reference in a leap year: 15 June 2006 and
    // 14 June 2024 are both day 166 of their years.
    assert_eq!(calculate_age(&born(2006, 6, 15), &on(2024, 6, 14)), Ok(17));
    assert_eq!(calculate_age(&born(2006, 6, 15), &on(2024, 6, 15)), Ok(18));
    assert_eq!(calculate_age(&born(2006, 6, 16), &on(2024, 6, 15)), Ok(17));
    // Born in a leap year, reference in a common year: 15 June is day 167
    // of 2004 and day 166 of 2022.
    assert_eq!(calculate_age(&born(2004, 6, 15), &on(2022, 6, 15)), Ok(18));
    assert_eq!(calculate_age(&born(2004, 6, 15), &on(2022, 6, 14)), Ok(17));
    assert_eq!(calculate_age(&born(2004, 6, 15), &on(2022, 6, 16)), Ok(18));
    // Around the end of February.
    assert_eq!(calculate_age(&born(2023, 3, 1), &on(2024, 2, 29)), Ok(0));
    assert_eq!(calculate_age(&born(2023, 3, 1), &on(2024, 3, 1)), Ok(1));
    assert_eq!(calculate_age(&born(2024, 3, 1), &on(2025, 2, 28)), Ok(0));
    assert_eq!(calculate_age(&born(2024, 3, 1), &on(2025, 3, 1)), Ok(1));
}

#[test]
fn a_birthday_on_the_leap_day_has_come_by_the_first_of_march() {
    assert_eq!(calculate_age(&born(2000, 2, 29), &on(2023, 2, 28)), Ok(22));
    assert_eq!(calculate_age(&born(2000, 2, 29), &on(2023, 3, 1)), Ok(23));
    assert_eq!(calculate_age(&born(2000, 2, 29), &on(2024, 2, 28)), Ok(23));
    assert_eq!(calculate_age(&born(2000, 2, 29), &on(2024, 2, 29)), Ok(24));
}

#[test]
fn age_is_negative_before_birth() {
    assert_eq!(calculate_age(&born(2025, 1, 1), &on(2024, 1, 1)), Ok(-1));
    assert_eq!(calculate_age(&born(2025, 6, 1), &on(2024, 1, 1)), Ok(-2));
}

#[test]
fn age_can_exceed_a_byte() {
    assert_eq!(calculate_age(&born(0, 1, 1), &on(2024, 1, 1)), Ok(2024));
    assert_eq!(calculate_age(&born(65535, 1, 1), &on(2024, 1, 1)), Ok(-63511));
}

#[test]
fn age_of_birth_date_that_does_not_exist_is_input_error() {
    let today = on(2024, 6, 15);
    assert_eq!(calculate_age(&born(1990, 2, 30), &today), Err(AttestError::InputError));
    assert_eq!(calculate_age(&born(1990, 0, 10), &today), Err(AttestError::InputError));
    assert_eq!(calculate_age(&born(1990, 13, 10), &today), Err(AttestError::InputError));
    assert_eq!(calculate_age(&born(1990, 5, 0), &today), Err(AttestError::InputError));
    assert_eq!(calculate_age(&born(1990, 4, 31), &today), Err(AttestError::InputError));
    assert_eq!(calculate_age(&born(1900, 2, 29), &today), Err(AttestError::InputError));
    assert_eq!(calculate_age(&born(2023, 2, 29), &today), Err(AttestError::InputError));
}

#[test]
fn leap_day_birth_dates_exist_in_leap_years() {
    let today = on(2024, 12, 31);
    assert_eq!(calculate_age(&born(2000, 2, 29), &today), Ok(24));
    assert_eq!(calculate_age(&born(1996, 2, 29), &today), Ok(28));
    assert_eq!(calculate_age(&born(0, 2, 29), &today), Ok(2024));
}

#[test]
fn age_on_reference_date_that_does_not_exist_is_input_error() {
    let birth = born(1990, 1, 1);
    assert_eq!(calculate_age(&birth, &on(2023, 2, 29)), Err(AttestError::InputError));
    assert_eq!(calculate_age(&birth, &on(2024, 13, 1)), Err(AttestError::InputError));
    assert_eq!(calculate_age(&birth, &on(2024, 1, 32)), Err(AttestError::InputError));
    assert_eq!(calculate_age(&birth, &on(262143, 1, 1)), Err(AttestError::InputError));
    assert_eq!(calculate_age(&birth, &on(-262144, 1, 1)), Err(AttestError::InputError));
}

#[test]
fn reference_years_at_the_ends_of_the_range() {
    let birth = born(1990, 1, 1);
    assert_eq!(calculate_age(&birth, &on(262142, 12, 31)), Ok(260152));
    assert_eq!(calculate_age(&birth, &on(-262143, 1, 1)), Ok(-264133));
}

#[test]
fn reference_date_of_epoch() {
    assert_eq!(reference_date(0), Ok(on(1970, 1, 1)));
    assert_eq!(reference_date(86399), Ok(on(1970, 1, 1)));
    assert_eq!(reference_date(86400), Ok(on(1970, 1, 2)));
}

#[test]
fn reference_date_in_2024() {
    assert_eq!(reference_date(1718409600), Ok(on(2024, 6, 15)));
    assert_eq!(reference_date(1718409600 + 86399), Ok(on(2024, 6, 15)));
    assert_eq!(reference_date(1709164800), Ok(on(2024, 2, 29)));
    assert_eq!(reference_date(1704067199), Ok(on(2023, 12, 31)));
    assert_eq!(reference_date(1704067200), Ok(on(2024, 1, 1)));
}

#[test]
fn reference_date_at_the_end_of_the_range() {
    assert_eq!(MAX_TIMESTAMP, 8210266876799);
    assert_eq!(reference_date(8210266876799), Ok(on(262142, 12, 31)));
    assert_eq!(reference_date(8210266876800), Err(AttestError::InputError));
    assert_eq!(reference_date(u64::MAX), Err(AttestError::InputError));
    assert_eq!(reference_date(1u64 << 63), Err(AttestError::InputError));
}

#[test]
fn decode_date_of_birth_reads_three_words() {
    assert_eq!(decode_date_of_birth(&birth_data(1, 1, 1990)), Ok(born(1990, 1, 1)));
    assert_eq!(decode_date_of_birth(&birth_data(31, 12, 65535)), Ok(born(65535, 12, 31)));
    assert_eq!(decode_date_of_birth(&birth_data(0, 0, 0)), Ok(born(0, 0, 0)));
}

#[test]
fn decode_date_of_birth_ignores_what_follows() {
    let mut data = birth_data(15, 6, 2006);
    data.extend_from_slice(&[0xff; 40]);
    assert_eq!(decode_date_of_birth(&data), Ok(born(2006, 6, 15)));
}

#[test]
fn decode_date_of_birth_refuses_short_data() {
    assert_eq!(decode_date_of_birth(&Vec::new()), Err(AttestError::InputError));
    let mut data = birth_data(1, 1, 1990);
    data.pop();
    assert_eq!(decode_date_of_birth(&data), Err(AttestError::InputError));
    assert_eq!(decode_date_of_birth(&vec![0u8; 32]), Err(AttestError::InputError));
}

#[test]
fn decode_date_of_birth_refuses_numbers_out_of_range() {
    assert_eq!(decode_date_of_birth(&birth_data(32, 1, 1990)), Err(AttestError::InputError));
    assert_eq!(decode_date_of_birth(&birth_data(1, 13, 1990)), Err(AttestError::InputError));
    assert_eq!(decode_date_of_birth(&birth_data(1, 1, 65536)), Err(AttestError::InputError));
    assert_eq!(decode_date_of_birth(&birth_data(257, 1, 1990)), Err(AttestError::InputError));
    let mut data = birth_data(1, 1, 1990);
    data[0] = 1;
    assert_eq!(decode_date_of_birth(&data), Err(AttestError::InputError));
    let mut data = birth_data(1, 1, 1990);
    data[64 + 29] = 1;
    assert_eq!(decode_date_of_birth(&data), Err(AttestError::InputError));
}

#[test]
fn decode_date_of_birth_reads_what_the_encoder_writes() {
    let data = ethers_core::abi::encode(&[
        ethers_core::abi::Token::Uint(ethers_core::types::U256::from(1u8)),
        ethers_core::abi::Token::Uint(ethers_core::types::U256::from(1u8)),
        ethers_core::abi::Token::Uint(ethers_core::types::U256::from(1990u16)),
    ]);
    assert_eq!(decode_date_of_birth(&data), Ok(born(1990, 1, 1)));
}

fn is_leap(year: i64) -> bool {
    year.rem_euclid(4) == 0 && (year.rem_euclid(100) != 0 || year.rem_euclid(400) == 0)
}

fn month_length(year: i64, month: u32) -> u32 {
    match month {
        2 => {
            if is_leap(year) {
                29
            } else {
                28
            }
        }
        4 | 6 | 9 | 11 => 30,
        1..=12 => 31,
        _ => 0,
    }
}

fn ordinal(year: i64, month: u32, day: u32) -> Option<i64> {
    if month < 1 || month > 12 || day < 1 || day > month_length(year, month) {
        return None;
    }
    let mut count = day as i64;
    for m in 1..month {
        count += month_length(year, m) as i64;
    }
    Some(count)
}

fn expected_age(birth: &DateOfBirth, today: &CalendarDate) -> Result<i64, AttestError> {
    let in_range = today.year >= -262143 && today.year <= 262142;
    match (
        ordinal(birth.year as i64, birth.month as u32, birth.day as u32),
        ordinal(today.year as i64, today.month, today.day),
    ) {
        (Some(_), Some(_)) if in_range => {
            let before = (today.month, today.day) < (birth.month as u32, birth.day as u32);
            Ok(today.year as i64 - birth.year as i64 - if before { 1 } else { 0 })
        }
        _ => Err(AttestError::InputError),
    }
}

#[test]
fn ages_follow_the_formula_on_every_day_of_chosen_years() {
    let birth_years = [0u16, 1, 4, 100, 400, 1900, 1999, 2000, 2023, 2024, 65535];
    let reference_years = [-262143i32, -400, -1, 0, 1970, 2023, 2024, 2100, 262142];
    for birth_year in birth_years {
        for month in 0u8..14 {
            for day in 0u8..33 {
                let birth = born(birth_year, month, day);
                for reference_year in reference_years {
                    for today in [
                        on(reference_year, 1, 1),
                        on(reference_year, 2, 28),
                        on(reference_year, 2, 29),
                        on(reference_year, 3, 1),
                        on(reference_year, 12, 31),
                        on(reference_year, month as u32, day as u32),
                    ] {
                        assert_eq!(
                            calculate_age(&birth, &today),
                            expected_age(&birth, &today),
                            "{:?} {:?}",
                            birth,
                            today
                        );
                    }
                }
            }
        }
    }
}

#[test]
fn reference_dates_follow_the_calendar_day_by_day() {
    let mut year = 1970i32;
    let mut month = 1u32;
    let mut day = 1u32;
    let mut days = 0u64;
    while year < 2500 {
        let start = days * 86400;
        assert_eq!(reference_date(start), Ok(on(year, month, day)));
        assert_eq!(reference_date(start + 86399), Ok(on(year, month, day)));
        days += 1;
        day += 1;
        if day > month_length(year as i64, month) {
            day = 1;
            month += 1;
            if month > 12 {
                month = 1;
                year += 1;
            }
        }
    }
}

#[test]
fn reference_dates_follow_the_calendar_year_by_year() {
    let mut days = 0u64;
    for year in 1970i32..=262142 {
        if year % 97 == 0 || year > 262100 {
            assert_eq!(reference_date(days * 86400), Ok(on(year, 1, 1)), "{}", year);
            assert_eq!(reference_date(days * 86400 - 1).map(|d| d.year), Ok(year - 1));
        }
        days += if is_leap(year as i64) { 366 } else { 365 };
    }
    assert_eq!(days * 86400 - 1, MAX_TIMESTAMP as u64);
    assert_eq!(reference_date(days * 86400), Err(AttestError::InputError));
}
