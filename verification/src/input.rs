//! Restricting what is typed into a numeric text field.

use vstd::prelude::*;

use crate::decimal::{
    decimal, law_decimal_round_trip, decimal_string, keep_digit_chars, keep_digits, parse_u32_digits,
    parse_u32_digits_spec, push_char,
};

verus! {

/// `v` held into `[lo, hi]` (`Ord::clamp`).
pub open spec fn clamp_spec(v: int, lo: int, hi: int) -> int {
    if v < lo {
        lo
    } else if v > hi {
        hi
    } else {
        v
    }
}

/// Keeps the digits of `string` and reads them as a `u32`. When that works,
/// the field's text becomes the value written back in decimal (so leading
/// zeros go) and the field's number becomes the value clamped into
/// `[clamp_min, clamp_max]`; otherwise the text becomes "0" and the number 0.
pub fn restrict_to_u32_input(
    string: String,
    restricted_string: &mut String,
    restricted_u32: &mut u32,
    clamp_min: u32,
    clamp_max: u32,
)
    requires
        clamp_min <= clamp_max || parse_u32_digits_spec(keep_digits(string@)) is None,
    ensures
        match parse_u32_digits_spec(keep_digits(string@)) {
            Some(v) => {
                &&& final(restricted_string)@ == decimal(v as nat)
                &&& *final(restricted_u32) == clamp_spec(v as int, clamp_min as int, clamp_max as int)
            },
            None => {
                &&& final(restricted_string)@ == seq!['0']
                &&& *final(restricted_u32) == 0
            },
        },
{
    let digits = keep_digit_chars(string.as_str());
    match parse_u32_digits(&digits) {
        Some(parsed_val) => {
            let clamped_val = if parsed_val < clamp_min {
                clamp_min
            } else if parsed_val > clamp_max {
                clamp_max
            } else {
                parsed_val
            };
            *restricted_string = decimal_string(parsed_val as u64);
            *restricted_u32 = clamped_val;
        },
        None => {
            let mut zero = String::new();
            push_char(&mut zero, '0');
            assert(zero@ =~= seq!['0']);
            *restricted_string = zero;
            *restricted_u32 = 0;
        },
    }
}


/// Entering into a field the text it shows for the number `v` leaves the
/// text as it is, and the number is `v` clamped into the field's range.
pub proof fn law_restrict_shown_text(v: u32, clamp_min: u32, clamp_max: u32)
    ensures
        parse_u32_digits_spec(keep_digits(decimal(v as nat))) == Some(v),
        clamp_min <= v <= clamp_max ==> clamp_spec(v as int, clamp_min as int, clamp_max as int) == v,
{
    law_decimal_round_trip(v);
}

} // verus!
