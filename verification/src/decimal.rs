//! Decimal text of unsigned integers: writing numbers out and reading the
//! digits of a text field back.

use vstd::prelude::*;

verus! {

/// A character is an ASCII decimal digit.
pub open spec fn is_digit(c: char) -> bool {
    '0' <= c && c <= '9'
}

/// The value of one digit character.
pub open spec fn digit_value(c: char) -> int {
    c as int - '0' as int
}

/// The character that writes the digit `d` (`0 <= d < 10`).
pub open spec fn digit_char(d: int) -> char {
    (d + 48) as char
}

/// The value of a sequence of digits read in base ten (the empty sequence is 0).
pub open spec fn digits_value(s: Seq<char>) -> int
    decreases s.len(),
{
    if s.len() == 0 {
        0
    } else {
        digits_value(s.drop_last()) * 10 + digit_value(s.last())
    }
}

/// The shortest decimal writing of `n`: no leading zero, "0" for zero.
pub open spec fn decimal(n: nat) -> Seq<char>
    decreases n,
{
    if n < 10 {
        seq![digit_char(n as int)]
    } else {
        decimal(n / 10).push(digit_char((n % 10) as int))
    }
}

/// The digits of `s`, in order, with every other character dropped.
pub open spec fn keep_digits(s: Seq<char>) -> Seq<char>
    decreases s.len(),
{
    if s.len() == 0 {
        Seq::empty()
    } else if is_digit(s.last()) {
        keep_digits(s.drop_last()).push(s.last())
    } else {
        keep_digits(s.drop_last())
    }
}

/// All characters of `s` are digits.
pub open spec fn all_digits(s: Seq<char>) -> bool {
    forall|i: int| 0 <= i < s.len() ==> is_digit(#[trigger] s[i])
}

/// What reading a digit string as a `u32` gives: `None` for the empty string
/// or a value above `u32::MAX`.
pub open spec fn parse_u32_digits_spec(s: Seq<char>) -> Option<u32> {
    if s.len() > 0 && digits_value(s) <= u32::MAX {
        Some(digits_value(s) as u32)
    } else {
        None
    }
}

/// Appends one character to a `String` (`String::push`).
#[verifier::external_body]
pub(crate) fn push_char(s: &mut String, c: char)
    ensures
        final(s)@ == old(s)@.push(c),
{
    s.push(c)
}

proof fn lemma_digit_char(d: int)
    requires
        0 <= d < 10,
    ensures
        is_digit(digit_char(d)),
        digit_value(digit_char(d)) == d,
{
}

/// Every character of a decimal writing is a digit, and it reads back as its number.
pub proof fn lemma_decimal_digits(n: nat)
    ensures
        all_digits(decimal(n)),
        decimal(n).len() > 0,
        digits_value(decimal(n)) == n,
    decreases n,
{
    if n < 10 {
        lemma_digit_char(n as int);
        assert(decimal(n).drop_last() =~= Seq::<char>::empty());
        assert(digits_value(Seq::<char>::empty()) == 0);
        assert(digits_value(decimal(n)) == digits_value(decimal(n).drop_last()) * 10 + digit_value(decimal(n).last()));
    } else {
        lemma_decimal_digits(n / 10);
        lemma_digit_char((n % 10) as int);
        assert(decimal(n).drop_last() =~= decimal(n / 10));
        assert(decimal(n).last() == digit_char((n % 10) as int));
        assert(digits_value(decimal(n)) == digits_value(decimal(n / 10)) * 10 + (n % 10));
        assert((n / 10) * 10 + n % 10 == n);
        assert forall|i: int| 0 <= i < decimal(n).len() implies is_digit(#[trigger] decimal(n)[i]) by {
            if i < decimal(n).len() - 1 {
                assert(decimal(n)[i] == decimal(n / 10)[i]);
            }
        }
    }
}

/// Reading more digits never gives a smaller value.
proof fn lemma_digits_value_prefix(s: Seq<char>, i: int)
    requires
        0 <= i <= s.len(),
        all_digits(s),
    ensures
        0 <= digits_value(s.take(i)) <= digits_value(s),
    decreases s.len(),
{
    if s.len() == 0 {
        assert(s.take(i) =~= s);
    } else if i == s.len() {
        assert(s.take(i) =~= s);
        lemma_digits_value_nonneg(s);
    } else {
        let t = s.drop_last();
        assert(all_digits(t)) by {
            assert forall|j: int| 0 <= j < t.len() implies is_digit(#[trigger] t[j]) by {
                assert(t[j] == s[j]);
            }
        }
        lemma_digits_value_prefix(t, i);
        assert(t.take(i) =~= s.take(i));
        assert(is_digit(s[s.len() - 1]));
    }
}

proof fn lemma_digits_value_nonneg(s: Seq<char>)
    requires
        all_digits(s),
    ensures
        digits_value(s) >= 0,
    decreases s.len(),
{
    if s.len() > 0 {
        let t = s.drop_last();
        assert forall|j: int| 0 <= j < t.len() implies is_digit(#[trigger] t[j]) by {
            assert(t[j] == s[j]);
        }
        lemma_digits_value_nonneg(t);
        assert(is_digit(s[s.len() - 1]));
    }
}

/// A text made only of digits keeps all of them.
pub proof fn lemma_keep_all_digits(s: Seq<char>)
    requires
        all_digits(s),
    ensures
        keep_digits(s) == s,
    decreases s.len(),
{
    if s.len() > 0 {
        let t = s.drop_last();
        assert forall|j: int| 0 <= j < t.len() implies is_digit(#[trigger] t[j]) by {
            assert(t[j] == s[j]);
        }
        lemma_keep_all_digits(t);
        assert(is_digit(s[s.len() - 1]));
        assert(t.push(s.last()) =~= s);
    }
}

/// Reading back the decimal writing of a number that fits in a `u32` gives
/// that number, whatever else the text is filtered through first.
pub proof fn law_decimal_round_trip(n: u32)
    ensures
        keep_digits(decimal(n as nat)) == decimal(n as nat),
        parse_u32_digits_spec(keep_digits(decimal(n as nat))) == Some(n),
{
    lemma_decimal_digits(n as nat);
    lemma_keep_all_digits(decimal(n as nat));
}

/// The character that writes the digit `d`.
fn digit_to_char(d: u64) -> (c: char)
    requires
        d < 10,
    ensures
        c == digit_char(d as int),
{
    let b: u8 = 48u8 + (d as u8);
    b as char
}

fn append_decimal(n: u64, out: &mut String)
    ensures
        final(out)@ == old(out)@ + decimal(n as nat),
    decreases n,
{
    if n >= 10 {
        append_decimal(n / 10, out);
    }
    let c = digit_to_char(n % 10);
    push_char(out, c);
    proof {
        if n >= 10 {
            assert(decimal(n as nat) == decimal((n / 10) as nat).push(digit_char((n % 10) as int)));
        }
    }
    assert(final(out)@ =~= old(out)@ + decimal(n as nat));
}

/// The decimal writing of `n` (what `n.to_string()` gives).
pub fn decimal_string(n: u64) -> (s: String)
    ensures
        s@ == decimal(n as nat),
{
    let mut s = String::new();
    append_decimal(n, &mut s);
    assert(s@ =~= decimal(n as nat));
    s
}


/// The digit characters of `s`, in order (`s.chars().filter(|c| c.is_ascii_digit())`).
pub fn keep_digit_chars(s: &str) -> (r: Vec<char>)
    ensures
        r@ == keep_digits(s@),
        all_digits(r@),
{
    let mut r: Vec<char> = Vec::new();
    let ghost text = s@;
    for c in it: s.chars()
        invariant
            it.seq() == text,
            r@ == keep_digits(text.take(it.index() as int)),
            all_digits(r@),
    {
        let ghost i = it.index() as int;
        proof {
            assert(text.take(i + 1).drop_last() =~= text.take(i));
            assert(text.take(i + 1).last() == c);
        }
        if '0' <= c && c <= '9' {
            r.push(c);
        }
    }
    proof {
        assert(text.take(text.len() as int) =~= text);
    }
    r
}

/// Reads a string of digits as a `u32`; `None` when it is empty or its value
/// does not fit (what `str::parse::<u32>` gives on such a string).
pub fn parse_u32_digits(d: &Vec<char>) -> (r: Option<u32>)
    requires
        all_digits(d@),
    ensures
        r == parse_u32_digits_spec(d@),
{
    if d.len() == 0 {
        return None;
    }
    let mut acc: u64 = 0;
    let mut i: usize = 0;
    while i < d.len()
        invariant
            0 <= i <= d@.len(),
            all_digits(d@),
            acc == digits_value(d@.take(i as int)),
            acc <= u32::MAX,
        decreases d@.len() - i,
    {
        let c = d[i];
        proof {
            assert(is_digit(d@[i as int]));
            assert(d@.take(i + 1).drop_last() =~= d@.take(i as int));
            assert(d@.take(i + 1).last() == c);
        }
        let dv: u64 = (c as u64) - 48;
        acc = acc * 10 + dv;
        if acc > 4294967295u64 {
            proof {
                lemma_digits_value_prefix(d@, i + 1);
            }
            return None;
        }
        i = i + 1;
    }
    proof {
        assert(d@.take(d@.len() as int) =~= d@);
    }
    Some(acc as u32)
}

} // verus!
