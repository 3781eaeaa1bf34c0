//! Decimal parsing and rendering over character sequences.

use vstd::prelude::*;

verus! {

/// Whether `c` is a decimal digit.
pub open spec fn is_dec_digit(c: char) -> bool {
    ('0' as u32) <= (c as u32) <= ('9' as u32)
}

/// The numeric value of a digit character.
pub open spec fn digit_val(c: char) -> nat {
    ((c as u32) - ('0' as u32)) as nat
}

/// Whether `s` is a non-empty run of decimal digits.
pub open spec fn all_dec_digits(s: Seq<char>) -> bool {
    forall|i: int| 0 <= i < s.len() ==> is_dec_digit(s[i])
}

/// The value of a digit string, most significant digit first.
pub open spec fn dec_value(s: Seq<char>) -> nat
    decreases s.len(),
{
    if s.len() == 0 {
        0
    } else {
        dec_value(s.drop_last()) * 10 + digit_val(s.last())
    }
}

/// The digit part of a decimal literal: everything after one optional
/// leading `+`, as the standard library's integer parsing accepts.
pub open spec fn dec_digits_of(s: Seq<char>) -> Seq<char> {
    if s.len() > 0 && s[0] == '+' {
        s.skip(1)
    } else {
        s
    }
}

/// Whether `s` parses as a `u64`: an optional `+`, then at least one digit,
/// and a value within range.
pub open spec fn parses_as_u64(s: Seq<char>) -> bool {
    &&& dec_digits_of(s).len() > 0
    &&& all_dec_digits(dec_digits_of(s))
    &&& dec_value(dec_digits_of(s)) <= u64::MAX
}

/// A digit string's value only grows as digits are appended: every prefix's
/// value is at most the whole string's value.
proof fn lemma_dec_value_prefix(s: Seq<char>, i: int)
    requires
        0 <= i <= s.len(),
    ensures
        dec_value(s.take(i)) <= dec_value(s),
    decreases s.len(),
{
    if i < s.len() {
        assert(s.take(i) =~= s.drop_last().take(i));
        lemma_dec_value_prefix(s.drop_last(), i);
        assert(dec_value(s) == dec_value(s.drop_last()) * 10 + digit_val(s.last()));
        assert(dec_value(s.drop_last()) * 10 >= dec_value(s.drop_last()));
    } else {
        assert(s.take(i) =~= s);
    }
}

/// Parses a decimal `u64` as the standard library does: an optional leading
/// `+`, then one or more digits; anything else, an empty digit run, or a
/// value over `u64::MAX` is rejected.
pub fn parse_u64(s: &str) -> (r: Option<u64>)
    ensures
        r is Some <==> parses_as_u64(s@),
        r is Some ==> r->0 == dec_value(dec_digits_of(s@)),
{
    let n = s.unicode_len();
    let start: usize = if n > 0 && s.get_char(0) == '+' {
        1
    } else {
        0
    };
    let ghost body = dec_digits_of(s@);
    proof {
        assert(body =~= s@.skip(start as int));
    }
    if n == start {
        return None;
    }
    let mut val: u64 = 0;
    let mut i: usize = start;
    while i < n
        invariant
            start <= i <= n,
            n == s@.len(),
            start <= 1,
            body == dec_digits_of(s@),
            body == s@.skip(start as int),
            all_dec_digits(body.take(i - start)),
            val == dec_value(body.take(i - start)),
        decreases n - i,
    {
        let c = s.get_char(i);
        let u = c as u32;
        if u < 48 || u > 57 {
            proof {
                assert(body[i - start] == s@[i as int]);
                assert(!is_dec_digit(body[i - start]));
                assert(!all_dec_digits(body));
                assert(!parses_as_u64(s@));
            }
            return None;
        }
        let d = (u - 48) as u64;
        proof {
            assert(body[i - start] == s@[i as int]);
            assert(is_dec_digit(s@[i as int]));
            assert(body.take(i + 1 - start) =~= body.take(i - start).push(body[i - start]));
            assert(body.take(i + 1 - start).drop_last() =~= body.take(i - start));
        }
        let next = match val.checked_mul(10) {
            Some(v) => v.checked_add(d),
            None => None,
        };
        match next {
            Some(v) => {
                val = v;
            },
            None => {
                proof {
                    assert(dec_value(body.take(i + 1 - start)) > u64::MAX);
                    lemma_dec_value_prefix(body, i + 1 - start);
                    assert(dec_value(body) > u64::MAX);
                    assert(!parses_as_u64(s@));
                }
                return None;
            },
        }
        i = i + 1;
    }
    proof {
        assert(body.take(n - start) =~= body);
    }
    Some(val)
}

/// The digit character for a value below ten.
pub open spec fn digit_char(d: nat) -> char {
    if d == 0 {
        '0'
    } else if d == 1 {
        '1'
    } else if d == 2 {
        '2'
    } else if d == 3 {
        '3'
    } else if d == 4 {
        '4'
    } else if d == 5 {
        '5'
    } else if d == 6 {
        '6'
    } else if d == 7 {
        '7'
    } else if d == 8 {
        '8'
    } else {
        '9'
    }
}

/// The lower-case hexadecimal digit character for a value below sixteen.
pub open spec fn hex_digit(d: nat) -> char {
    if d < 10 {
        digit_char(d)
    } else if d == 10 {
        'a'
    } else if d == 11 {
        'b'
    } else if d == 12 {
        'c'
    } else if d == 13 {
        'd'
    } else if d == 14 {
        'e'
    } else {
        'f'
    }
}

/// The lower-case hexadecimal digit for `d`, as a string.
pub fn hex_digit_str(d: u32) -> (r: &'static str)
    requires
        d < 16,
    ensures
        r@ == seq![hex_digit(d as nat)],
{
    if d < 10 {
        digit_str(d as u64)
    } else {
        proof {
            reveal_strlit("a");
            reveal_strlit("b");
            reveal_strlit("c");
            reveal_strlit("d");
            reveal_strlit("e");
            reveal_strlit("f");
        }
        match d {
            10 => "a",
            11 => "b",
            12 => "c",
            13 => "d",
            14 => "e",
            _ => "f",
        }
    }
}

/// The decimal rendering of `n`, without sign or leading zeros.
pub open spec fn dec_repr(n: nat) -> Seq<char>
    decreases n,
{
    if n < 10 {
        seq![digit_char(n)]
    } else {
        dec_repr(n / 10) + seq![digit_char(n % 10)]
    }
}

/// The decimal digit for `d`, as a string.
pub fn digit_str(d: u64) -> (r: &'static str)
    requires
        d < 10,
    ensures
        r@ == seq![digit_char(d as nat)],
{
    proof {
        reveal_strlit("0");
        reveal_strlit("1");
        reveal_strlit("2");
        reveal_strlit("3");
        reveal_strlit("4");
        reveal_strlit("5");
        reveal_strlit("6");
        reveal_strlit("7");
        reveal_strlit("8");
        reveal_strlit("9");
    }
    match d {
        0 => "0",
        1 => "1",
        2 => "2",
        3 => "3",
        4 => "4",
        5 => "5",
        6 => "6",
        7 => "7",
        8 => "8",
        _ => "9",
    }
}

/// Renders `n` in decimal.
pub fn u64_to_string(n: u64) -> (s: String)
    ensures
        s@ == dec_repr(n as nat),
{
    if n < 10 {
        return digit_str(n).to_owned();
    }
    let mut out = digit_str(n % 10).to_owned();
    let mut rest = n / 10;
    while rest >= 10
        invariant
            dec_repr(n as nat) == dec_repr(rest as nat) + out@,
            rest >= 1,
        decreases rest,
    {
        let d = rest % 10;
        out = digit_str(d).to_owned().concat(out.as_str());
        proof {
            assert(dec_repr(rest as nat) == dec_repr((rest / 10) as nat) + seq![
                digit_char((rest % 10) as nat)
            ]);
            assert(dec_repr((rest / 10) as nat) + (seq![digit_char((rest % 10) as nat)] + out@)
                =~= (dec_repr((rest / 10) as nat) + seq![digit_char((rest % 10) as nat)]) + out@);
        }
        rest = rest / 10;
    }
    let r = digit_str(rest).to_owned().concat(out.as_str());
    proof {
        assert(dec_repr(rest as nat) == seq![digit_char(rest as nat)]);
    }
    r
}

} // verus!
