//! Hexadecimal and decimal rendering and parsing of the addresses, sizes and
//! segment values the board model hands to its callers.

use vstd::prelude::*;

verus! {

/// Character for one digit value below 16, lower case.
pub open spec fn digit_char(d: int) -> char {
    if d == 0 {
        '0'
    } else if d == 1 {
        '1'
    } else if d == 2 {
        '2'
    } else if d == 3 {
        '3'
    } else if d == 4 {
        '4'
    } else if d == 5 {
        '5'
    } else if d == 6 {
        '6'
    } else if d == 7 {
        '7'
    } else if d == 8 {
        '8'
    } else if d == 9 {
        '9'
    } else if d == 10 {
        'a'
    } else if d == 11 {
        'b'
    } else if d == 12 {
        'c'
    } else if d == 13 {
        'd'
    } else if d == 14 {
        'e'
    } else {
        'f'
    }
}

/// Hexadecimal digits of `v`, most significant first, no leading zeros
/// (a single zero for `v == 0`).
pub open spec fn spec_hex_digits(v: int) -> Seq<char>
    recommends
        v >= 0,
    decreases v,
{
    if v < 16 {
        seq![digit_char(v)]
    } else {
        spec_hex_digits(v / 16).push(digit_char(v % 16))
    }
}

/// Decimal digits of `v`, most significant first.
pub open spec fn spec_dec_digits(v: int) -> Seq<char>
    recommends
        v >= 0,
    decreases v,
{
    if v < 10 {
        seq![digit_char(v)]
    } else {
        spec_dec_digits(v / 10).push(digit_char(v % 10))
    }
}

/// `v` in hexadecimal with a `0x` prefix, the digits zero-padded on the left
/// to at least `min_digits`.
pub open spec fn spec_hex_format(v: int, min_digits: int) -> Seq<char> {
    let digits = spec_hex_digits(v);
    let pad = if digits.len() < min_digits {
        min_digits - digits.len()
    } else {
        0
    };
    seq!['0', 'x'] + Seq::new(pad as nat, |i: int| '0') + digits
}

fn digit_str(d: u64) -> (r: &'static str)
    requires
        d < 16,
    ensures
        r@ == seq![digit_char(d as int)],
{
    let r = match d {
        0 => "0",
        1 => "1",
        2 => "2",
        3 => "3",
        4 => "4",
        5 => "5",
        6 => "6",
        7 => "7",
        8 => "8",
        9 => "9",
        10 => "a",
        11 => "b",
        12 => "c",
        13 => "d",
        14 => "e",
        _ => "f",
    };
    proof {
        reveal_strlit("0");
        reveal_strlit("1");
        reveal_strlit("2");
        reveal_strlit("3");
        reveal_strlit("4");
        reveal_strlit("5");
        reveal_strlit("6");
        reveal_strlit("7");
        reveal_strlit("8");
        reveal_strlit("9");
        reveal_strlit("a");
        reveal_strlit("b");
        reveal_strlit("c");
        reveal_strlit("d");
        reveal_strlit("e");
        reveal_strlit("f");
    }
    r
}

/// The bare hexadecimal digits of `v`, lower case, most significant first.
pub fn u64_to_hex_digits(v: u64) -> (r: String)
    ensures
        r@ == spec_hex_digits(v as int),
    decreases v,
{
    if v < 16 {
        String::from_str(digit_str(v))
    } else {
        let mut s = u64_to_hex_digits(v / 16);
        s.append(digit_str(v % 16));
        proof {
            assert(s@ =~= spec_hex_digits((v / 16) as int).push(digit_char((v % 16) as int)));
        }
        s
    }
}

/// The decimal digits of `v`, most significant first.
pub fn u64_to_dec_digits(v: u64) -> (r: String)
    ensures
        r@ == spec_dec_digits(v as int),
    decreases v,
{
    if v < 10 {
        String::from_str(digit_str(v))
    } else {
        let mut s = u64_to_dec_digits(v / 10);
        s.append(digit_str(v % 10));
        proof {
            assert(s@ =~= spec_dec_digits((v / 10) as int).push(digit_char((v % 10) as int)));
        }
        s
    }
}

/// `v` as `0x`-prefixed hexadecimal, zero-padded to at least `min_digits`
/// digits.
pub fn format_hex(v: u64, min_digits: usize) -> (r: String)
    ensures
        r@ == spec_hex_format(v as int, min_digits as int),
{
    let digits = u64_to_hex_digits(v);
    let digits_len = digits.as_str().unicode_len();
    let mut s = String::from_str("0x");
    proof {
        reveal_strlit("0x");
        assert(s@ =~= seq!['0', 'x'] + Seq::new(0nat, |i: int| '0'));
    }
    let mut pad: usize = 0;
    let needed: usize = if digits_len < min_digits {
        min_digits - digits_len
    } else {
        0
    };
    while pad < needed
        invariant
            pad <= needed,
            needed == (if spec_hex_digits(v as int).len() < min_digits {
                min_digits - spec_hex_digits(v as int).len()
            } else {
                0
            }),
            s@ =~= seq!['0', 'x'] + Seq::new(pad as nat, |i: int| '0'),
        decreases needed - pad,
    {
        s.append("0");
        proof {
            reveal_strlit("0");
            assert(s@ =~= seq!['0', 'x'] + Seq::new((pad + 1) as nat, |i: int| '0'));
        }
        pad += 1;
    }
    s.append(digits.as_str());
    proof {
        assert(s@ =~= spec_hex_format(v as int, min_digits as int));
    }
    s
}

/// `c` is a hexadecimal digit, either case.
pub open spec fn is_hex_digit_char(c: char) -> bool {
    (48 <= c as u32 && c as u32 <= 57) || (97 <= c as u32 && c as u32 <= 102) || (65 <= c as u32
        && c as u32 <= 70)
}

/// Value of the hexadecimal digit `c`.
pub open spec fn hex_char_val(c: char) -> int
    recommends
        is_hex_digit_char(c),
{
    if 48 <= c as u32 && c as u32 <= 57 {
        c as u32 - 48
    } else if 97 <= c as u32 && c as u32 <= 102 {
        c as u32 - 97 + 10
    } else {
        c as u32 - 65 + 10
    }
}

/// Value of a sequence of hexadecimal digits, most significant first.
pub open spec fn spec_hex_value(s: Seq<char>) -> int
    decreases s.len(),
{
    if s.len() == 0 {
        0
    } else {
        spec_hex_value(s.drop_last()) * 16 + hex_char_val(s.last())
    }
}

/// Every character of `s` is a hexadecimal digit.
pub open spec fn all_hex_digits(s: Seq<char>) -> bool {
    forall|i: int| 0 <= i < s.len() ==> is_hex_digit_char(#[trigger] s[i])
}

/// What parsing `s` as a base-16 `u64` yields: an optional leading `+`,
/// then at least one hexadecimal digit, and a value that fits in 64 bits;
/// anything else is rejected.
pub open spec fn spec_parse_hex(s: Seq<char>) -> Option<u64> {
    let t = if s.len() > 0 && s[0] == '+' {
        s.drop_first()
    } else {
        s
    };
    if t.len() > 0 && all_hex_digits(t) && spec_hex_value(t) <= u64::MAX {
        Some(spec_hex_value(t) as u64)
    } else {
        None
    }
}

fn hex_digit_val(c: char) -> (r: Option<u64>)
    ensures
        r is Some <==> is_hex_digit_char(c),
        r is Some ==> r->0 == hex_char_val(c),
{
    let u = c as u32;
    if 48 <= u && u <= 57 {
        Some((u - 48) as u64)
    } else if 97 <= u && u <= 102 {
        Some((u - 97 + 10) as u64)
    } else if 65 <= u && u <= 70 {
        Some((u - 65 + 10) as u64)
    } else {
        None
    }
}

/// Parses `s` as a base-16 `u64`: an optional leading `+`, then at least one
/// hexadecimal digit; rejects anything else and values over 64 bits.
pub fn parse_hex_u64(s: &str) -> (r: Option<u64>)
    ensures
        r == spec_parse_hex(s@),
{
    let len = s.unicode_len();
    let start: usize = if len > 0 && s.get_char(0) == '+' {
        1
    } else {
        0
    };
    let ghost t: Seq<char> = if s@.len() > 0 && s@[0] == '+' {
        s@.drop_first()
    } else {
        s@
    };
    if len == start {
        return None;
    }
    let mut i: usize = start;
    let mut acc: u64 = 0;
    let mut overflowed: bool = false;
    while i < len
        invariant
            start <= i <= len,
            start == 0 || start == 1,
            start < len,
            len == s@.len(),
            start == 1 ==> s@.len() > 0 && s@[0] == '+',
            start == 0 ==> !(s@.len() > 0 && s@[0] == '+'),
            t == s@.subrange(start as int, len as int),
            forall|j: int| 0 <= j < i - start ==> is_hex_digit_char(#[trigger] t[j]),
            !overflowed ==> acc == spec_hex_value(t.take(i - start)),
            overflowed ==> spec_hex_value(t.take(i - start)) > u64::MAX,
        decreases len - i,
    {
        let c = s.get_char(i);
        match hex_digit_val(c) {
            None => {
                proof {
                    let t2 = if s@.len() > 0 && s@[0] == '+' {
                        s@.drop_first()
                    } else {
                        s@
                    };
                    assert(t2 =~= t);
                    assert(!is_hex_digit_char(t2[i - start]));
                    assert(!all_hex_digits(t2));
                }
                return None;
            },
            Some(d) => {
                proof {
                    assert(t.take(i + 1 - start).drop_last() =~= t.take(i - start));
                    assert(t.take(i + 1 - start).last() == t[i - start]);
                }
                if overflowed {
                    proof {
                        assert(spec_hex_value(t.take(i + 1 - start)) > u64::MAX);
                    }
                } else {
                    match acc.checked_mul(16) {
                        None => {
                            overflowed = true;
                        },
                        Some(m) => match m.checked_add(d) {
                            None => {
                                overflowed = true;
                            },
                            Some(a) => {
                                acc = a;
                            },
                        },
                    }
                }
            },
        }
        i += 1;
    }
    proof {
        assert(t.take(len - start) =~= t);
    }
    if overflowed {
        None
    } else {
        Some(acc)
    }
}

/// `s` with every leading `0x` removed, as the wizard does before parsing a
/// user-entered hexadecimal number.
pub open spec fn spec_strip_hex_prefixes(s: Seq<char>) -> Seq<char>
    decreases s.len(),
{
    if s.len() >= 2 && s[0] == '0' && s[1] == 'x' {
        spec_strip_hex_prefixes(s.skip(2))
    } else {
        s
    }
}

/// Removes every leading `0x` from `s`.
pub fn strip_hex_prefixes(s: &str) -> (r: &str)
    ensures
        r@ == spec_strip_hex_prefixes(s@),
{
    let mut t: &str = s;
    let mut len = t.unicode_len();
    while len >= 2 && t.get_char(0) == '0' && t.get_char(1) == 'x'
        invariant
            len == t@.len(),
            spec_strip_hex_prefixes(t@) == spec_strip_hex_prefixes(s@),
        decreases len,
    {
        t = t.substring_char(2, len);
        len = len - 2;
    }
    t
}

} // verus!
