//! Decimal text: rendering integers and reading a port number.

use vstd::prelude::*;
use vstd::string::*;

verus! {

/// The character that writes the digit `d`.
pub open spec fn digit_char(d: nat) -> char
    recommends
        d < 10,
{
    if d == 0 {
        '0'
    } else if d == 1 {
        '1'
    } else if d == 2 {
        '2'
    } else if d == 3 {
        '3'
    } else if d == 4 {
        '4'
    } else if d == 5 {
        '5'
    } else if d == 6 {
        '6'
    } else if d == 7 {
        '7'
    } else if d == 8 {
        '8'
    } else {
        '9'
    }
}

/// `n` written in base ten, most significant digit first, without padding.
pub open spec fn decimal(n: nat) -> Seq<char>
    decreases n,
{
    if n < 10 {
        seq![digit_char(n)]
    } else {
        decimal(n / 10).push(digit_char(n % 10))
    }
}

/// `n` written in base ten, with a leading minus sign when negative.
pub open spec fn signed_decimal(n: int) -> Seq<char> {
    if n < 0 {
        seq!['-'] + decimal((-n) as nat)
    } else {
        decimal(n as nat)
    }
}

/// `c` is one of `0` to `9`.
pub open spec fn is_digit(c: char) -> bool {
    '0' <= c && c <= '9'
}

/// The number a digit character stands for.
pub open spec fn digit_value(c: char) -> nat
    recommends
        is_digit(c),
{
    (c as u32 - 48) as nat
}

/// `s` is a non-empty run of digits.
pub open spec fn is_decimal(s: Seq<char>) -> bool {
    s.len() > 0 && forall|i: int| 0 <= i < s.len() ==> is_digit(#[trigger] s[i])
}

/// The number that a run of digits writes; leading zeros count for nothing.
pub open spec fn decimal_value(s: Seq<char>) -> nat
    decreases s.len(),
{
    if s.len() == 0 {
        0
    } else {
        decimal_value(s.drop_last()) * 10 + digit_value(s.last())
    }
}

/// The port that `s` names: a run of digits whose value fits sixteen bits.
pub open spec fn parsed_port(s: Seq<char>) -> Option<u16> {
    if is_decimal(s) && decimal_value(s) <= u16::MAX {
        Some(decimal_value(s) as u16)
    } else {
        None
    }
}

fn digit_text(d: u64) -> (s: &'static str)
    requires
        d < 10,
    ensures
        s@ == seq![digit_char(d as nat)],
{
    proof {
        reveal_strlit("0");
        reveal_strlit("1");
        reveal_strlit("2");
        reveal_strlit("3");
        reveal_strlit("4");
        reveal_strlit("5");
        reveal_strlit("6");
        reveal_strlit("7");
        reveal_strlit("8");
        reveal_strlit("9");
    }
    if d == 0 {
        "0"
    } else if d == 1 {
        "1"
    } else if d == 2 {
        "2"
    } else if d == 3 {
        "3"
    } else if d == 4 {
        "4"
    } else if d == 5 {
        "5"
    } else if d == 6 {
        "6"
    } else if d == 7 {
        "7"
    } else if d == 8 {
        "8"
    } else {
        "9"
    }
}

/// Appends `n` in base ten to `out`.
pub fn append_decimal(out: &mut String, n: u64)
    ensures
        final(out)@ == old(out)@ + decimal(n as nat),
    decreases n,
{
    if n >= 10 {
        append_decimal(out, n / 10);
    }
    out.append(digit_text(n % 10));
    proof {
        let d = seq![digit_char((n % 10) as nat)];
        if n >= 10 {
            assert(decimal(n as nat) == decimal((n / 10) as nat) + d);
            assert(out@ == old(out)@ + decimal(n as nat));
        }
    }
}

/// Appends `n` in base ten to `out`, with a minus sign when negative.
pub fn append_signed_decimal(out: &mut String, n: i32)
    ensures
        final(out)@ == old(out)@ + signed_decimal(n as int),
{
    if n < 0 {
        proof {
            reveal_strlit("-");
        }
        out.append("-");
        let wide: i64 = n as i64;
        let magnitude: u64 = (-wide) as u64;
        append_decimal(out, magnitude);
        assert(out@ == old(out)@ + (seq!['-'] + decimal((-n) as nat)));
    } else {
        append_decimal(out, n as u64);
    }
}

/// A number of milliseconds written in seconds, with three decimals.
pub open spec fn seconds(ms: nat) -> Seq<char> {
    decimal(ms / 1000) + seq![
        '.',
        digit_char(ms % 1000 / 100),
        digit_char(ms % 100 / 10),
        digit_char(ms % 10),
    ]
}

/// Writes a number of milliseconds in seconds, with three decimals.
pub fn seconds_text(ms: u64) -> (text: String)
    ensures
        text@ == seconds(ms as nat),
{
    proof {
        reveal_strlit(".");
    }
    let mut text = String::new();
    append_decimal(&mut text, ms / 1000);
    text.append(".");
    text.append(digit_text(ms % 1000 / 100));
    text.append(digit_text(ms % 100 / 10));
    text.append(digit_text(ms % 10));
    text
}

/// The port number as the child expects it on its command line.
pub fn port_text(port: u16) -> (text: String)
    ensures
        text@ == decimal(port as nat),
{
    let mut text = String::new();
    append_decimal(&mut text, port as u64);
    text
}

/// Dropping trailing digits never makes the number larger.
proof fn lemma_prefix_value_bounded(s: Seq<char>, k: int)
    requires
        0 <= k <= s.len(),
    ensures
        decimal_value(s.subrange(0, k)) <= decimal_value(s),
    decreases s.len() - k,
{
    if k == s.len() {
        assert(s.subrange(0, k) == s);
    } else {
        lemma_prefix_value_bounded(s.drop_last(), k);
        assert(s.drop_last().subrange(0, k) == s.subrange(0, k));
    }
}

/// Reads a port number: digits only, value at most 65535.
pub fn parse_port(text: &str) -> (port: Option<u16>)
    ensures
        port == parsed_port(text@),
{
    if !text.is_ascii() {
        proof {
            let i = choose|i: int| 0 <= i < text@.len() && !('\0' <= #[trigger] text@[i] && text@[i]
                <= '\u{7f}');
            assert(!is_digit(text@[i]));
        }
        return None;
    }
    let len = text.unicode_len();
    if len == 0 {
        return None;
    }
    let mut value: u32 = 0;
    let mut i: usize = 0;
    while i < len
        invariant
            len == text@.len(),
            text.is_ascii(),
            i <= len,
            value <= u16::MAX,
            value == decimal_value(text@.subrange(0, i as int)),
            forall|j: int| 0 <= j < i ==> is_digit(#[trigger] text@[j]),
        decreases len - i,
    {
        let byte = text.get_ascii(i);
        if byte < 48 || byte > 57 {
            assert(!is_digit(text@[i as int]));
            return None;
        }
        let next: u32 = value * 10 + (byte as u32 - 48);
        proof {
            let p = text@.subrange(0, i as int + 1);
            assert(p.drop_last() == text@.subrange(0, i as int));
            assert(p.last() == text@[i as int]);
            assert(decimal_value(p) == next);
            assert(is_digit(text@[i as int]));
        }
        if next > 65535 {
            proof {
                lemma_prefix_value_bounded(text@, i as int + 1);
            }
            return None;
        }
        value = next;
        i = i + 1;
    }
    proof {
        assert(text@.subrange(0, len as int) == text@);
    }
    Some(value as u16)
}

/// Digits written by [`decimal`] are digits.
proof fn lemma_digit_char_is_digit(d: nat)
    requires
        d < 10,
    ensures
        is_digit(digit_char(d)),
        digit_value(digit_char(d)) == d,
{
}

/// Reading what was written gives the number back.
pub proof fn lemma_decimal_round_trip(n: nat)
    ensures
        is_decimal(decimal(n)),
        decimal_value(decimal(n)) == n,
    decreases n,
{
    lemma_digit_char_is_digit(n % 10);
    if n < 10 {
        let s = decimal(n);
        assert(s.drop_last().len() == 0);
        assert(decimal_value(s.drop_last()) == 0);
    } else {
        lemma_decimal_round_trip(n / 10);
        let s = decimal(n);
        assert(s.drop_last() == decimal(n / 10));
        assert(s.last() == digit_char(n % 10));
    }
}

/// A port written by [`port_text`] is read back by [`parse_port`].
pub proof fn lemma_port_round_trip(port: u16)
    ensures
        parsed_port(decimal(port as nat)) == Some(port),
{
    lemma_decimal_round_trip(port as nat);
}

} // verus!
