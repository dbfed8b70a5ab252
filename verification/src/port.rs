//! The listening port: a decimal setting, or the default when the setting is
//! absent or is not a port number.

use vstd::prelude::*;
use vstd::string::*;

verus! {

/// The port the server listens on when no usable setting is given.
pub const DEFAULT_PORT: u16 = 42069;

/// `c` is one of the ten decimal digits.
pub open spec fn is_digit(c: char) -> bool {
    '0' <= c <= '9'
}

/// The number a decimal digit stands for.
pub open spec fn digit_value(c: char) -> nat {
    (c as u32 - '0' as u32) as nat
}

/// Every character of `s` is a decimal digit.
pub open spec fn all_digits(s: Seq<char>) -> bool {
    forall|i: int| 0 <= i < s.len() ==> is_digit(#[trigger] s[i])
}

/// The number that a run of decimal digits denotes, most significant digit first.
pub open spec fn decimal_value(digits: Seq<char>) -> nat
    decreases digits.len(),
{
    if digits.len() == 0 {
        0
    } else {
        decimal_value(digits.drop_last()) * 10 + digit_value(digits.last())
    }
}

/// `text` without its leading plus sign, if it has one.
pub open spec fn unsigned_part(text: Seq<char>) -> Seq<char> {
    if text.len() > 0 && text[0] == '+' {
        text.skip(1)
    } else {
        text
    }
}

/// The port that `text` denotes: an optional `+`, then at least one decimal
/// digit and nothing else, with a value that fits sixteen bits.
pub open spec fn port_of_text(text: Seq<char>) -> Option<u16> {
    let digits = unsigned_part(text);
    if digits.len() > 0 && all_digits(digits) && decimal_value(digits) <= u16::MAX {
        Some(decimal_value(digits) as u16)
    } else {
        None
    }
}

/// The port to listen on for a setting that may be absent.
pub open spec fn port_of_setting(setting: Option<Seq<char>>) -> u16 {
    match setting {
        Some(text) => match port_of_text(text) {
            Some(port) => port,
            None => DEFAULT_PORT,
        },
        None => DEFAULT_PORT,
    }
}

/// The characters of a setting that may be absent.
pub open spec fn setting_text(setting: Option<&str>) -> Option<Seq<char>> {
    match setting {
        Some(text) => Some(text@),
        None => None,
    }
}

/// A run of digits is worth at least as much as any of its prefixes.
proof fn lemma_prefix_value(digits: Seq<char>, k: int)
    requires
        0 <= k <= digits.len(),
    ensures
        decimal_value(digits.take(k)) <= decimal_value(digits),
    decreases digits.len() - k,
{
    if k == digits.len() {
        assert(digits.take(k) =~= digits);
    } else {
        lemma_prefix_value(digits, k + 1);
        assert(digits.take(k + 1).drop_last() =~= digits.take(k));
    }
}

/// Reads a port number from `text`.
pub fn parse_port(text: &str) -> (port: Option<u16>)
    ensures
        port == port_of_text(text@),
{
    if !text.is_ascii() {
        proof {
            let i = choose|i: int|
                #![trigger text@[i]]
                0 <= i < text@.len() && !('\0' <= text@[i] <= '\u{7f}');
            let digits = unsigned_part(text@);
            if text@[0] == '+' {
                assert(digits[i - 1] == text@[i]);
                assert(!is_digit(digits[i - 1]));
            } else {
                assert(!is_digit(digits[i]));
            }
        }
        return None;
    }
    let bytes = text.as_bytes();
    proof {
        is_ascii_spec_bytes(text);
    }
    let n: usize = bytes.len();
    let start: usize = if n > 0 && bytes[0] == 43u8 {
        1
    } else {
        0
    };
    let ghost digits = unsigned_part(text@);
    assert(digits =~= text@.skip(start as int));
    if start == n {
        return None;
    }
    let mut value: u32 = 0;
    let mut i: usize = start;
    while i < n
        invariant
            start <= i <= n,
            n == text@.len(),
            bytes@.len() == n,
            forall|j: int| 0 <= j < n ==> bytes@[j] == text@[j] as u8,
            forall|j: int| 0 <= j < n ==> '\0' <= #[trigger] text@[j] <= '\u{7f}',
            digits == unsigned_part(text@),
            digits == text@.skip(start as int),
            all_digits(digits.take(i - start)),
            value == decimal_value(digits.take(i - start)),
            value <= u16::MAX,
        decreases n - i,
    {
        let b: u8 = bytes[i];
        let ghost c = text@[i as int];
        assert(digits[i - start] == c);
        if b < 48u8 || b > 57u8 {
            assert(!is_digit(c));
            return None;
        }
        assert(is_digit(c));
        let d: u32 = (b - 48u8) as u32;
        assert(d == digit_value(c));
        let ghost next = digits.take(i - start + 1);
        assert(next.drop_last() =~= digits.take(i - start));
        assert(next.last() == c);
        value = value * 10 + d;
        assert(value == decimal_value(next));
        if value > 65535u32 {
            proof {
                if all_digits(digits) {
                    lemma_prefix_value(digits, i - start + 1);
                }
            }
            return None;
        }
        i = i + 1;
    }
    assert(digits.take(n - start) =~= digits);
    Some(value as u16)
}

/// The port to listen on: the one `setting` denotes, or [`DEFAULT_PORT`] when
/// the setting is absent or does not denote a port.
pub fn resolve_port(setting: Option<&str>) -> (port: u16)
    ensures
        port == port_of_setting(setting_text(setting)),
{
    match setting {
        Some(text) => match parse_port(text) {
            Some(port) => port,
            None => DEFAULT_PORT,
        },
        None => DEFAULT_PORT,
    }
}

} // verus!
