//! The broker port, read from configuration text.
use vstd::prelude::*;
use vstd::string::StringSliceAdditionalSpecFns;

verus! {

/// Largest port number.
pub const PORT_MAX: u32 = 65_535;

/// `b` is one of the ASCII digits `0` to `9`.
pub open spec fn is_digit(b: u8) -> bool {
    0x30 <= b <= 0x39
}

/// Every byte of `s` is an ASCII digit.
pub open spec fn all_digits(s: Seq<u8>) -> bool {
    forall|i: int| 0 <= i < s.len() ==> is_digit(#[trigger] s[i])
}

/// The number that the digits `s` write in base ten.
pub open spec fn decimal_value(s: Seq<u8>) -> nat
    decreases s.len(),
{
    if s.len() == 0 {
        0
    } else {
        decimal_value(s.drop_last()) * 10 + (s.last() - 0x30) as nat
    }
}

/// `text` without one leading `+`, if it has one.
pub open spec fn unsigned_part(text: Seq<u8>) -> Seq<u8> {
    if text.len() > 0 && text[0] == 0x2B {
        text.subrange(1, text.len() as int)
    } else {
        text
    }
}

/// The port that `text` denotes: an optional `+`, then at least one digit and
/// nothing but digits, with a value of at most 65535. Leading zeros count for
/// nothing. Any other text denotes no port.
pub open spec fn port_of(text: Seq<u8>) -> Option<u16> {
    let digits = unsigned_part(text);
    if digits.len() > 0 && all_digits(digits) && decimal_value(digits) <= PORT_MAX {
        Some(decimal_value(digits) as u16)
    } else {
        None
    }
}

/// A number never shrinks when digits are appended to it.
pub proof fn lemma_decimal_value_grows(s: Seq<u8>, n: int)
    requires
        0 <= n <= s.len(),
        all_digits(s),
    ensures
        decimal_value(s.subrange(0, n)) <= decimal_value(s),
    decreases s.len() - n,
{
    if n == s.len() {
        assert(s.subrange(0, n) =~= s);
    } else {
        let longer = s.subrange(0, n + 1);
        assert(longer.drop_last() =~= s.subrange(0, n));
        assert(longer.last() == s[n]);
        assert(is_digit(s[n]));
        lemma_decimal_value_grows(s, n + 1);
    }
}

/// Reads a port number from configuration text.
pub fn parse_port(text: &str) -> (port: Option<u16>)
    ensures
        port == port_of(text.spec_bytes()),
{
    let bytes = text.as_bytes();
    let n: usize = bytes.len();
    let start: usize = if n > 0 && bytes[0] == 0x2B {
        1
    } else {
        0
    };
    let ghost digits = unsigned_part(bytes@);
    assert(digits =~= bytes@.subrange(start as int, n as int));
    if start == n {
        return None;
    }
    let mut value: u32 = 0;
    let mut i: usize = start;
    while i < n
        invariant
            start <= i <= n,
            n == bytes@.len(),
            bytes@ == text.spec_bytes(),
            digits == unsigned_part(bytes@),
            digits == bytes@.subrange(start as int, n as int),
            all_digits(digits.subrange(0, i - start)),
            value == decimal_value(digits.subrange(0, i - start)),
            value <= PORT_MAX,
        decreases n - i,
    {
        let b: u8 = bytes[i];
        if b < 0x30 || b > 0x39 {
            assert(!is_digit(digits[i - start]));
            return None;
        }
        let ghost seen = digits.subrange(0, i - start + 1);
        assert(seen.drop_last() =~= digits.subrange(0, i - start));
        assert(seen.last() == b);
        value = value * 10 + (b - 0x30) as u32;
        if value > PORT_MAX {
            proof {
                if all_digits(digits) {
                    lemma_decimal_value_grows(digits, i - start + 1);
                }
            }
            return None;
        }
        i = i + 1;
    }
    assert(digits.subrange(0, i - start) =~= digits);
    Some(value as u16)
}

} // verus!
