//! Addresses as text: `0x` and sixteen hexadecimal digits.

use vstd::prelude::*;
use vstd::string::StringExecFns;

verus! {

/// Sixteen to the power of `exponent`.
pub open spec fn spec_power_16(exponent: nat) -> int
    decreases exponent,
{
    if exponent == 0 {
        1
    } else {
        16 * spec_power_16((exponent - 1) as nat)
    }
}

/// The hexadecimal digit for a value below sixteen, in lower case.
pub open spec fn spec_digit(value: int) -> char {
    seq!['0', '1', '2', '3', '4', '5', '6', '7', '8', '9', 'a', 'b', 'c', 'd', 'e', 'f'][value]
}

/// The text of `number`: the prefix `0x`, then sixteen hexadecimal digits in
/// lower case, the most significant first, with leading zeros.
pub open spec fn spec_hex(number: u64) -> Seq<char> {
    seq!['0', 'x'] + Seq::new(16, |i: int| spec_hex_digit(number, i))
}

/// The digit of `number` at `place`, the most significant at place zero:
/// the digit for the number divided by sixteen to the power of the places
/// that follow, modulo sixteen.
pub open spec fn spec_hex_digit(number: u64, place: int) -> char {
    spec_digit((number as int / spec_power_16((15 - place) as nat)) % 16)
}

/// The digit for a value below sixteen, as text.
pub(crate) fn digit(value: u64) -> (digit: &'static str)
    requires
        value < 16,
    ensures
        digit@ == seq![spec_digit(value as int)],
{
    proof {
        reveal_strlit("0");
        reveal_strlit("1");
        reveal_strlit("2");
        reveal_strlit("3");
        reveal_strlit("4");
        reveal_strlit("5");
        reveal_strlit("6");
        reveal_strlit("7");
        reveal_strlit("8");
        reveal_strlit("9");
        reveal_strlit("a");
        reveal_strlit("b");
        reveal_strlit("c");
        reveal_strlit("d");
        reveal_strlit("e");
        reveal_strlit("f");
    }
    let digit = match value {
        0 => "0",
        1 => "1",
        2 => "2",
        3 => "3",
        4 => "4",
        5 => "5",
        6 => "6",
        7 => "7",
        8 => "8",
        9 => "9",
        10 => "a",
        11 => "b",
        12 => "c",
        13 => "d",
        14 => "e",
        _ => "f",
    };
    assert(digit@ =~= seq![spec_digit(value as int)]);
    digit
}

/// Writes `number` out as text: `0x` and sixteen hexadecimal digits in lower
/// case, with leading zeros.
pub fn serialize(number: u64) -> (text: String)
    ensures
        text@ == spec_hex(number),
{
    proof {
        reveal_strlit("0x");
    }
    let mut text = String::from_str("0x");
    assert(text@ =~= seq!['0', 'x']);
    let mut divisor: u64 = 0x1000_0000_0000_0000;
    let mut i: usize = 0;
    proof {
        reveal_with_fuel(spec_power_16, 16);
        assert(spec_power_16(15) == 0x1000_0000_0000_0000);
    }
    while i < 16
        invariant
            0 <= i <= 16,
            i < 16 ==> divisor == spec_power_16((15 - i) as nat),
            divisor > 0,
            text@.len() == 2 + i,
            text@[0] == '0',
            text@[1] == 'x',
            forall|k: int| 2 <= k < 2 + i ==> text@[k] == spec_hex_digit(number, k - 2),
        decreases 16 - i,
    {
        text.append(digit((number / divisor) % 16));
        i += 1;
        if i < 16 {
            proof {
                assert(spec_power_16((16 - i) as nat) == 16 * spec_power_16((15 - i) as nat));
            }
            divisor = divisor / 16;
        }
    }
    assert(text@ =~= spec_hex(number));
    text
}

} // verus!
