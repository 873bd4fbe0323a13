//! Number formatting for messages.
//!
//! Decimal and fixed-width hexadecimal rendering of unsigned integers, proved
//! against their mathematical definitions, so that every message this crate
//! builds has an exact text.

use vstd::prelude::*;
use vstd::string::StringExecFns;

verus! {

/// The character that stands for the digit `d`, in lower case for `d >= 10`.
pub open spec fn digit_char(d: nat) -> char {
    if d == 0 {
        '0'
    } else if d == 1 {
        '1'
    } else if d == 2 {
        '2'
    } else if d == 3 {
        '3'
    } else if d == 4 {
        '4'
    } else if d == 5 {
        '5'
    } else if d == 6 {
        '6'
    } else if d == 7 {
        '7'
    } else if d == 8 {
        '8'
    } else if d == 9 {
        '9'
    } else if d == 10 {
        'a'
    } else if d == 11 {
        'b'
    } else if d == 12 {
        'c'
    } else if d == 13 {
        'd'
    } else if d == 14 {
        'e'
    } else {
        'f'
    }
}

/// `n` in decimal, without leading zeros (`0` itself is a single digit).
pub open spec fn decimal(n: nat) -> Seq<char>
    decreases n,
{
    if n < 10 {
        seq![digit_char(n)]
    } else {
        decimal(n / 10).push(digit_char(n % 10))
    }
}

/// `n` in lower-case hexadecimal, zero-padded on the left to at least `width`
/// digits (and never shorter than one digit).
pub open spec fn hex_padded(n: nat, width: nat) -> Seq<char>
    decreases n + width,
{
    if n < 16 && width <= 1 {
        seq![digit_char(n)]
    } else {
        hex_padded(
            n / 16,
            if width == 0 {
                0
            } else {
                (width - 1) as nat
            },
        ).push(digit_char(n % 16))
    }
}

/// The digit that a character stands for.
pub open spec fn digit_value(c: char) -> nat {
    if '0' <= c <= '9' {
        (c as nat - '0' as nat) as nat
    } else {
        (c as nat - 'a' as nat + 10) as nat
    }
}

/// The number that digits in the given base stand for.
pub open spec fn digits_value(s: Seq<char>, base: nat) -> nat
    decreases s.len(),
{
    if s.len() == 0 {
        0
    } else {
        base * digits_value(s.drop_last(), base) + digit_value(s.last())
    }
}

/// A digit can be read back from its character.
proof fn digit_reads_back(d: nat)
    requires
        d < 16,
    ensures
        digit_value(digit_char(d)) == d,
{
}

/// A number can be read back from its decimal digits, so no two numbers share a
/// text.
pub proof fn decimal_reads_back(n: nat)
    ensures
        digits_value(decimal(n), 10) == n,
        decimal(n).len() >= 1,
    decreases n,
{
    digit_reads_back(n % 10);
    if n < 10 {
        assert(decimal(n).drop_last() =~= Seq::<char>::empty());
        assert(digits_value(Seq::<char>::empty(), 10) == 0);
    } else {
        decimal_reads_back(n / 10);
        assert(decimal(n).drop_last() =~= decimal(n / 10));
    }
}

/// A number can be read back from its hexadecimal digits, of which there are at
/// least as many as the width asks for.
pub proof fn hex_reads_back(n: nat, width: nat)
    ensures
        digits_value(hex_padded(n, width), 16) == n,
        hex_padded(n, width).len() >= width,
        hex_padded(n, width).len() >= 1,
    decreases n + width,
{
    digit_reads_back(n % 16);
    if n < 16 && width <= 1 {
        assert(hex_padded(n, width).drop_last() =~= Seq::<char>::empty());
        assert(digits_value(Seq::<char>::empty(), 16) == 0);
    } else {
        let w = if width == 0 {
            0
        } else {
            (width - 1) as nat
        };
        hex_reads_back(n / 16, w);
        assert(hex_padded(n, width).drop_last() =~= hex_padded(n / 16, w));
    }
}

/// Decimal digits have no leading zero, but for zero itself, and are all decimal.
pub proof fn decimal_is_shortest(n: nat)
    ensures
        decimal(n).len() > 1 ==> decimal(n)[0] != '0',
        forall|i: int| 0 <= i < decimal(n).len() ==> '0' <= #[trigger] decimal(n)[i] <= '9',
        n == 0 ==> decimal(n) == seq!['0'],
        n > 0 ==> decimal(n)[0] != '0',
    decreases n,
{
    if n >= 10 {
        decimal_is_shortest(n / 10);
        decimal_reads_back(n / 10);
        let head = decimal(n / 10);
        assert forall|i: int| 0 <= i < decimal(n).len() implies '0' <= #[trigger] decimal(n)[i]
            <= '9' by {
            if i < head.len() {
                assert(decimal(n)[i] == head[i]);
            }
        }
        assert(decimal(n)[0] == head[0]);
    }
}

/// Hexadecimal digits beyond the width have no leading zero, and are all
/// hexadecimal in lower case.
pub proof fn hex_is_shortest(n: nat, width: nat)
    ensures
        hex_padded(n, width).len() > width && hex_padded(n, width).len() > 1 ==> hex_padded(
            n,
            width,
        )[0] != '0',
        forall|i: int|
            0 <= i < hex_padded(n, width).len() ==> '0' <= #[trigger] hex_padded(n, width)[i]
                <= '9' || 'a' <= hex_padded(n, width)[i] <= 'f',
        width <= 1 && n > 0 ==> hex_padded(n, width)[0] != '0',
    decreases n + width,
{
    if n >= 16 || width > 1 {
        let w = if width == 0 {
            0
        } else {
            (width - 1) as nat
        };
        hex_is_shortest(n / 16, w);
        hex_reads_back(n / 16, w);
        let head = hex_padded(n / 16, w);
        assert forall|i: int| 0 <= i < hex_padded(n, width).len() implies '0'
            <= #[trigger] hex_padded(n, width)[i] <= '9' || 'a' <= hex_padded(n, width)[i]
            <= 'f' by {
            if i < head.len() {
                assert(hex_padded(n, width)[i] == head[i]);
            }
        }
        assert(hex_padded(n, width)[0] == head[0]);
    }
}

/// Append the digit `d` to `out`.
fn push_digit(out: &mut String, d: u32)
    requires
        d < 16,
    ensures
        final(out)@ == old(out)@.push(digit_char(d as nat)),
{
    let s: &str = match d {
        0 => "0",
        1 => "1",
        2 => "2",
        3 => "3",
        4 => "4",
        5 => "5",
        6 => "6",
        7 => "7",
        8 => "8",
        9 => "9",
        10 => "a",
        11 => "b",
        12 => "c",
        13 => "d",
        14 => "e",
        _ => "f",
    };
    proof {
        reveal_strlit("0");
        reveal_strlit("1");
        reveal_strlit("2");
        reveal_strlit("3");
        reveal_strlit("4");
        reveal_strlit("5");
        reveal_strlit("6");
        reveal_strlit("7");
        reveal_strlit("8");
        reveal_strlit("9");
        reveal_strlit("a");
        reveal_strlit("b");
        reveal_strlit("c");
        reveal_strlit("d");
        reveal_strlit("e");
        reveal_strlit("f");
    }
    let ghost before = out@;
    out.append(s);
    assert(out@ =~= before.push(digit_char(d as nat)));
}

/// Append `n` in decimal to `out`.
pub fn push_decimal(out: &mut String, n: u64)
    ensures
        final(out)@ == old(out)@ + decimal(n as nat),
    decreases n,
{
    if n >= 10 {
        push_decimal(out, n / 10);
    }
    push_digit(out, (n % 10) as u32);
    proof {
        let head = decimal((n / 10) as nat);
        let digit = digit_char((n % 10) as nat);
        assert(old(out)@ + head.push(digit) =~= (old(out)@ + head).push(digit));
        assert(n < 10 ==> out@ =~= old(out)@ + seq![digit_char(n as nat)]);
    }
}

/// Append `n` in lower-case hexadecimal to `out`, zero-padded to `width`.
pub fn push_hex_padded(out: &mut String, n: u32, width: u32)
    ensures
        final(out)@ == old(out)@ + hex_padded(n as nat, width as nat),
    decreases n + width,
{
    if n >= 16 || width > 1 {
        push_hex_padded(
            out,
            n / 16,
            if width == 0 {
                0
            } else {
                width - 1
            },
        );
    }
    push_digit(out, n % 16);
    proof {
        let w: nat = if width == 0 {
            0
        } else {
            (width - 1) as nat
        };
        let head = hex_padded((n / 16) as nat, w);
        let digit = digit_char((n % 16) as nat);
        assert(old(out)@ + head.push(digit) =~= (old(out)@ + head).push(digit));
        assert(n < 16 && width <= 1 ==> out@ =~= old(out)@ + seq![digit_char(n as nat)]);
    }
}

} // verus!
