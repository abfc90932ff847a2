//! Text fragments of error messages: decimal and hexadecimal numbers, and
//! lists of small numbers.

use vstd::prelude::*;

verus! {

/// The character of one digit, `0` to `9` and then `A` to `F`.
pub open spec fn digit_char(d: int) -> char {
    if d == 0 {
        '0'
    } else if d == 1 {
        '1'
    } else if d == 2 {
        '2'
    } else if d == 3 {
        '3'
    } else if d == 4 {
        '4'
    } else if d == 5 {
        '5'
    } else if d == 6 {
        '6'
    } else if d == 7 {
        '7'
    } else if d == 8 {
        '8'
    } else if d == 9 {
        '9'
    } else if d == 10 {
        'A'
    } else if d == 11 {
        'B'
    } else if d == 12 {
        'C'
    } else if d == 13 {
        'D'
    } else if d == 14 {
        'E'
    } else {
        'F'
    }
}

/// `n` in base ten, without leading zeros.
pub open spec fn decimal(n: nat) -> Seq<char>
    decreases n,
{
    if n < 10 {
        seq![digit_char(n as int)]
    } else {
        decimal(n / 10).push(digit_char((n % 10) as int))
    }
}

/// The `width` low-order upper-case hexadecimal digits of `n`.
pub open spec fn hex(n: nat, width: nat) -> Seq<char>
    decreases width,
{
    if width == 0 {
        Seq::empty()
    } else {
        hex(n / 16, (width - 1) as nat).push(digit_char((n % 16) as int))
    }
}

/// The items in decimal, separated by a comma and a space.
pub open spec fn joined(items: Seq<u8>) -> Seq<char>
    decreases items.len(),
{
    if items.len() == 0 {
        Seq::empty()
    } else if items.len() == 1 {
        decimal(items[0] as nat)
    } else {
        joined(items.drop_last()) + ", "@ + decimal(items.last() as nat)
    }
}

/// Appends one digit.
fn push_digit(out: &mut String, d: u8)
    requires
        d < 16,
    ensures
        final(out)@ == old(out)@.push(digit_char(d as int)),
{
    proof {
        reveal_strlit("0");
        reveal_strlit("1");
        reveal_strlit("2");
        reveal_strlit("3");
        reveal_strlit("4");
        reveal_strlit("5");
        reveal_strlit("6");
        reveal_strlit("7");
        reveal_strlit("8");
        reveal_strlit("9");
        reveal_strlit("A");
        reveal_strlit("B");
        reveal_strlit("C");
        reveal_strlit("D");
        reveal_strlit("E");
        reveal_strlit("F");
    }
    let c: &str = match d {
        0 => "0",
        1 => "1",
        2 => "2",
        3 => "3",
        4 => "4",
        5 => "5",
        6 => "6",
        7 => "7",
        8 => "8",
        9 => "9",
        10 => "A",
        11 => "B",
        12 => "C",
        13 => "D",
        14 => "E",
        _ => "F",
    };
    assert(c@ =~= seq![digit_char(d as int)]);
    out.append(c);
    assert(out@ =~= old(out)@.push(digit_char(d as int)));
}

/// Appends `n` in decimal.
pub fn push_decimal(out: &mut String, n: u64)
    ensures
        final(out)@ == old(out)@ + decimal(n as nat),
    decreases n,
{
    if n >= 10 {
        push_decimal(out, n / 10);
    }
    push_digit(out, (n % 10) as u8);
    assert(out@ =~= old(out)@ + decimal(n as nat));
}

/// Appends the `width` low-order hexadecimal digits of `n`.
pub fn push_hex(out: &mut String, n: u64, width: u8)
    ensures
        final(out)@ == old(out)@ + hex(n as nat, width as nat),
    decreases width,
{
    if width > 0 {
        push_hex(out, n / 16, width - 1);
        push_digit(out, (n % 16) as u8);
    }
    assert(out@ =~= old(out)@ + hex(n as nat, width as nat));
}

/// Appends the items in decimal, separated by a comma and a space.
pub fn push_joined(out: &mut String, items: &Vec<u8>)
    ensures
        final(out)@ == old(out)@ + joined(items@),
{
    let mut i: usize = 0;
    let ghost before = out@;
    assert(out@ =~= before + joined(items@.take(0)));
    while i < items.len()
        invariant
            i <= items.len(),
            out@ == before + joined(items@.take(i as int)),
        decreases items.len() - i,
    {
        assert(items@.take(i + 1).drop_last() =~= items@.take(i as int));
        if i > 0 {
            out.append(", ");
        }
        push_decimal(out, items[i] as u64);
        i = i + 1;
        assert(out@ =~= before + joined(items@.take(i as int)));
    }
    assert(items@.take(i as int) =~= items@);
}

// ---------------------------------------------------------------------
// Laws
// ---------------------------------------------------------------------

/// The value of a decimal digit.
pub open spec fn decimal_digit(c: char) -> int {
    c as int - '0' as int
}

/// The value of an upper-case hexadecimal digit.
pub open spec fn hex_digit(c: char) -> int {
    if '0' <= c <= '9' {
        c as int - '0' as int
    } else {
        c as int - 'A' as int + 10
    }
}

/// A number in decimal is made of digits, of which the first is not 0 unless
/// it is the only one, and each digit counts ten times the next.
pub proof fn decimal_is_base_ten(n: nat)
    ensures
        decimal(n).len() >= 1,
        forall|i: int| 0 <= i < decimal(n).len() ==> '0' <= #[trigger] decimal(n)[i] <= '9',
        decimal(n).len() > 1 ==> decimal(n)[0] != '0',
        decimal_digit(decimal(n).last()) == n % 10,
        n >= 10 ==> decimal(n).drop_last() == decimal(n / 10),
        n < 10 ==> decimal(n).len() == 1,
    decreases n,
{
    if n >= 10 {
        decimal_is_base_ten(n / 10);
        assert(decimal(n).drop_last() =~= decimal(n / 10));
        assert(decimal(n)[0] == decimal(n / 10)[0]);
        if n / 10 < 10 {
            assert(decimal_digit(decimal(n / 10)[0]) == n / 10);
        }
    }
}

/// A number in hexadecimal is made of as many digits as were asked for, `0` to
/// `9` and `A` to `F`, and each digit counts sixteen times the next.
pub proof fn hex_is_base_sixteen(n: nat, width: nat)
    ensures
        hex(n, width).len() == width,
        forall|i: int|
            0 <= i < width ==> ('0' <= #[trigger] hex(n, width)[i] <= '9' || 'A' <= hex(n, width)[i] <= 'F'),
        width > 0 ==> hex_digit(hex(n, width).last()) == n % 16,
        width > 0 ==> hex(n, width).drop_last() == hex(n / 16, (width - 1) as nat),
    decreases width,
{
    if width > 0 {
        hex_is_base_sixteen(n / 16, (width - 1) as nat);
        assert(hex(n, width).drop_last() =~= hex(n / 16, (width - 1) as nat));
    }
}

/// A list of numbers is each of them in decimal, with a comma and a space
/// between two.
pub proof fn lists_are_separated_by_commas(items: Seq<u8>, last: u8)
    ensures
        joined(Seq::empty()) == Seq::<char>::empty(),
        joined(seq![last]) == decimal(last as nat),
        items.len() > 0 ==> joined(items.push(last)) == joined(items) + ", "@ + decimal(last as nat),
{
    assert(items.push(last).drop_last() =~= items);
}

} // verus!
