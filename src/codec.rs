use vstd::prelude::*;

verus! {

/// The 32-bit value of a high and a low word: the high word in the upper half.
pub open spec fn pair_value(high: u16, low: u16) -> u32 {
    (high as nat * 65536 + low as nat) as u32
}

/// Combines a high and a low register word into one 32-bit value, high word first.
pub fn combine_pair(high: u16, low: u16) -> (r: u32)
    ensures
        r == pair_value(high, low),
        r == ((high as u32) << 16u32) | (low as u32),
        r as int == high as int * 65536 + low as int,
{
    let r = ((high as u32) << 16u32) | (low as u32);
    assert(r == (high as u32) * 65536 + (low as u32)) by (bit_vector)
        requires
            r == ((high as u32) << 16u32) | (low as u32),
    ;
    r
}

/// The decimal digit character for `d` (taken modulo ten).
pub open spec fn digit_char(d: nat) -> char {
    let d = d % 10;
    if d == 0 {
        '0'
    } else if d == 1 {
        '1'
    } else if d == 2 {
        '2'
    } else if d == 3 {
        '3'
    } else if d == 4 {
        '4'
    } else if d == 5 {
        '5'
    } else if d == 6 {
        '6'
    } else if d == 7 {
        '7'
    } else if d == 8 {
        '8'
    } else {
        '9'
    }
}

/// The last `width` decimal digits of `n`, most significant first, zeros in front.
pub open spec fn fixed_digits(n: nat, width: nat) -> Seq<char>
    decreases width,
{
    if width == 0 {
        Seq::empty()
    } else {
        fixed_digits(n / 10, (width - 1) as nat).push(digit_char(n % 10))
    }
}

/// Ten to the power `k`.
pub open spec fn pow10(k: nat) -> nat
    decreases k,
{
    if k == 0 {
        1
    } else {
        10 * pow10((k - 1) as nat)
    }
}

/// The value that a sequence of decimal digit characters reads as.
pub open spec fn digits_value(s: Seq<char>) -> nat
    decreases s.len(),
{
    if s.len() == 0 {
        0
    } else {
        10 * digits_value(s.drop_last()) + digit_of(s.last())
    }
}

/// The numeric value of a decimal digit character.
pub open spec fn digit_of(c: char) -> nat {
    if c == '1' {
        1
    } else if c == '2' {
        2
    } else if c == '3' {
        3
    } else if c == '4' {
        4
    } else if c == '5' {
        5
    } else if c == '6' {
        6
    } else if c == '7' {
        7
    } else if c == '8' {
        8
    } else if c == '9' {
        9
    } else {
        0
    }
}

/// Whether `c` is one of '0' to '9'.
pub open spec fn is_digit(c: char) -> bool {
    '0' <= c && c <= '9'
}

/// Width of a serial number's text: eight digits, more only where the value needs them.
pub open spec fn serial_width(v: u32) -> nat {
    if v < 100_000_000 {
        8
    } else if v < 1_000_000_000 {
        9
    } else {
        10
    }
}

/// A serial number as text: the decimal digits of `v`, padded with zeros to eight.
pub open spec fn serial_text(v: u32) -> Seq<char> {
    fixed_digits(v as nat, serial_width(v))
}

/// `fixed_digits` has exactly `width` characters, each a decimal digit.
pub proof fn lemma_fixed_digits_shape(n: nat, width: nat)
    ensures
        fixed_digits(n, width).len() == width,
        forall|i: int| 0 <= i < width ==> is_digit(#[trigger] fixed_digits(n, width)[i]),
    decreases width,
{
    if width > 0 {
        lemma_fixed_digits_shape(n / 10, (width - 1) as nat);
    }
}

/// Where `n` has at most `width` digits, `fixed_digits` keeps all of them: it reads as `n`.
pub proof fn lemma_fixed_digits_value(n: nat, width: nat)
    requires
        n < pow10(width),
    ensures
        digits_value(fixed_digits(n, width)) == n,
    decreases width,
{
    if width > 0 {
        let w1 = (width - 1) as nat;
        assert(n / 10 < pow10(w1)) by (nonlinear_arith)
            requires
                n < 10 * pow10(w1),
        ;
        lemma_fixed_digits_value(n / 10, w1);
        let s = fixed_digits(n, width);
        assert(s.drop_last() == fixed_digits(n / 10, w1));
        assert(digit_of(digit_char(n % 10)) == n % 10);
        assert(10 * (n / 10) + n % 10 == n) by (nonlinear_arith);
    }
}

/// The text of a serial number is all digits, at least eight of them, exactly eight for a
/// value below 100,000,000, and reads back as the value: no leading digit is cut off.
pub proof fn lemma_serial_text(v: u32)
    ensures
        serial_text(v).len() >= 8,
        v < 100_000_000 ==> serial_text(v).len() == 8,
        forall|i: int| 0 <= i < serial_text(v).len() ==> is_digit(#[trigger] serial_text(v)[i]),
        digits_value(serial_text(v)) == v,
{
    lemma_fixed_digits_shape(v as nat, serial_width(v));
    reveal_with_fuel(pow10, 11);
    assert(pow10(8) == 100_000_000);
    assert(pow10(9) == 1_000_000_000);
    assert(pow10(10) == 10_000_000_000);
    lemma_fixed_digits_value(v as nat, serial_width(v));
}

/// The one-character text of the digit `d`.
fn digit_text(d: u32) -> (r: &'static str)
    requires
        d < 10,
    ensures
        r@ == seq![digit_char(d as nat)],
{
    proof {
        reveal_strlit("0");
        reveal_strlit("1");
        reveal_strlit("2");
        reveal_strlit("3");
        reveal_strlit("4");
        reveal_strlit("5");
        reveal_strlit("6");
        reveal_strlit("7");
        reveal_strlit("8");
        reveal_strlit("9");
    }
    match d {
        0 => "0",
        1 => "1",
        2 => "2",
        3 => "3",
        4 => "4",
        5 => "5",
        6 => "6",
        7 => "7",
        8 => "8",
        _ => "9",
    }
}

/// Appends the last `width` decimal digits of `n` to `out`.
fn push_fixed_digits(out: &mut String, n: u32, width: u32)
    ensures
        final(out)@ == old(out)@ + fixed_digits(n as nat, width as nat),
    decreases width,
{
    if width == 0 {
        assert(old(out)@ + Seq::<char>::empty() =~= old(out)@);
        return;
    }
    push_fixed_digits(out, n / 10, width - 1);
    out.append(digit_text(n % 10));
    assert(final(out)@ =~= old(out)@ + fixed_digits(n as nat, width as nat));
}

/// Renders `value` in decimal, zero-padded to eight digits and never truncated.
pub fn format_serial(value: u32) -> (r: String)
    ensures
        r@ == serial_text(value),
        r@.len() >= 8,
        value <= 99_999_999 ==> r@.len() == 8,
        forall|i: int| 0 <= i < r@.len() ==> is_digit(#[trigger] r@[i]),
        digits_value(r@) == value,
{
    proof {
        lemma_serial_text(value);
    }
    let width: u32 = if value < 100_000_000 {
        8
    } else if value < 1_000_000_000 {
        9
    } else {
        10
    };
    let mut out = String::new();
    push_fixed_digits(&mut out, value, width);
    assert(out@ =~= serial_text(value));
    out
}

} // verus!
