//! Rendering of numbers into text, in the forms the library prints: plain
//! decimal, zero-padded decimal, and zero-padded hexadecimal in either case.

use vstd::prelude::*;

verus! {

/// `String::push` appends one character to the end of the string.
pub assume_specification[ String::push ](s: &mut String, c: char)
    ensures
        final(s)@ == old(s)@.push(c),
;

/// The character that stands for the digit `d` in a base up to sixteen.
/// Digits from ten on are letters, capitals if `upper`.
pub open spec fn digit_char(d: int, upper: bool) -> char
    recommends
        0 <= d < 16,
{
    if d < 10 {
        (d + 48) as u8 as char
    } else if upper {
        (d + 55) as u8 as char
    } else {
        (d + 87) as u8 as char
    }
}

/// The numeral of `n` in `base`, most significant digit first, without
/// leading zeros (the numeral of zero is a single zero).
pub open spec fn numeral(n: nat, base: nat, upper: bool) -> Seq<char>
    recommends
        2 <= base <= 16,
    decreases n,
{
    if n < base || base < 2 {
        seq![digit_char(n as int, upper)]
    } else {
        proof {
            assert(n / base < n) by (nonlinear_arith)
                requires
                    2 <= base <= n,
            ;
        }
        numeral(n / base, base, upper).push(digit_char((n % base) as int, upper))
    }
}

proof fn lemma_quotient_smaller(n: nat, base: nat)
    requires
        2 <= base <= n,
    ensures
        n / base < n,
{
    assert(n / base < n) by (nonlinear_arith)
        requires
            2 <= base <= n,
    ;
}

/// `count` zero characters.
pub open spec fn zeros(count: nat) -> Seq<char> {
    Seq::new(count, |i: int| '0')
}

/// `digits` filled up on the left with zeros to `width` characters; longer
/// text is left as it is.
pub open spec fn zero_padded(digits: Seq<char>, width: nat) -> Seq<char> {
    if digits.len() >= width {
        digits
    } else {
        zeros((width - digits.len()) as nat) + digits
    }
}

/// The decimal numeral of `n`.
pub open spec fn decimal(n: nat) -> Seq<char> {
    numeral(n, 10, false)
}

/// The decimal numeral of `n`, zero-padded to `width`.
pub open spec fn decimal_padded(n: nat, width: nat) -> Seq<char> {
    zero_padded(numeral(n, 10, false), width)
}

/// The hexadecimal numeral of `n`, zero-padded to `width`.
pub open spec fn hex_padded(n: nat, upper: bool, width: nat) -> Seq<char> {
    zero_padded(numeral(n, 16, upper), width)
}

/// A numeral has at least one digit.
pub proof fn lemma_numeral_nonempty(n: nat, base: nat, upper: bool)
    ensures
        numeral(n, base, upper).len() >= 1,
    decreases n,
{
    if !(n < base || base < 2) {
        lemma_quotient_smaller(n, base);
        lemma_numeral_nonempty(n / base, base, upper);
    }
}

/// Padding yields at least `width` characters, and exactly `width` when the
/// text was not longer.
pub proof fn lemma_zero_padded_len(digits: Seq<char>, width: nat)
    ensures
        zero_padded(digits, width).len() == if digits.len() >= width {
            digits.len()
        } else {
            width
        },
{
}

fn digit(d: u8, upper: bool) -> (c: char)
    requires
        d < 16,
    ensures
        c == digit_char(d as int, upper),
{
    if d < 10 {
        (d + 48) as char
    } else if upper {
        (d + 55) as char
    } else {
        (d + 87) as char
    }
}

fn numeral_len(n: u64, base: u64, upper: Ghost<bool>) -> (len: usize)
    requires
        2 <= base <= 16,
    ensures
        len == numeral(n as nat, base as nat, upper@).len(),
        1 <= len <= 64,
{
    let mut len: usize = 1;
    let mut rest: u64 = n;
    proof {
        lemma_log_bound_u64(n as nat);
    }
    while rest >= base
        invariant
            2 <= base <= 16,
            1 <= len,
            len as int + log_bound(rest as nat) <= 64,
            numeral(n as nat, base as nat, upper@).len() == numeral(
                rest as nat,
                base as nat,
                upper@,
            ).len() + len - 1,
        decreases rest,
    {
        proof {
            lemma_log_bound_step(rest as nat, base as nat);
        }
        rest = rest / base;
        len = len + 1;
    }
    len
}

/// A bound on the number of digits beyond the first of `n` in any base from
/// two up: how often `n` can be halved before it reaches zero or one.
spec fn log_bound(n: nat) -> nat
    decreases n,
{
    if n < 2 {
        0
    } else {
        1 + log_bound(n / 2)
    }
}

proof fn lemma_log_bound_monotone(a: nat, b: nat)
    requires
        a <= b,
    ensures
        log_bound(a) <= log_bound(b),
    decreases b,
{
    if a >= 2 {
        lemma_log_bound_monotone(a / 2, b / 2);
    }
}

proof fn lemma_log_bound_step(n: nat, base: nat)
    requires
        2 <= base,
        n >= base,
    ensures
        log_bound(n / base) + 1 <= log_bound(n),
{
    assert(n / base <= n / 2) by (nonlinear_arith)
        requires
            2 <= base,
            n >= base,
    ;
    lemma_log_bound_monotone(n / base, n / 2);
}

proof fn lemma_log_bound_u64(n: nat)
    requires
        n <= u64::MAX,
    ensures
        log_bound(n) <= 63,
{
    reveal_with_fuel(log_bound, 65);
}

fn push_zeros(out: &mut String, count: usize)
    ensures
        final(out)@ == old(out)@ + zeros(count as nat),
{
    let mut i: usize = 0;
    while i < count
        invariant
            i <= count,
            out@ == old(out)@ + zeros(i as nat),
        decreases count - i,
    {
        out.push('0');
        i = i + 1;
        assert(out@ =~= old(out)@ + zeros(i as nat));
    }
}

/// Appends the numeral of `n` in `base` to `out`.
pub fn push_numeral(out: &mut String, n: u64, base: u64, upper: bool)
    requires
        2 <= base <= 16,
    ensures
        final(out)@ == old(out)@ + numeral(n as nat, base as nat, upper),
    decreases n,
{
    if n < base {
        out.push(digit(n as u8, upper));
        assert(out@ =~= old(out)@ + numeral(n as nat, base as nat, upper));
    } else {
        proof {
            lemma_quotient_smaller(n as nat, base as nat);
        }
        push_numeral(out, n / base, base, upper);
        out.push(digit((n % base) as u8, upper));
        assert(out@ =~= old(out)@ + numeral(n as nat, base as nat, upper));
    }
}

/// Appends the numeral of `n` in `base` to `out`, zero-padded to `width`.
pub fn push_padded_numeral(out: &mut String, n: u64, base: u64, upper: bool, width: usize)
    requires
        2 <= base <= 16,
    ensures
        final(out)@ == old(out)@ + zero_padded(
            numeral(n as nat, base as nat, upper),
            width as nat,
        ),
{
    let len = numeral_len(n, base, Ghost(upper));
    if len < width {
        push_zeros(out, width - len);
    }
    let ghost mid = out@;
    push_numeral(out, n, base, upper);
    assert(out@ =~= old(out)@ + zero_padded(numeral(n as nat, base as nat, upper), width as nat));
}

/// Appends the decimal numeral of `n` to `out`.
pub fn push_decimal(out: &mut String, n: u64)
    ensures
        final(out)@ == old(out)@ + decimal(n as nat),
{
    push_numeral(out, n, 10, false);
}

/// Appends the decimal numeral of `n` to `out`, zero-padded to `width`.
pub fn push_decimal_padded(out: &mut String, n: u64, width: usize)
    ensures
        final(out)@ == old(out)@ + decimal_padded(n as nat, width as nat),
{
    push_padded_numeral(out, n, 10, false, width);
}

/// Appends the hexadecimal numeral of `n` to `out`, zero-padded to `width`.
pub fn push_hex_padded(out: &mut String, n: u64, upper: bool, width: usize)
    ensures
        final(out)@ == old(out)@ + hex_padded(n as nat, upper, width as nat),
{
    push_padded_numeral(out, n, 16, upper, width);
}

/// Appends `text` to `out`.
pub fn push_text(out: &mut String, text: &str)
    ensures
        final(out)@ == old(out)@ + text@,
{
    out.append(text);
}

} // verus!
