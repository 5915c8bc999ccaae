//! Text building blocks: appending characters and decimal numbers to a
//! `String`, with contracts over the string's view as a sequence of `char`.

use vstd::prelude::*;
use vstd::string::*;

verus! {

/// `String::push` of the standard library: the character is appended to the
/// end of the string and nothing else changes.
pub assume_specification[ String::push ](s: &mut String, ch: char)
    ensures
        final(s)@ == old(s)@.push(ch),
;

/// The character that writes the decimal digit `d`.
pub open spec fn digit_char(d: int) -> char
    recommends
        0 <= d < 10,
{
    (48 + d) as char
}

/// The decimal digits of `n`, most significant first, without leading zeros.
pub open spec fn decimal_digits(n: nat) -> Seq<char>
    decreases n,
{
    if n < 10 {
        seq![digit_char(n as int)]
    } else {
        decimal_digits(n / 10).push(digit_char((n % 10) as int))
    }
}

/// The decimal text of an integer: a minus sign for a negative one, then the
/// digits of its magnitude.
pub open spec fn decimal_text(v: int) -> Seq<char> {
    if v < 0 {
        seq!['-'] + decimal_digits((-v) as nat)
    } else {
        decimal_digits(v as nat)
    }
}

/// Every number has at least one digit.
pub proof fn lemma_decimal_digits_len(n: nat)
    ensures
        decimal_digits(n).len() >= 1,
    decreases n,
{
    if n >= 10 {
        lemma_decimal_digits_len(n / 10);
    }
}

/// Different numbers are written with different digits.
pub proof fn lemma_decimal_digits_injective(a: nat, b: nat)
    requires
        decimal_digits(a) == decimal_digits(b),
    ensures
        a == b,
    decreases a,
{
    if a < 10 && b < 10 {
        assert(decimal_digits(a)[0] == digit_char(a as int));
        assert(decimal_digits(b)[0] == digit_char(b as int));
        assert(digit_char(a as int) as int == 48 + a);
        assert(digit_char(b as int) as int == 48 + b);
    } else if a < 10 {
        lemma_decimal_digits_len(b / 10);
        assert(decimal_digits(a).len() == 1);
        assert(decimal_digits(b).len() == decimal_digits(b / 10).len() + 1);
    } else if b < 10 {
        lemma_decimal_digits_len(a / 10);
        assert(decimal_digits(b).len() == 1);
        assert(decimal_digits(a).len() == decimal_digits(a / 10).len() + 1);
    } else {
        let x = decimal_digits(a / 10);
        let y = decimal_digits(b / 10);
        assert(x.push(digit_char((a % 10) as int)).drop_last() =~= x);
        assert(y.push(digit_char((b % 10) as int)).drop_last() =~= y);
        assert(x.push(digit_char((a % 10) as int)).last() == digit_char((a % 10) as int));
        assert(y.push(digit_char((b % 10) as int)).last() == digit_char((b % 10) as int));
        lemma_decimal_digits_injective(a / 10, b / 10);
        assert(digit_char((a % 10) as int) as int == 48 + a % 10);
        assert(digit_char((b % 10) as int) as int == 48 + b % 10);
    }
}

/// Appends the decimal digits of `n` to `out`.
pub fn push_unsigned(out: &mut String, n: u64)
    ensures
        final(out)@ == old(out)@ + decimal_digits(n as nat),
{
    let mut digits: Vec<char> = Vec::new();
    let mut rest: u64 = n;
    while rest >= 10
        invariant
            decimal_digits(n as nat) == decimal_digits(rest as nat) + Seq::new(
                digits@.len(),
                |i: int| digits@[digits@.len() - 1 - i],
            ),
        decreases rest,
    {
        let d: u8 = (rest % 10) as u8;
        let ghost before = digits@;
        digits.push((48u8 + d) as char);
        proof {
            let tail_old = Seq::new(before.len(), |i: int| before[before.len() - 1 - i]);
            let tail_new = Seq::new(digits@.len(), |i: int| digits@[digits@.len() - 1 - i]);
            assert(tail_new =~= seq![digit_char((rest % 10) as int)] + tail_old);
            assert(decimal_digits(rest as nat) == decimal_digits((rest / 10) as nat).push(
                digit_char((rest % 10) as int),
            ));
            assert(decimal_digits(rest as nat) + tail_old =~= decimal_digits((rest / 10) as nat)
                + tail_new);
        }
        rest = rest / 10;
    }
    out.push((48u8 + (rest as u8)) as char);
    let mut k: usize = digits.len();
    while k > 0
        invariant
            k <= digits@.len(),
            out@ == old(out)@ + decimal_digits(rest as nat) + Seq::new(
                (digits@.len() - k) as nat,
                |i: int| digits@[digits@.len() - 1 - i],
            ),
        decreases k,
    {
        k = k - 1;
        out.push(digits[k]);
        assert(out@ =~= old(out)@ + decimal_digits(rest as nat) + Seq::new(
            (digits@.len() - k) as nat,
            |i: int| digits@[digits@.len() - 1 - i],
        ));
    }
    assert(out@ =~= old(out)@ + decimal_digits(n as nat));
}

/// Appends the decimal text of `v` to `out`.
pub fn push_signed(out: &mut String, v: i64)
    ensures
        final(out)@ == old(out)@ + decimal_text(v as int),
{
    if v < 0 {
        out.push('-');
        let magnitude: u64 = (-(v as i128)) as u64;
        push_unsigned(out, magnitude);
        assert(out@ =~= old(out)@ + decimal_text(v as int));
    } else {
        push_unsigned(out, v as u64);
    }
}

/// Appends the characters of `tail` to `out`.
pub fn push_text(out: &mut String, tail: &str)
    ensures
        final(out)@ == old(out)@ + tail@,
{
    out.append(tail);
}

/// The characters of `s`.
pub fn chars_of(s: &str) -> (chars: Vec<char>)
    ensures
        chars@ == s@,
{
    let n = s.unicode_len();
    let mut chars: Vec<char> = Vec::new();
    let mut i: usize = 0;
    while i < n
        invariant
            i <= n == s@.len(),
            chars@ == s@.take(i as int),
        decreases n - i,
    {
        chars.push(s.get_char(i));
        i = i + 1;
        assert(chars@ =~= s@.take(i as int));
    }
    assert(s@.take(n as int) =~= s@);
    chars
}

/// The string of the characters `chars[from..to]`.
pub fn string_of(chars: &Vec<char>, from: usize, to: usize) -> (s: String)
    requires
        from <= to <= chars@.len(),
    ensures
        s@ == chars@.subrange(from as int, to as int),
{
    let mut s = String::new();
    let mut i: usize = from;
    while i < to
        invariant
            from <= i <= to <= chars@.len(),
            s@ == chars@.subrange(from as int, i as int),
        decreases to - i,
    {
        s.push(chars[i]);
        i = i + 1;
        assert(s@ =~= chars@.subrange(from as int, i as int));
    }
    s
}

} // verus!
