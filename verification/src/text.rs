//! Decimal text: formatting of integers (optionally zero padded) and parsing
//! of unsigned decimal numbers.

use vstd::prelude::*;

verus! {

/// The character of the decimal digit `d` (for `d < 10`).
pub open spec fn digit_char(d: nat) -> char {
    if d == 0 { '0' }
    else if d == 1 { '1' }
    else if d == 2 { '2' }
    else if d == 3 { '3' }
    else if d == 4 { '4' }
    else if d == 5 { '5' }
    else if d == 6 { '6' }
    else if d == 7 { '7' }
    else if d == 8 { '8' }
    else { '9' }
}

/// The shortest decimal representation of `n`, as written by `{}`.
pub open spec fn decimal(n: nat) -> Seq<char>
    decreases n,
{
    if n < 10 {
        seq![digit_char(n)]
    } else {
        decimal(n / 10).push(digit_char(n % 10))
    }
}

/// `width - len` zeros, or none when `len >= width`.
pub open spec fn zeros(width: nat, len: nat) -> Seq<char> {
    Seq::new(if len < width { (width - len) as nat } else { 0 }, |i: int| '0')
}

/// The decimal representation of `n`, padded on the left with zeros to at
/// least `width` characters, as written by `{:0width$}`.
pub open spec fn zero_padded(n: nat, width: nat) -> Seq<char> {
    zeros(width, decimal(n).len()) + decimal(n)
}

/// `10` to the power `k`.
pub open spec fn pow10(k: nat) -> nat
    decreases k,
{
    if k == 0 { 1 } else { 10 * pow10((k - 1) as nat) }
}

/// Whether `c` is one of the ASCII digits `0` to `9`.
pub open spec fn is_digit(c: char) -> bool {
    '0' <= c && c <= '9'
}

/// The value of the ASCII digit `c`.
pub open spec fn digit_value(c: char) -> nat {
    (c as int - '0' as int) as nat
}

/// The value of a sequence of decimal digits, most significant first.
pub open spec fn digits_value(s: Seq<char>) -> nat
    decreases s.len(),
{
    if s.len() == 0 {
        0
    } else {
        digits_value(s.drop_last()) * 10 + digit_value(s.last())
    }
}

/// Whether every character of `s` is an ASCII digit.
pub open spec fn all_digits(s: Seq<char>) -> bool {
    forall|i: int| 0 <= i < s.len() ==> is_digit(#[trigger] s[i])
}

/// What is left of `s` once one leading `+` is taken off (only when more
/// characters follow it).
pub open spec fn unsigned_digits(s: Seq<char>) -> Seq<char> {
    if s.len() > 1 && s[0] == '+' { s.drop_first() } else { s }
}

/// The unsigned number that `s` denotes, as `str::parse::<usize>` reads it:
/// an optional `+`, then one or more ASCII digits, with a value that fits in
/// a `usize`. `None` for every other text.
pub open spec fn parse_usize_spec(s: Seq<char>) -> Option<usize> {
    let d = unsigned_digits(s);
    if d.len() > 0 && all_digits(d) && digits_value(d) <= usize::MAX {
        Some(digits_value(d) as usize)
    } else {
        None
    }
}

/// Every `n` below `10^k` (with `k >= 1`) is written with at most `k`
/// characters.
pub proof fn lemma_decimal_len_bound(n: nat, k: nat)
    requires
        k >= 1,
        n < pow10(k),
    ensures
        decimal(n).len() <= k,
    decreases k,
{
    if n >= 10 {
        assert(k >= 2) by {
            if k == 1 {
                assert(pow10(1) == 10 * pow10(0));
            }
        }
        assert(pow10(k) == 10 * pow10((k - 1) as nat));
        assert(n / 10 < pow10((k - 1) as nat));
        lemma_decimal_len_bound(n / 10, (k - 1) as nat);
    }
}

/// Every decimal representation is a non-empty run of digits.
pub proof fn lemma_decimal_digits(n: nat)
    ensures
        decimal(n).len() >= 1,
        all_digits(decimal(n)),
    decreases n,
{
    if n >= 10 {
        lemma_decimal_digits(n / 10);
        assert(all_digits(decimal(n))) by {
            let s = decimal(n);
            assert forall|i: int| 0 <= i < s.len() implies is_digit(#[trigger] s[i]) by {
                if i < s.len() - 1 {
                    assert(s[i] == decimal(n / 10)[i]);
                }
            }
        }
    }
}

/// Reading back a decimal representation gives the number: the parse of
/// `decimal(n)` is `n`.
pub proof fn lemma_digits_value_decimal(n: nat)
    ensures
        digits_value(decimal(n)) == n,
    decreases n,
{
    if n < 10 {
        let s = decimal(n);
        assert(s.drop_last().len() == 0);
        assert(digits_value(s.drop_last()) == 0);
    } else {
        lemma_digits_value_decimal(n / 10);
        let s = decimal(n);
        assert(s.drop_last() =~= decimal(n / 10));
    }
}

/// The character of digit `d`, for `d < 10`.
pub fn digit_to_char(d: u64) -> (c: char)
    requires
        d < 10,
    ensures
        c == digit_char(d as nat),
{
    if d == 0 { '0' }
    else if d == 1 { '1' }
    else if d == 2 { '2' }
    else if d == 3 { '3' }
    else if d == 4 { '4' }
    else if d == 5 { '5' }
    else if d == 6 { '6' }
    else if d == 7 { '7' }
    else if d == 8 { '8' }
    else { '9' }
}

/// `String::push`: appends one character.
#[verifier::external_body]
fn push_char(s: &mut String, c: char)
    ensures
        final(s)@ == old(s)@.push(c),
{
    s.push(c);
}

/// Appends the decimal representation of `n` to `out`.
pub fn append_decimal(out: &mut String, n: u64)
    ensures
        final(out)@ == old(out)@ + decimal(n as nat),
    decreases n,
{
    if n >= 10 {
        append_decimal(out, n / 10);
    }
    let c = digit_to_char(n % 10);
    push_char(out, c);
    proof {
        if n >= 10 {
            assert(decimal(n as nat) == decimal((n / 10) as nat).push(digit_char((n % 10) as nat)));
        }
    }
    assert(final(out)@ =~= old(out)@ + decimal(n as nat));
}

/// The number of characters in the decimal representation of `n`.
pub fn decimal_len(n: u64) -> (len: usize)
    ensures
        len == decimal(n as nat).len(),
    decreases n,
{
    if n < 10 {
        1
    } else {
        let l = decimal_len(n / 10);
        proof {
            assert(pow10(20) == 100000000000000000000) by {
                reveal_with_fuel(pow10, 21);
            }
            lemma_decimal_len_bound((n / 10) as nat, 20);
        }
        l + 1
    }
}

/// Writes `n` in decimal, as `format!("{}", n)` does.
pub fn decimal_string(n: u64) -> (s: String)
    ensures
        s@ == decimal(n as nat),
{
    let mut s = String::new();
    append_decimal(&mut s, n);
    assert(s@ =~= decimal(n as nat));
    s
}

/// Writes `n` in decimal padded on the left with zeros to at least `width`
/// characters, as `format!("{:0width$}", n, width = width)` does.
pub fn zero_padded_string(n: u64, width: usize) -> (s: String)
    ensures
        s@ == zero_padded(n as nat, width as nat),
{
    let len = decimal_len(n);
    let mut s = String::new();
    let mut i: usize = len;
    while i < width
        invariant
            len == decimal(n as nat).len(),
            len <= i,
            i <= width || i == len,
            s@ == Seq::new((i - len) as nat, |j: int| '0'),
        decreases width - i,
    {
        push_char(&mut s, '0');
        i = i + 1;
        assert(s@ =~= Seq::new((i - len) as nat, |j: int| '0'));
    }
    assert(s@ =~= zeros(width as nat, len as nat));
    append_decimal(&mut s, n);
    s
}

} // verus!

verus! {

/// Appending digits never lowers the value: a prefix of a digit run is worth
/// at most the whole run.
pub proof fn lemma_digits_value_prefix(s: Seq<char>, j: int)
    requires
        0 <= j <= s.len(),
    ensures
        digits_value(s.take(j)) <= digits_value(s),
    decreases s.len() - j,
{
    if j < s.len() {
        lemma_digits_value_prefix(s, j + 1);
        assert(s.take(j + 1).drop_last() =~= s.take(j));
    } else {
        assert(s.take(j) =~= s);
    }
}

/// The value of the ASCII digit `c`, or `None` when `c` is not a digit.
pub fn char_digit(c: char) -> (d: Option<usize>)
    ensures
        d is Some <==> is_digit(c),
        d matches Some(v) ==> v == digit_value(c) && v < 10,
{
    if c == '0' { Some(0) }
    else if c == '1' { Some(1) }
    else if c == '2' { Some(2) }
    else if c == '3' { Some(3) }
    else if c == '4' { Some(4) }
    else if c == '5' { Some(5) }
    else if c == '6' { Some(6) }
    else if c == '7' { Some(7) }
    else if c == '8' { Some(8) }
    else if c == '9' { Some(9) }
    else { None }
}

/// Reads an unsigned decimal number, as `s.parse::<usize>().ok()` does: an
/// optional `+`, then at least one ASCII digit, and a value that fits.
pub fn parse_usize(s: &str) -> (r: Option<usize>)
    ensures
        r == parse_usize_spec(s@),
{
    let n = s.unicode_len();
    if n == 0 {
        return None;
    }
    let mut start: usize = 0;
    if n > 1 && s.get_char(0) == '+' {
        start = 1;
    }
    let ghost d = unsigned_digits(s@);
    assert(d =~= s@.subrange(start as int, n as int));
    let mut value: usize = 0;
    let mut i: usize = start;
    assert(d.take(0).len() == 0);
    while i < n
        invariant
            n == s@.len(),
            start <= i <= n,
            start < n,
            d == s@.subrange(start as int, n as int),
            d == unsigned_digits(s@),
            all_digits(d.take(i - start)),
            value == digits_value(d.take(i - start)),
        decreases n - i,
    {
        let c = s.get_char(i);
        assert(c == d[i - start]);
        match char_digit(c) {
            None => {
                assert(!is_digit(d[i - start]));
                assert(!all_digits(d));
                return None;
            },
            Some(dv) => {
                let ghost t = d.take(i - start + 1);
                assert(t.drop_last() =~= d.take(i - start));
                assert(t.last() == c);
                assert(all_digits(t)) by {
                    assert forall|k: int| 0 <= k < t.len() implies is_digit(#[trigger] t[k]) by {
                        if k < t.len() - 1 {
                            assert(t[k] == d.take(i - start)[k]);
                        }
                    }
                }
                match value.checked_mul(10) {
                    None => {
                        proof {
                            lemma_digits_value_prefix(d, i - start + 1);
                        }
                        return None;
                    },
                    Some(v10) => match v10.checked_add(dv) {
                        None => {
                            proof {
                                lemma_digits_value_prefix(d, i - start + 1);
                            }
                            return None;
                        },
                        Some(v) => {
                            value = v;
                        },
                    },
                }
            },
        }
        i = i + 1;
    }
    assert(d.take(n - start) =~= d);
    Some(value)
}

} // verus!

verus! {

/// Whether two texts are equal, character by character.
pub fn str_equal(a: &str, b: &str) -> (r: bool)
    ensures
        r == (a@ == b@),
{
    let n = a.unicode_len();
    if n != b.unicode_len() {
        return false;
    }
    let mut i: usize = 0;
    while i < n
        invariant
            n == a@.len(),
            n == b@.len(),
            i <= n,
            forall|j: int| 0 <= j < i ==> a@[j] == b@[j],
        decreases n - i,
    {
        if a.get_char(i) != b.get_char(i) {
            return false;
        }
        i = i + 1;
    }
    assert(a@ =~= b@);
    true
}

} // verus!

verus! {

/// Leading zeros do not change the value of a run of digits.
pub proof fn lemma_digits_value_leading_zeros(z: nat, s: Seq<char>)
    ensures
        digits_value(Seq::new(z, |i: int| '0') + s) == digits_value(s),
    decreases s.len(), z,
{
    let zs = Seq::new(z, |i: int| '0');
    if s.len() == 0 {
        assert(zs + s =~= zs);
        if z > 0 {
            assert(zs.drop_last() =~= Seq::new((z - 1) as nat, |i: int| '0'));
            lemma_digits_value_leading_zeros((z - 1) as nat, s);
            assert(Seq::new((z - 1) as nat, |i: int| '0') + s =~= Seq::new(
                (z - 1) as nat,
                |i: int| '0',
            ));
        }
    } else {
        assert((zs + s).drop_last() =~= zs + s.drop_last());
        lemma_digits_value_leading_zeros(z, s.drop_last());
    }
}

/// A zero-padded decimal form reads back as its number, whatever the width.
pub proof fn lemma_zero_padded_value(n: nat, width: nat)
    ensures
        digits_value(zero_padded(n, width)) == n,
{
    let d = decimal(n);
    let z: nat = if d.len() < width { (width - d.len()) as nat } else { 0 };
    assert(zeros(width, d.len()) =~= Seq::new(z, |i: int| '0'));
    lemma_digits_value_leading_zeros(z, d);
    lemma_digits_value_decimal(n);
}

/// Zero padding to a fixed width keeps numbers apart: two numbers with the
/// same padded form are the same number.
pub proof fn lemma_zero_padded_injective(m: nat, n: nat, width: nat)
    requires
        zero_padded(m, width) == zero_padded(n, width),
    ensures
        m == n,
{
    lemma_zero_padded_value(m, width);
    lemma_zero_padded_value(n, width);
}

/// A zero-padded decimal form is a run of digits of exactly `width`
/// characters when the number is below `10^width` (and of one character for
/// width zero).
pub proof fn lemma_zero_padded_shape(n: nat, width: nat)
    requires
        n < pow10(width),
    ensures
        zero_padded(n, width).len() == if width == 0 { 1 } else { width },
        all_digits(zero_padded(n, width)),
{
    lemma_decimal_digits(n);
    if width >= 1 {
        lemma_decimal_len_bound(n, width);
    } else {
        assert(n == 0);
    }
    let p = zero_padded(n, width);
    let zs = zeros(width, decimal(n).len());
    assert forall|i: int| 0 <= i < p.len() implies is_digit(#[trigger] p[i]) by {
        if i < zs.len() {
            assert(p[i] == '0');
        } else {
            assert(p[i] == decimal(n)[i - zs.len()]);
        }
    }
}

/// Formatting then parsing gives the number back: a decimal form, padded
/// with zeros or not, parses as the number it was written from.
pub proof fn lemma_parse_zero_padded(n: usize, width: nat)
    ensures
        parse_usize_spec(zero_padded(n as nat, width)) == Some(n),
{
    let p = zero_padded(n as nat, width);
    lemma_decimal_digits(n as nat);
    lemma_zero_padded_value(n as nat, width);
    let zs = zeros(width, decimal(n as nat).len());
    assert(p.len() >= 1);
    assert(p[0] != '+') by {
        if zs.len() > 0 {
            assert(p[0] == '0');
        } else {
            assert(p[0] == decimal(n as nat)[0]);
        }
    }
    assert(unsigned_digits(p) == p);
    assert forall|i: int| 0 <= i < p.len() implies is_digit(#[trigger] p[i]) by {
        if i < zs.len() {
            assert(p[i] == '0');
        } else {
            assert(p[i] == decimal(n as nat)[i - zs.len()]);
        }
    }
}

} // verus!
