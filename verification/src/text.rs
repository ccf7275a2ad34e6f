//! Building text: decimal and hexadecimal renderings of numbers.
use vstd::prelude::*;

verus! {

/// Appends one character to a string (`String::push`).
#[verifier::external_body]
pub(crate) fn push_char(s: &mut String, c: char)
    ensures
        final(s)@ == old(s)@.push(c),
{
    s.push(c)
}

/// Whether `c` is a lowercase hexadecimal digit.
pub open spec fn is_hex_lower(c: char) -> bool {
    ('0' <= c <= '9') || ('a' <= c <= 'f')
}

/// The ASCII character of the decimal digit `d` (`0 <= d < 10`).
pub open spec fn digit_char(d: int) -> char {
    (d + 48) as char
}

/// The decimal digits of `n`, most significant first, without leading zeros.
pub open spec fn spec_digits(n: nat) -> Seq<char>
    decreases n,
{
    if n < 10 {
        seq![digit_char(n as int)]
    } else {
        spec_digits(n / 10).push(digit_char((n % 10) as int))
    }
}

/// The decimal rendering of `n`, with a leading `-` when negative (what
/// `to_string` gives for an integer).
pub open spec fn spec_decimal(n: int) -> Seq<char> {
    if n < 0 {
        seq!['-'] + spec_digits((-n) as nat)
    } else {
        spec_digits(n as nat)
    }
}

fn push_digits(s: &mut String, m: u64)
    ensures
        final(s)@ == old(s)@ + spec_digits(m as nat),
    decreases m,
{
    if m >= 10 {
        push_digits(s, m / 10);
    }
    let d: u8 = (m % 10) as u8;
    let c: char = (d + 48u8) as char;
    assert(c == digit_char((m % 10) as int));
    push_char(s, c);
    proof {
        if m >= 10 {
            assert(spec_digits(m as nat) == spec_digits((m / 10) as nat).push(digit_char((m % 10) as int)));
        }
        assert(final(s)@ =~= old(s)@ + spec_digits(m as nat));
    }
}

/// Renders `n` in decimal.
pub fn decimal_string(n: i64) -> (s: String)
    ensures
        s@ == spec_decimal(n as int),
{
    let mut s = String::new();
    if n < 0 {
        push_char(&mut s, '-');
        let m: u64 = (0i128 - (n as i128)) as u64;
        push_digits(&mut s, m);
    } else {
        push_digits(&mut s, n as u64);
    }
    proof {
        assert(s@ =~= spec_decimal(n as int));
    }
    s
}

proof fn lemma_digits_shape(n: nat)
    ensures
        spec_digits(n).len() >= 1,
        (spec_digits(n).len() == 1) == (n < 10),
        spec_digits(n)[0] != '-',
    decreases n,
{
    if n >= 10 {
        lemma_digits_shape(n / 10);
    }
}

proof fn lemma_digit_char_injective(a: int, b: int)
    requires
        0 <= a < 10,
        0 <= b < 10,
        digit_char(a) == digit_char(b),
    ensures
        a == b,
{
    assert(digit_char(a) as int == a + 48);
    assert(digit_char(b) as int == b + 48);
}

proof fn lemma_digits_injective(a: nat, b: nat)
    requires
        spec_digits(a) == spec_digits(b),
    ensures
        a == b,
    decreases a,
{
    lemma_digits_shape(a);
    lemma_digits_shape(b);
    if a < 10 {
        assert(spec_digits(a)[0] == digit_char(a as int));
        assert(spec_digits(b)[0] == digit_char(b as int));
        lemma_digit_char_injective(a as int, b as int);
    } else {
        let da = spec_digits(a);
        let db = spec_digits(b);
        assert(da.last() == digit_char((a % 10) as int));
        assert(db.last() == digit_char((b % 10) as int));
        lemma_digit_char_injective((a % 10) as int, (b % 10) as int);
        assert(da.drop_last() =~= spec_digits(a / 10));
        assert(db.drop_last() =~= spec_digits(b / 10));
        lemma_digits_injective(a / 10, b / 10);
    }
}

/// Distinct numbers have distinct decimal renderings.
pub proof fn law_decimal_injective(a: int, b: int)
    requires
        a != b,
    ensures
        spec_decimal(a) != spec_decimal(b),
{
    if spec_decimal(a) == spec_decimal(b) {
        if a < 0 && b < 0 {
            assert(spec_decimal(a).drop_first() =~= spec_digits((-a) as nat));
            assert(spec_decimal(b).drop_first() =~= spec_digits((-b) as nat));
            lemma_digits_injective((-a) as nat, (-b) as nat);
        } else if a < 0 {
            lemma_digits_shape(b as nat);
            assert(spec_decimal(a)[0] == '-');
        } else if b < 0 {
            lemma_digits_shape(a as nat);
            assert(spec_decimal(b)[0] == '-');
        } else {
            lemma_digits_injective(a as nat, b as nat);
        }
    }
}

} // verus!
