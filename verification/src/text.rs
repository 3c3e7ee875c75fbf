//! Character-sequence building blocks: appending string slices to a character
//! buffer, rendering unsigned integers in decimal, and rendering the
//! fixed-point sampling parameters (millionths) the way the wire needs them.
use vstd::prelude::*;
use vstd::string::StrSliceExecFns;

verus! {

/// Concatenation of sequences is associative.
pub proof fn lemma_flat2<A>(o: Seq<A>, a: Seq<A>, b: Seq<A>)
    ensures
        (o + a) + b == o + (a + b),
{
    assert((o + a) + b =~= o + (a + b));
}

/// Pulls a chain of three appended pieces out of the accumulator.
pub proof fn lemma_flat3<A>(o: Seq<A>, a: Seq<A>, b: Seq<A>, c: Seq<A>)
    ensures
        ((o + a) + b) + c == o + ((a + b) + c),
{
    lemma_flat2(o, a, b);
    lemma_flat2(o, a + b, c);
}

/// Pulls a chain of four appended pieces out of the accumulator.
pub proof fn lemma_flat4<A>(o: Seq<A>, a: Seq<A>, b: Seq<A>, c: Seq<A>, d: Seq<A>)
    ensures
        (((o + a) + b) + c) + d == o + (((a + b) + c) + d),
{
    lemma_flat3(o, a, b, c);
    lemma_flat2(o, (a + b) + c, d);
}

/// Pulls a chain of five appended pieces out of the accumulator.
pub proof fn lemma_flat5<A>(o: Seq<A>, a: Seq<A>, b: Seq<A>, c: Seq<A>, d: Seq<A>, e: Seq<A>)
    ensures
        ((((o + a) + b) + c) + d) + e == o + ((((a + b) + c) + d) + e),
{
    lemma_flat4(o, a, b, c, d);
    lemma_flat2(o, (((a + b) + c) + d), e);
}

/// Decimal digit character for a value below ten.
pub open spec fn digit_char(d: int) -> char {
    (48 + d) as char
}

/// Decimal rendering of a natural number, most significant digit first.
pub open spec fn dec_seq(n: int) -> Seq<char>
    decreases n,
{
    if n < 10 {
        seq![digit_char(if n < 0 { 0 } else { n })]
    } else {
        dec_seq(n / 10) + seq![digit_char(n % 10)]
    }
}

/// The six decimal digits of a value below one million.
pub open spec fn six_digits(f: int) -> Seq<char> {
    seq![
        digit_char(f / 100000 % 10),
        digit_char(f / 10000 % 10),
        digit_char(f / 1000 % 10),
        digit_char(f / 100 % 10),
        digit_char(f / 10 % 10),
        digit_char(f % 10),
    ]
}

/// Drops trailing zero digits but always keeps at least one character.
pub open spec fn strip_trailing_zeros(s: Seq<char>) -> Seq<char>
    decreases s.len(),
{
    if s.len() > 1 && s.last() == '0' {
        strip_trailing_zeros(s.drop_last())
    } else {
        s
    }
}

/// Decimal-point rendering of a fixed-point value in millionths, matching the
/// shortest form a float serializer emits for such values: an integer part, a
/// dot, and the fraction digits with trailing zeros removed ("0.5", "1.0").
pub open spec fn micros_seq(m: int) -> Seq<char> {
    dec_seq(m / 1000000) + seq!['.'] + strip_trailing_zeros(six_digits(m % 1000000))
}

/// Appends every character of `s` to `out`.
pub fn push_str_chars(out: &mut Vec<char>, s: &str)
    ensures
        final(out)@ == old(out)@ + s@,
{
    let n = s.unicode_len();
    let mut i: usize = 0;
    while i < n
        invariant
            n == s@.len(),
            i <= n,
            out@ == old(out)@ + s@.take(i as int),
        decreases n - i,
    {
        let c = s.get_char(i);
        out.push(c);
        proof {
            assert(s@.take(i + 1) =~= s@.take(i as int) + seq![s@[i as int]]);
        }
        i += 1;
    }
    proof {
        assert(s@.take(n as int) =~= s@);
    }
}

/// Appends the decimal rendering of `n` to `out`.
pub fn push_u32_dec(out: &mut Vec<char>, n: u32)
    ensures
        final(out)@ == old(out)@ + dec_seq(n as int),
    decreases n,
{
    if n < 10 {
        out.push((48u8 + (n as u8)) as char);
    } else {
        push_u32_dec(out, n / 10);
        out.push((48u8 + ((n % 10) as u8)) as char);
    }
}

/// Appends the fixed-point rendering of `m` millionths to `out`.
pub fn push_micros(out: &mut Vec<char>, m: u32)
    requires
        m <= 1000000,
    ensures
        final(out)@ == old(out)@ + micros_seq(m as int),
{
    push_u32_dec(out, m / 1000000);
    out.push('.');
    let f = m % 1000000;
    let mut digits: Vec<char> = Vec::new();
    digits.push((48u8 + ((f / 100000 % 10) as u8)) as char);
    digits.push((48u8 + ((f / 10000 % 10) as u8)) as char);
    digits.push((48u8 + ((f / 1000 % 10) as u8)) as char);
    digits.push((48u8 + ((f / 100 % 10) as u8)) as char);
    digits.push((48u8 + ((f / 10 % 10) as u8)) as char);
    digits.push((48u8 + ((f % 10) as u8)) as char);
    proof {
        assert(digits@ =~= six_digits(f as int));
    }
    while digits.len() > 1 && digits[digits.len() - 1] == '0'
        invariant
            digits.len() >= 1,
            strip_trailing_zeros(digits@) == strip_trailing_zeros(six_digits(f as int)),
        decreases digits.len(),
    {
        proof {
            assert(digits@.drop_last() =~= digits@.subrange(0, digits@.len() - 1));
        }
        digits.pop();
    }
    proof {
        assert(strip_trailing_zeros(digits@) == digits@);
    }
    let mut k: usize = 0;
    while k < digits.len()
        invariant
            k <= digits.len(),
            digits@ == strip_trailing_zeros(six_digits(f as int)),
            out@ == old(out)@ + dec_seq((m / 1000000) as int) + seq!['.'] + digits@.take(k as int),
        decreases digits.len() - k,
    {
        let c = digits[k];
        out.push(c);
        proof {
            assert(digits@.take(k + 1) =~= digits@.take(k as int) + seq![digits@[k as int]]);
        }
        k += 1;
    }
    proof {
        assert(digits@.take(digits@.len() as int) =~= digits@);
    }
}

/// The characters of a string slice as a vector.
pub fn chars_of(s: &str) -> (r: Vec<char>)
    ensures
        r@ == s@,
{
    let n = s.unicode_len();
    let mut out: Vec<char> = Vec::new();
    let mut i: usize = 0;
    while i < n
        invariant
            n == s@.len(),
            i <= n,
            out@ == s@.take(i as int),
        decreases n - i,
    {
        let c = s.get_char(i);
        out.push(c);
        proof {
            assert(s@.take(i + 1) =~= s@.take(i as int) + seq![s@[i as int]]);
            assert(out@ =~= s@.take(i + 1));
        }
        i += 1;
    }
    proof {
        assert(s@.take(n as int) =~= s@);
    }
    out
}

/// Relies on `alloc::string::String`'s `FromIterator<char>` impl: collecting
/// the characters of a vector yields the string of exactly those characters.
#[verifier::external_body]
pub fn string_from_chars(v: &Vec<char>) -> (r: String)
    ensures
        r@ == v@,
{
    v.iter().collect()
}

} // verus!
