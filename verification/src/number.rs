//! Decimal index parsing as `u32::from_str` reads it, with 0 for anything
//! it rejects.

use vstd::prelude::*;
use crate::text::chars_of;

verus! {

/// Whether `c` is an ASCII decimal digit.
pub open spec fn is_digit(c: char) -> bool {
    '0' <= c && c <= '9'
}

/// The value of a string of decimal digits.
pub open spec fn digits_value(s: Seq<char>) -> nat
    decreases s.len(),
{
    if s.len() == 0 {
        0
    } else {
        (digits_value(s.drop_last()) * 10 + (s.last() as u32 - '0' as u32)) as nat
    }
}

/// The digits after an optional leading '+'.
pub open spec fn unsigned_body(s: Seq<char>) -> Seq<char> {
    if s.len() > 0 && s[0] == '+' {
        s.drop_first()
    } else {
        s
    }
}

/// What `u32::from_str` accepts: an optional '+', then one or more decimal
/// digits whose value fits in 32 bits.
pub open spec fn parsed_u32(s: Seq<char>) -> Option<u32> {
    let body = unsigned_body(s);
    if body.len() > 0 && (forall|i: int| 0 <= i < body.len() ==> is_digit(#[trigger] body[i]))
        && digits_value(body) <= u32::MAX {
        Some(digits_value(body) as u32)
    } else {
        None
    }
}

/// `s` read as a `u32` index, or 0 when it is not one.
pub open spec fn index_or_zero(s: Seq<char>) -> u32 {
    match parsed_u32(s) {
        Some(v) => v,
        None => 0,
    }
}

proof fn lemma_digits_grow(s: Seq<char>, i: int)
    requires
        0 <= i <= s.len(),
        forall|j: int| 0 <= j < s.len() ==> is_digit(#[trigger] s[j]),
    ensures
        digits_value(s.subrange(0, i)) <= digits_value(s),
    decreases s.len() - i,
{
    if i < s.len() {
        lemma_digits_grow(s, i + 1);
        let t = s.subrange(0, i + 1);
        assert(t.drop_last() =~= s.subrange(0, i));
        assert(is_digit(t.last()));
    } else {
        assert(s.subrange(0, i) =~= s);
    }
}

/// Reads a decimal database index; text that `u32::from_str` rejects reads
/// as 0.
pub fn parse_index_or_zero(s: &str) -> (r: u32)
    ensures
        r == index_or_zero(s@),
{
    let v = chars_of(s);
    let n = v.len();
    let start: usize = if n > 0 && v[0] == '+' { 1 } else { 0 };
    let ghost body = unsigned_body(s@);
    assert(body =~= s@.subrange(start as int, n as int));
    if start >= n {
        return 0;
    }
    let mut acc: u64 = 0;
    let mut i: usize = start;
    while i < n
        invariant
            v@ == s@,
            n == v@.len(),
            start < n,
            body == s@.subrange(start as int, n as int),
            body == unsigned_body(s@),
            start <= i <= n,
            acc <= u32::MAX,
            acc == digits_value(body.subrange(0, i - start)),
            forall|j: int| 0 <= j < i - start ==> is_digit(#[trigger] body[j]),
        decreases n - i,
    {
        let c = v[i];
        if !('0' <= c && c <= '9') {
            assert(body[i - start] == c);
            return 0;
        }
        let d = (c as u32 - '0' as u32) as u64;
        let next = acc * 10 + d;
        let ghost pre = body.subrange(0, i - start);
        let ghost post = body.subrange(0, i + 1 - start);
        assert(post.drop_last() =~= pre);
        assert(post.last() == c);
        assert(is_digit(body[i - start]));
        assert(digits_value(post) == next);
        if next > 0xffff_ffff {
            proof {
                assert forall|j: int| 0 <= j < i + 1 - start implies is_digit(#[trigger] body[j]) by {}
                if forall|j: int| 0 <= j < body.len() ==> is_digit(#[trigger] body[j]) {
                    lemma_digits_grow(body, i + 1 - start);
                }
            }
            return 0;
        }
        acc = next;
        i = i + 1;
    }
    assert(body.subrange(0, n - start) =~= body);
    acc as u32
}

/// The decimal digits of `n`.
pub open spec fn decimal(n: nat) -> Seq<char>
    decreases n,
{
    if n < 10 {
        seq![digit_char(n)]
    } else {
        decimal(n / 10) + seq![digit_char(n % 10)]
    }
}

/// The character of a decimal digit.
pub open spec fn digit_char(d: nat) -> char {
    if d == 0 { '0' } else if d == 1 { '1' } else if d == 2 { '2' } else if d == 3 { '3' }
    else if d == 4 { '4' } else if d == 5 { '5' } else if d == 6 { '6' } else if d == 7 { '7' }
    else if d == 8 { '8' } else { '9' }
}

proof fn lemma_digit_value(d: nat)
    requires
        d < 10,
    ensures
        is_digit(digit_char(d)),
        digit_char(d) as u32 - '0' as u32 == d,
{
}

proof fn lemma_decimal_digits(n: nat)
    ensures
        decimal(n).len() > 0,
        forall|i: int| 0 <= i < decimal(n).len() ==> is_digit(#[trigger] decimal(n)[i]),
        digits_value(decimal(n)) == n,
    decreases n,
{
    if n < 10 {
        lemma_digit_value(n);
        let s = decimal(n);
        assert(s.drop_last() =~= Seq::<char>::empty());
        assert(digits_value(s) == digits_value(s.drop_last()) * 10 + (s.last() as u32 - '0' as u32));
    } else {
        lemma_digit_value(n % 10);
        lemma_decimal_digits(n / 10);
        let s = decimal(n);
        assert(s.drop_last() =~= decimal(n / 10));
        assert(s.last() == digit_char(n % 10));
        assert(forall|i: int| 0 <= i < s.len() - 1 ==> s[i] == decimal(n / 10)[i]);
        assert(digits_value(s) == digits_value(s.drop_last()) * 10 + (s.last() as u32 - '0' as u32));
        assert(digits_value(s) == (n / 10) * 10 + n % 10);
    }
}

/// Law: an index written in decimal reads back as itself.
pub proof fn lemma_index_of_decimal(n: u32)
    ensures
        index_or_zero(decimal(n as nat)) == n,
{
    lemma_decimal_digits(n as nat);
    let s = decimal(n as nat);
    assert(is_digit(s[0]));
    assert(unsigned_body(s) == s);
}

} // verus!
