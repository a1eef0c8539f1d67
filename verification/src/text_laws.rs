//! What holds of the numbers and names that are read and written.
use vstd::prelude::*;
use vstd::utf8::*;

use crate::text::{
    all_digits, bool_value, decimal, digits_value, is_digit, smaller_at, text_less, u64_value,
    without_plus,
};

verus! {

/// A boolean setting is one of two words; every other text is none.
pub proof fn law_only_two_words_are_booleans(s: Seq<char>)
    ensures
        bool_value(s) == Some(true) <==> s == "true"@,
        bool_value(s) == Some(false) <==> s == "false"@,
        bool_value(s) is Some ==> s == "true"@ || s == "false"@,
{
    reveal_strlit("true");
    reveal_strlit("false");
    assert("true"@.len() == 4 && "false"@.len() == 5);
}

proof fn lemma_decimal_digits(n: nat)
    ensures
        decimal(n).len() > 0,
        all_digits(decimal(n)),
        digits_value(decimal(n)) == n,
        decimal(n)[0] == '0' ==> n == 0,
    decreases n,
{
    if n < 10 {
        assert(decimal(n).drop_last() =~= Seq::<char>::empty());
        reveal_with_fuel(digits_value, 2);
    } else {
        lemma_decimal_digits(n / 10);
        assert(decimal(n).drop_last() =~= decimal(n / 10));
        assert(decimal(n)[0] == decimal(n / 10)[0]);
    }
}

/// A number that is written out reads back as itself.
pub proof fn law_number_reads_back(n: u64)
    ensures
        u64_value(decimal(n as nat)) == Some(n),
{
    lemma_decimal_digits(n as nat);
    assert(is_digit(decimal(n as nat)[0]));
}

/// A number is written in decimal digits, the most significant first, and without
/// leading zeros; ten times a number and one digit more is the number with that digit
/// behind it.
pub proof fn law_number_is_written_in_decimal(n: nat, d: nat, i: int)
    requires
        d < 10,
    ensures
        decimal(d).len() == 1,
        decimal(d)[0] as int == 48 + d,
        n > 0 ==> decimal(10 * n + d).drop_last() == decimal(n),
        n > 0 ==> decimal(10 * n + d).last() as int == 48 + d,
        decimal(n)[0] == '0' ==> n == 0,
        0 <= i < decimal(n).len() ==> '0' <= decimal(n)[i] <= '9',
{
    lemma_decimal_digits(n);
    assert(0 <= i < decimal(n).len() ==> is_digit(decimal(n)[i]));
    if n > 0 {
        assert((10 * n + d) / 10 == n && (10 * n + d) % 10 == d);
        assert(decimal(10 * n + d) == decimal(n).push(decimal(10 * n + d).last()));
        assert(decimal(10 * n + d).drop_last() =~= decimal(n));
    }
}

/// A single digit reads as its value.
pub proof fn law_digit_reads_as_its_value(c: char)
    requires
        '0' <= c <= '9',
    ensures
        u64_value(seq![c]) matches Some(n) && n == c as int - 48,
{
    let s = seq![c];
    assert(without_plus(s) == s);
    assert(s.drop_last() =~= Seq::<char>::empty());
    reveal_with_fuel(digits_value, 2);
}

/// A digit behind a number makes it ten times as large and adds itself, as long as
/// that fits in 64 bits; a number that does not fit is none.
pub proof fn law_digit_behind_a_number(s: Seq<char>, n: u64, c: char)
    requires
        u64_value(s) == Some(n),
        '0' <= c <= '9',
    ensures
        n * 10 + (c as int - 48) <= u64::MAX ==> (u64_value(s.push(c)) matches Some(m) && m == n * 10
            + (c as int - 48)),
        n * 10 + (c as int - 48) > u64::MAX ==> u64_value(s.push(c)) is None,
{
    let d = without_plus(s);
    assert(s.len() > 0);
    assert(without_plus(s.push(c)) =~= d.push(c));
    assert(d.push(c).drop_last() =~= d);
    assert(all_digits(d.push(c)));
}

/// A row of digits that is too large for 64 bits stays so with a digit more.
pub proof fn law_too_large_stays_too_large(s: Seq<char>, c: char)
    requires
        s.len() > 0,
        forall|i: int| 0 <= i < s.len() ==> '0' <= #[trigger] s[i] <= '9',
        u64_value(s) is None,
        '0' <= c <= '9',
    ensures
        u64_value(s.push(c)) is None,
{
    assert(s[0] != '+');
    assert(all_digits(s));
    assert(s.push(c).drop_last() =~= s);
}

/// Only decimal digits, at least one of them, with at most a plus sign before them,
/// are a number: no other sign, no space and no letter is part of one.
pub proof fn law_number_holds_digits_only(s: Seq<char>, i: int)
    requires
        u64_value(s) is Some,
        0 <= i < s.len(),
    ensures
        '0' <= s[i] <= '9' || (i == 0 && s[0] == '+' && s.len() > 1),
        s.len() > 0,
{
    let d = without_plus(s);
    if s[0] == '+' {
        if i > 0 {
            assert(d[i - 1] == s[i]);
        }
    } else {
        assert(is_digit(d[i]));
    }
}

/// A plus sign before a number changes nothing; the empty text is no number.
pub proof fn law_plus_sign_changes_nothing(s: Seq<char>)
    ensures
        s.len() > 0 && s[0] != '+' ==> u64_value(seq!['+'] + s) == u64_value(s),
        u64_value(Seq::empty()) is None,
{
    let t = seq!['+'] + s;
    assert(t.skip(1) =~= s);
}

/// The first byte in which two names differ decides which comes first.
pub proof fn law_first_difference_decides(
    a: Seq<char>,
    b: Seq<char>,
    same: Seq<u8>,
    x: u8,
    y: u8,
    rest_a: Seq<u8>,
    rest_b: Seq<u8>,
)
    requires
        encode_utf8(a) == same.push(x) + rest_a,
        encode_utf8(b) == same.push(y) + rest_b,
        x < y,
    ensures
        text_less(a, b),
        !text_less(b, a),
{
    let (p, q) = (encode_utf8(a), encode_utf8(b));
    let k = same.len() as int;
    assert(p[k] == x && q[k] == y);
    assert(forall|j: int| 0 <= j < k ==> p[j] == q[j]);
    assert(smaller_at(p, q, k));
    assert forall|j: int| !smaller_at(q, p, j) by {
        if smaller_at(q, p, j) {
            assert(j <= k);
        }
    }
}

/// A name comes before every longer name that it begins.
pub proof fn law_beginning_comes_first(a: Seq<char>, b: Seq<char>)
    requires
        encode_utf8(a).is_prefix_of(encode_utf8(b)),
        encode_utf8(a).len() < encode_utf8(b).len(),
    ensures
        text_less(a, b),
        !text_less(b, a),
{
    let (p, q) = (encode_utf8(a), encode_utf8(b));
    assert(forall|j: int| 0 <= j < p.len() ==> p[j] == q[j]);
    assert(smaller_at(p, q, p.len() as int));
    assert forall|j: int| !smaller_at(q, p, j) by {}
}

} // verus!
