//! Text helpers: comparison, the part after a separator, decimal digits.
use vstd::prelude::*;

verus! {

/// Whether two strings hold the same characters.
pub fn same_text(a: &str, b: &str) -> (r: bool)
    ensures
        r == (a@ == b@),
{
    let x = String::from_str(a);
    let y = String::from_str(b);
    x == y
}

} // verus!

verus! {

/// The part of `s` after the last `sep` in it, or all of `s` where it holds no
/// `sep`: the last piece that splitting `s` at each `sep` gives.
pub open spec fn after_last(s: Seq<char>, sep: char) -> Seq<char>
    decreases s.len(),
{
    if s.len() == 0 {
        s
    } else if s.last() == sep {
        Seq::empty()
    } else {
        after_last(s.drop_last(), sep).push(s.last())
    }
}

/// The last piece of `s` split at `sep`: what `s.split(sep).last()` gives,
/// which is never absent.
pub fn last_segment(s: &str, sep: char) -> (r: String)
    ensures
        r@ == after_last(s@, sep),
{
    let n = s.unicode_len();
    let mut start: usize = 0;
    let mut i: usize = 0;
    while i < n
        invariant
            n == s@.len(),
            start <= i <= n,
            after_last(s@.take(i as int), sep) == s@.subrange(start as int, i as int),
        decreases n - i,
    {
        let c = s.get_char(i);
        assert(s@.take(i + 1).drop_last() == s@.take(i as int));
        if c == sep {
            start = i + 1;
        }
        i = i + 1;
        assert(s@.subrange(start as int, i as int) == s@.take(i as int).subrange(
            start as int,
            i as int,
        ));
    }
    assert(s@.take(n as int) == s@);
    let part = s.substring_char(start, n);
    String::from_str(part)
}

/// The last piece holds no separator, and `s` is that piece, or ends in it
/// right after a separator.
pub proof fn lemma_after_last_is_suffix(s: Seq<char>, sep: char)
    ensures
        !after_last(s, sep).contains(sep),
        after_last(s, sep).len() <= s.len(),
        after_last(s, sep) == s.skip(s.len() - after_last(s, sep).len()),
        after_last(s, sep).len() < s.len() ==> s[s.len() - after_last(s, sep).len() - 1] == sep,
    decreases s.len(),
{
    if s.len() > 0 && s.last() != sep {
        lemma_after_last_is_suffix(s.drop_last(), sep);
        let t = after_last(s.drop_last(), sep);
        assert(after_last(s, sep) == t.push(s.last()));
        assert(s.skip(s.len() - t.len() - 1) == s.drop_last().skip(s.len() - 1 - t.len()).push(
            s.last(),
        ));
        assert forall|k: int| 0 <= k < t.push(s.last()).len() implies t.push(s.last())[k] != sep by {
            if k < t.len() {
                assert(t[k] != sep);
            }
        }
    } else if s.len() > 0 {
        assert(s.skip(s.len() as int) == Seq::<char>::empty());
    }
}

/// The decimal digit for `d`, which is below ten.
pub open spec fn digit_char(d: int) -> char {
    if d == 0 { '0' }
    else if d == 1 { '1' }
    else if d == 2 { '2' }
    else if d == 3 { '3' }
    else if d == 4 { '4' }
    else if d == 5 { '5' }
    else if d == 6 { '6' }
    else if d == 7 { '7' }
    else if d == 8 { '8' }
    else { '9' }
}

/// The decimal form of `n`: its digits, most significant first, without
/// leading zeros ("0" for zero).
pub open spec fn decimal(n: nat) -> Seq<char>
    decreases n,
{
    if n < 10 {
        seq![digit_char(n as int)]
    } else {
        decimal(n / 10).push(digit_char((n % 10) as int))
    }
}

fn digit_text(d: u16) -> (r: &'static str)
    requires
        d < 10,
    ensures
        r@ == seq![digit_char(d as int)],
{
    proof {
        reveal_strlit("0");
        reveal_strlit("1");
        reveal_strlit("2");
        reveal_strlit("3");
        reveal_strlit("4");
        reveal_strlit("5");
        reveal_strlit("6");
        reveal_strlit("7");
        reveal_strlit("8");
        reveal_strlit("9");
    }
    if d == 0 { "0" }
    else if d == 1 { "1" }
    else if d == 2 { "2" }
    else if d == 3 { "3" }
    else if d == 4 { "4" }
    else if d == 5 { "5" }
    else if d == 6 { "6" }
    else if d == 7 { "7" }
    else if d == 8 { "8" }
    else { "9" }
}

/// Appends the decimal form of `n` to `out`.
pub fn push_decimal(out: &mut String, n: u16)
    ensures
        final(out)@ == old(out)@ + decimal(n as nat),
    decreases n,
{
    if n >= 10 {
        push_decimal(out, n / 10);
    }
    out.append(digit_text(n % 10));
    proof {
        if n >= 10 {
            assert(decimal(n as nat) == decimal((n / 10) as nat).push(digit_char((n % 10) as int)));
        }
    }
}

/// `s` cut to its first `max` characters where it is longer; a `max` of 0
/// means no limit.
pub open spec fn truncated(s: Seq<char>, max: usize) -> Seq<char> {
    if max == 0 || s.len() <= max {
        s
    } else {
        s.take(max as int)
    }
}

/// `s` cut to its first `max` characters where it is longer (no limit where
/// `max` is 0).
pub fn truncate_text(s: &String, max: usize) -> (r: String)
    ensures
        r@ == truncated(s@, max),
{
    let n = s.as_str().unicode_len();
    if max == 0 || n <= max {
        s.clone()
    } else {
        let part = s.as_str().substring_char(0, max);
        assert(s@.subrange(0, max as int) == s@.take(max as int));
        String::from_str(part)
    }
}

/// The value of a decimal digit character.
pub open spec fn digit_value(c: char) -> int {
    c as int - '0' as int
}

/// Whether a character is a decimal digit.
pub open spec fn is_digit(c: char) -> bool {
    '0' <= c <= '9'
}

/// The number that a sequence of decimal digits writes, most significant
/// digit first.
pub open spec fn digits_value(s: Seq<char>) -> int
    decreases s.len(),
{
    if s.len() == 0 {
        0
    } else {
        digits_value(s.drop_last()) * 10 + digit_value(s.last())
    }
}

/// The decimal form of `n` is made of digits only, starts with a digit other
/// than 0 unless `n` is 0, and reads back as `n`.
pub proof fn lemma_decimal_reads_back(n: nat)
    ensures
        decimal(n).len() >= 1,
        forall|i: int| 0 <= i < decimal(n).len() ==> is_digit(#[trigger] decimal(n)[i]),
        n != 0 ==> decimal(n)[0] != '0',
        digits_value(decimal(n)) == n,
    decreases n,
{
    if n >= 10 {
        lemma_decimal_reads_back(n / 10);
        let d = decimal(n / 10);
        assert(decimal(n) == d.push(digit_char((n % 10) as int)));
        assert(decimal(n).drop_last() == d);
        assert forall|i: int| 0 <= i < decimal(n).len() implies is_digit(#[trigger] decimal(n)[i]) by {
            if i < d.len() {
                assert(decimal(n)[i] == d[i]);
            }
        }
        assert(digit_value(digit_char((n % 10) as int)) == n % 10);
        assert(digits_value(decimal(n)) == digits_value(d) * 10 + digit_value(
            digit_char((n % 10) as int),
        ));
        assert((n / 10) * 10 + n % 10 == n);
    } else {
        assert(decimal(n) == seq![digit_char(n as int)]);
        assert(decimal(n).drop_last() =~= Seq::<char>::empty());
        assert(digit_value(digit_char(n as int)) == n);
        assert(digits_value(Seq::<char>::empty()) == 0);
        assert(digits_value(decimal(n)) == digits_value(Seq::<char>::empty()) * 10 + digit_value(
            digit_char(n as int),
        ));
    }
}

/// Cutting a text keeps its first characters: as many as the limit where the
/// text is longer and there is a limit, all of them otherwise.
pub proof fn lemma_truncated_is_prefix(s: Seq<char>, max: usize)
    ensures
        truncated(s, max) == s.take(truncated(s, max).len() as int),
        truncated(s, max).len() == if max == 0 || s.len() <= max {
            s.len()
        } else {
            max as nat
        },
{
    if max == 0 || s.len() <= max {
        assert(s.take(s.len() as int) =~= s);
    }
}

} // verus!
