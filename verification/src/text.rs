//! Decimal numbers and small helpers on strings.
//!
//! Contracts speak of a string through its view, a `Seq<char>`.

use vstd::prelude::*;
use vstd::std_specs::iter::IteratorSpec;

verus! {

/// Whether `c` is one of the ASCII digits `0` to `9`.
pub open spec fn is_digit(c: char) -> bool {
    '0' <= c && c <= '9'
}

/// The number that the digit `c` stands for.
pub open spec fn digit_value(c: char) -> nat
    recommends
        is_digit(c),
{
    (c as int - '0' as int) as nat
}

/// The digit that stands for `d`.
pub open spec fn digit_char(d: nat) -> char
    recommends
        d < 10,
{
    (d + 48) as char
}

/// Whether every character of `s` is a digit.
pub open spec fn all_digits(s: Seq<char>) -> bool {
    forall|i: int| 0 <= i < s.len() ==> is_digit(#[trigger] s[i])
}

/// The shortest decimal numeral of `n`: no sign, no leading zero but for `0`
/// itself.
pub open spec fn decimal(n: nat) -> Seq<char>
    decreases n,
{
    if n < 10 {
        seq![digit_char(n)]
    } else {
        decimal(n / 10).push(digit_char(n % 10))
    }
}

/// The number that a string of digits denotes, most significant digit first.
/// The empty string denotes zero.
pub open spec fn decimal_value(s: Seq<char>) -> nat
    recommends
        all_digits(s),
    decreases s.len(),
{
    if s.len() == 0 {
        0
    } else {
        decimal_value(s.drop_last()) * 10 + digit_value(s.last())
    }
}

/// A numeral is made of digits, is not empty, and denotes the number it was
/// made from.
pub proof fn lemma_decimal_denotes(n: nat)
    ensures
        decimal(n).len() >= 1,
        all_digits(decimal(n)),
        decimal_value(decimal(n)) == n,
    decreases n,
{
    if n < 10 {
        let s = decimal(n);
        assert(decimal_value(s.drop_last()) == 0);
    } else {
        lemma_decimal_denotes(n / 10);
        let head = decimal(n / 10);
        let s = decimal(n);
        assert(s.drop_last() =~= head);
        assert(all_digits(s));
    }
}

/// A numeral starts with `0` only if it is `0`.
pub proof fn lemma_decimal_has_no_leading_zero(n: nat)
    ensures
        decimal(n)[0] == '0' ==> n == 0,
    decreases n,
{
    if n >= 10 {
        lemma_decimal_denotes(n / 10);
        lemma_decimal_has_no_leading_zero(n / 10);
    }
}

/// The one-character string of a digit.
fn digit_text(d: u16) -> (r: &'static str)
    requires
        d < 10,
    ensures
        r@ == seq![digit_char(d as nat)],
{
    proof {
        reveal_strlit("0");
        reveal_strlit("1");
        reveal_strlit("2");
        reveal_strlit("3");
        reveal_strlit("4");
        reveal_strlit("5");
        reveal_strlit("6");
        reveal_strlit("7");
        reveal_strlit("8");
        reveal_strlit("9");
    }
    let r = match d {
        0 => "0",
        1 => "1",
        2 => "2",
        3 => "3",
        4 => "4",
        5 => "5",
        6 => "6",
        7 => "7",
        8 => "8",
        _ => "9",
    };
    r
}

/// Writes `n` as its shortest decimal numeral.
pub fn decimal_text(n: u16) -> (r: String)
    ensures
        r@ == decimal(n as nat),
    decreases n,
{
    if n < 10 {
        digit_text(n).to_string()
    } else {
        let mut r = decimal_text(n / 10);
        r.append(digit_text(n % 10));
        r
    }
}

/// The characters of `s`, in order.
pub fn chars_of(s: &str) -> (v: Vec<char>)
    ensures
        v@ == s@,
{
    let mut it = s.chars();
    let mut v: Vec<char> = Vec::new();
    loop
        invariant
            it.remaining() == s@.skip(v@.len() as int),
            v@ == s@.take(v@.len() as int),
            v@.len() <= s@.len(),
        ensures
            v@ == s@,
        decreases s@.len() - v@.len(),
    {
        broadcast use vstd::string::next_postcondition;
        broadcast use vstd::string::axiom_spec_iter;

        match it.next() {
            Some(c) => {
                v.push(c);
            },
            None => {
                break ;
            },
        }
    }
    v
}

/// Whether `s` begins with `prefix`.
pub open spec fn has_prefix(s: Seq<char>, prefix: Seq<char>) -> bool {
    prefix.len() <= s.len() && s.take(prefix.len() as int) == prefix
}

/// `s` with every occurrence of `from` replaced by `to`. The occurrences are
/// sought from left to right and do not overlap; an empty `from` occurs
/// nowhere.
pub open spec fn replaced(s: Seq<char>, from: Seq<char>, to: Seq<char>) -> Seq<char>
    decreases s.len(),
{
    if from.len() == 0 || s.len() < from.len() {
        s
    } else if has_prefix(s, from) {
        to + replaced(s.skip(from.len() as int), from, to)
    } else {
        seq![s[0]] + replaced(s.skip(1), from, to)
    }
}

/// Tells whether `wanted` stands in `chars` at the place `at`.
fn stands_at(chars: &Vec<char>, at: usize, wanted: &Vec<char>) -> (r: bool)
    requires
        at + wanted.len() <= chars.len(),
    ensures
        r == has_prefix(chars@.skip(at as int), wanted@),
{
    let ghost rest = chars@.skip(at as int);
    let mut k: usize = 0;
    while k < wanted.len()
        invariant
            k <= wanted.len(),
            at + wanted.len() <= chars.len(),
            rest == chars@.skip(at as int),
            forall|j: int| 0 <= j < k ==> rest[j] == wanted@[j],
        decreases wanted.len() - k,
    {
        if chars[at + k] != wanted[k] {
            return false;
        }
        k += 1;
    }
    assert(rest.take(wanted.len() as int) =~= wanted@);
    true
}

/// Tells whether `text` begins with `prefix`.
pub fn starts_with(text: &str, prefix: &str) -> (r: bool)
    ensures
        r == has_prefix(text@, prefix@),
{
    let chars = chars_of(text);
    let wanted = chars_of(prefix);
    if wanted.len() > chars.len() {
        return false;
    }
    assert(chars@.skip(0) =~= chars@);
    stands_at(&chars, 0, &wanted)
}

/// Replaces every occurrence of `pattern` in `text` by `replacement`.
pub fn replace_all(text: &str, pattern: &str, replacement: &str) -> (r: String)
    ensures
        r@ == replaced(text@, pattern@, replacement@),
{
    let chars = chars_of(text);
    let wanted = chars_of(pattern);
    let n = chars.len();
    let m = wanted.len();
    if m == 0 || n < m {
        return text.to_string();
    }
    let ghost s = text@;
    let ghost from = pattern@;
    let ghost to = replacement@;
    let mut out = String::new();
    let mut run: usize = 0;
    let mut i: usize = 0;
    proof {
        assert(s.skip(0) =~= s);
    }
    while i <= n - m
        invariant
            0 < m <= n,
            n == chars.len(),
            m == wanted.len(),
            chars@ == s,
            wanted@ == from,
            s == text@,
            to == replacement@,
            run <= i <= n,
            replaced(s, from, to) == out@ + s.subrange(run as int, i as int) + replaced(
                s.skip(i as int),
                from,
                to,
            ),
        decreases n - i,
    {
        let ghost rest = s.skip(i as int);
        if stands_at(&chars, i, &wanted) {
            out.append(text.substring_char(run, i));
            out.append(replacement);
            proof {
                assert(rest.skip(m as int) =~= s.skip(i + m));
                assert(out@ + s.subrange(i + m, i + m) + replaced(s.skip(i + m), from, to)
                    =~= replaced(s, from, to));
            }
            i += m;
            run = i;
        } else {
            proof {
                assert(rest.skip(1) =~= s.skip(i + 1));
                assert(s.subrange(run as int, i as int) + seq![rest[0]] =~= s.subrange(
                    run as int,
                    i + 1,
                ));
                assert(out@ + s.subrange(run as int, i + 1) + replaced(s.skip(i + 1), from, to)
                    =~= replaced(s, from, to));
            }
            i += 1;
        }
    }
    out.append(text.substring_char(run, n));
    proof {
        assert(s.subrange(run as int, i as int) + s.skip(i as int) =~= s.subrange(
            run as int,
            n as int,
        ));
    }
    out
}

} // verus!
