//! Lists of ports as the operator writes them: numbers separated by commas.

use vstd::prelude::*;
use crate::text::{
    all_digits, chars_of, decimal, decimal_value, is_digit, lemma_decimal_denotes,
};

verus! {

/// Whether `c` is white space: a character with the Unicode property
/// `White_Space`.
pub open spec fn is_space(c: char) -> bool {
    let n = c as u32;
    ||| 0x09 <= n <= 0x0D
    ||| n == 0x20
    ||| n == 0x85
    ||| n == 0xA0
    ||| n == 0x1680
    ||| 0x2000 <= n <= 0x200A
    ||| n == 0x2028
    ||| n == 0x2029
    ||| n == 0x202F
    ||| n == 0x205F
    ||| n == 0x3000
}

/// `s` without the white space at its start.
pub open spec fn trim_start(s: Seq<char>) -> Seq<char>
    decreases s.len(),
{
    if s.len() > 0 && is_space(s[0]) {
        trim_start(s.drop_first())
    } else {
        s
    }
}

/// `s` without the white space at its end.
pub open spec fn trim_end(s: Seq<char>) -> Seq<char>
    decreases s.len(),
{
    if s.len() > 0 && is_space(s.last()) {
        trim_end(s.drop_last())
    } else {
        s
    }
}

/// `s` without the white space at its start and at its end.
pub open spec fn trimmed(s: Seq<char>) -> Seq<char> {
    trim_end(trim_start(s))
}

/// The port that `s` denotes: an optional `+`, then one digit or more, no
/// other character, and a value of at most 65535. Leading zeros are allowed.
pub open spec fn parsed_port(s: Seq<char>) -> Option<u16> {
    let digits = if s.len() > 0 && s[0] == '+' {
        s.drop_first()
    } else {
        s
    };
    if digits.len() > 0 && all_digits(digits) && decimal_value(digits) <= 65535 {
        Some(decimal_value(digits) as u16)
    } else {
        None
    }
}

/// The pieces into which the commas cut `s`. There is one piece more than
/// there are commas; a piece may be empty.
pub open spec fn pieces(s: Seq<char>) -> Seq<Seq<char>>
    decreases s.len(),
{
    if s.len() == 0 {
        seq![Seq::empty()]
    } else {
        let before = pieces(s.drop_last());
        if s.last() == ',' {
            before.push(Seq::empty())
        } else {
            before.drop_last().push(before.last().push(s.last()))
        }
    }
}

/// The port that a piece contributes: the one it denotes once trimmed, or
/// none.
pub open spec fn port_of(piece: Seq<char>) -> Seq<u16> {
    match parsed_port(trimmed(piece)) {
        Some(port) => seq![port],
        None => Seq::empty(),
    }
}

/// The ports that the pieces contribute, in order.
pub open spec fn ports_in(pieces: Seq<Seq<char>>) -> Seq<u16>
    decreases pieces.len(),
{
    if pieces.len() == 0 {
        Seq::empty()
    } else {
        ports_in(pieces.drop_last()) + port_of(pieces.last())
    }
}

/// The ports that a list names: `s` is cut at its commas, each piece is
/// trimmed, and the pieces that denote a port give the list, in order. The
/// other pieces are passed over.
pub open spec fn port_list(s: Seq<char>) -> Seq<u16> {
    ports_in(pieces(s))
}

/// The pieces put together again, with a comma between each two.
pub open spec fn joined(pieces: Seq<Seq<char>>) -> Seq<char>
    decreases pieces.len(),
{
    if pieces.len() == 0 {
        Seq::empty()
    } else if pieces.len() == 1 {
        pieces[0]
    } else {
        joined(pieces.drop_last()).push(',') + pieces.last()
    }
}

/// The pieces are what lies between the commas: there is at least one piece,
/// no piece holds a comma, and the pieces with commas between them are the
/// text again.
pub proof fn lemma_pieces_cut_at_commas(s: Seq<char>)
    ensures
        pieces(s).len() >= 1,
        forall|i: int, j: int|
            0 <= i < pieces(s).len() && 0 <= j < pieces(s)[i].len() ==> #[trigger] pieces(
                s,
            )[i][j] != ',',
        joined(pieces(s)) == s,
    decreases s.len(),
{
    if s.len() > 0 {
        let before = pieces(s.drop_last());
        let all = pieces(s);
        lemma_pieces_cut_at_commas(s.drop_last());
        if s.last() == ',' {
            assert(all.drop_last() =~= before);
        } else if before.len() > 1 {
            assert(all.drop_last() =~= before.drop_last());
            assert(joined(all) =~= joined(before).push(s.last()));
        }
    }
}

/// A text without a comma is one piece.
pub proof fn lemma_one_piece(s: Seq<char>)
    requires
        forall|i: int| 0 <= i < s.len() ==> s[i] != ',',
    ensures
        pieces(s) == seq![s],
    decreases s.len(),
{
    if s.len() == 0 {
        assert(s =~= Seq::<char>::empty());
    } else {
        lemma_one_piece(s.drop_last());
        assert(s.drop_last().push(s.last()) =~= s);
    }
}

/// Trimming takes away white space and nothing else: what is left is a
/// stretch of the text, all before it and all after it is white space, and it
/// neither begins nor ends with white space.
pub proof fn lemma_trimmed_is_the_core(s: Seq<char>)
    ensures
        exists|from: int, to: int|
            {
                &&& 0 <= from <= to <= s.len()
                &&& #[trigger] s.subrange(from, to) == trimmed(s)
                &&& forall|k: int| 0 <= k < from ==> is_space(s[k])
                &&& forall|k: int| to <= k < s.len() ==> is_space(s[k])
                &&& from < to ==> !is_space(s[from]) && !is_space(s[to - 1])
            },
{
    let from = lemma_trim_start_is_a_tail(s);
    let tail = s.subrange(from, s.len() as int);
    let len = lemma_trim_end_is_a_head(tail);
    let to = from + len;
    assert(tail.subrange(0, len) =~= s.subrange(from, to));
    assert forall|k: int| to <= k < s.len() implies is_space(s[k]) by {
        assert(s[k] == tail[k - from]);
    }
}

/// What `trim_start` leaves is the text from some place on; all before that
/// place is white space, and what is left does not begin with white space.
proof fn lemma_trim_start_is_a_tail(s: Seq<char>) -> (from: int)
    ensures
        0 <= from <= s.len(),
        trim_start(s) == s.subrange(from, s.len() as int),
        forall|k: int| 0 <= k < from ==> is_space(s[k]),
        from < s.len() ==> !is_space(s[from]),
    decreases s.len(),
{
    if s.len() > 0 && is_space(s[0]) {
        let rest = s.drop_first();
        let inner = lemma_trim_start_is_a_tail(rest);
        assert forall|k: int| 0 <= k < inner + 1 implies is_space(s[k]) by {
            if k > 0 {
                assert(s[k] == rest[k - 1]);
            }
        }
        inner + 1
    } else {
        0
    }
}

/// What `trim_end` leaves is the text up to some place; all from that place
/// on is white space, and what is left does not end with white space.
proof fn lemma_trim_end_is_a_head(s: Seq<char>) -> (to: int)
    ensures
        0 <= to <= s.len(),
        trim_end(s) == s.subrange(0, to),
        forall|k: int| to <= k < s.len() ==> is_space(s[k]),
        0 < to ==> !is_space(s[to - 1]),
        s.len() > 0 && !is_space(s[0]) ==> to > 0,
    decreases s.len(),
{
    if s.len() > 0 && is_space(s.last()) {
        let rest = s.drop_last();
        let inner = lemma_trim_end_is_a_head(rest);
        assert forall|k: int| inner <= k < s.len() implies is_space(s[k]) by {
            if k < rest.len() {
                assert(s[k] == rest[k]);
            }
        }
        inner
    } else {
        s.len() as int
    }
}

/// A port written as a decimal numeral is read as that port, and a list that
/// is one such numeral names that port alone.
pub proof fn lemma_numeral_is_read_back(port: u16)
    ensures
        parsed_port(decimal(port as nat)) == Some(port),
        port_list(decimal(port as nat)) == seq![port],
{
    let numeral = decimal(port as nat);
    lemma_decimal_denotes(port as nat);
    lemma_one_piece(numeral);
    let all = pieces(numeral);
    assert(ports_in(all.drop_last()) =~= Seq::<u16>::empty());
}

/// The value of a string of digits is at least the value of each of its
/// beginnings.
proof fn lemma_value_grows(s: Seq<char>, k: int)
    requires
        0 <= k <= s.len(),
    ensures
        decimal_value(s.take(k)) <= decimal_value(s),
    decreases s.len() - k,
{
    if k == s.len() {
        assert(s.take(k) =~= s);
    } else {
        lemma_value_grows(s, k + 1);
        assert(s.take(k + 1).drop_last() =~= s.take(k));
    }
}

/// Tells whether `c` is white space.
pub fn char_is_space(c: char) -> (r: bool)
    ensures
        r == is_space(c),
{
    let n: u32 = c as u32;
    (0x09 <= n && n <= 0x0D) || n == 0x20 || n == 0x85 || n == 0xA0 || n == 0x1680 || (0x2000 <= n
        && n <= 0x200A) || n == 0x2028 || n == 0x2029 || n == 0x202F || n == 0x205F || n == 0x3000
}

/// The port that the characters from `lo` up to `hi` denote.
fn port_between(chars: &Vec<char>, lo: usize, hi: usize) -> (port: Option<u16>)
    requires
        lo <= hi <= chars.len(),
    ensures
        port == parsed_port(chars@.subrange(lo as int, hi as int)),
{
    let ghost s = chars@.subrange(lo as int, hi as int);
    let mut from: usize = lo;
    if lo < hi && chars[lo] == '+' {
        from = lo + 1;
    }
    let ghost digits = chars@.subrange(from as int, hi as int);
    assert(digits =~= if s.len() > 0 && s[0] == '+' {
        s.drop_first()
    } else {
        s
    });
    if from == hi {
        return None;
    }
    let mut value: u32 = 0;
    let mut i: usize = from;
    while i < hi
        invariant
            from <= i <= hi <= chars.len(),
            digits == chars@.subrange(from as int, hi as int),
            digits.len() > 0,
            s == chars@.subrange(lo as int, hi as int),
            parsed_port(s) == if all_digits(digits) && decimal_value(digits) <= 65535 {
                Some(decimal_value(digits) as u16)
            } else {
                None
            },
            all_digits(digits.take(i - from)),
            value == decimal_value(digits.take(i - from)),
            value <= 65535,
        decreases hi - i,
    {
        let c = chars[i];
        let ghost next = digits.take(i - from + 1);
        assert(next.drop_last() =~= digits.take(i - from));
        if !('0' <= c && c <= '9') {
            assert(!is_digit(digits[i - from]));
            return None;
        }
        let d: u32 = c as u32 - '0' as u32;
        value = value * 10 + d;
        assert(all_digits(next));
        if value > 65535 {
            proof {
                lemma_value_grows(digits, i - from + 1);
            }
            return None;
        }
        i += 1;
    }
    assert(digits.take(i - from) =~= digits);
    Some(value as u16)
}

/// The port that the characters from `lo` up to `hi` denote once the white
/// space around them is taken away.
fn port_in_piece(chars: &Vec<char>, lo: usize, hi: usize) -> (port: Option<u16>)
    requires
        lo <= hi <= chars.len(),
    ensures
        port == parsed_port(trimmed(chars@.subrange(lo as int, hi as int))),
{
    let mut from: usize = lo;
    while from < hi && char_is_space(chars[from])
        invariant
            lo <= from <= hi <= chars.len(),
            trim_start(chars@.subrange(lo as int, hi as int)) == trim_start(
                chars@.subrange(from as int, hi as int),
            ),
        decreases hi - from,
    {
        assert(chars@.subrange(from as int, hi as int).drop_first() =~= chars@.subrange(
            from + 1,
            hi as int,
        ));
        from += 1;
    }
    assert(trim_start(chars@.subrange(lo as int, hi as int)) == chars@.subrange(
        from as int,
        hi as int,
    ));
    let mut to: usize = hi;
    while from < to && char_is_space(chars[to - 1])
        invariant
            from <= to <= hi <= chars.len(),
            trim_end(chars@.subrange(from as int, hi as int)) == trim_end(
                chars@.subrange(from as int, to as int),
            ),
        decreases to - from,
    {
        assert(chars@.subrange(from as int, to as int).drop_last() =~= chars@.subrange(
            from as int,
            to - 1,
        ));
        to -= 1;
    }
    assert(trim_end(chars@.subrange(from as int, hi as int)) == chars@.subrange(
        from as int,
        to as int,
    ));
    port_between(chars, from, to)
}

/// Reads a list of ports: numbers separated by commas, with white space
/// allowed around each. What is no port is passed over; no list is the empty
/// list.
pub fn parse_port_list(input: Option<String>) -> (ports: Vec<u16>)
    ensures
        ports@ == match input {
            Some(text) => port_list(text@),
            None => Seq::empty(),
        },
{
    let text = match input {
        Some(text) => text,
        None => {
            return Vec::new();
        },
    };
    let chars = chars_of(text.as_str());
    let n = chars.len();
    let mut ports: Vec<u16> = Vec::new();
    let mut start: usize = 0;
    let mut i: usize = 0;
    while i < n
        invariant
            n == chars.len(),
            start <= i <= n,
            pieces(chars@.take(i as int)).len() >= 1,
            pieces(chars@.take(i as int)).last() == chars@.subrange(start as int, i as int),
            ports@ == ports_in(pieces(chars@.take(i as int)).drop_last()),
        decreases n - i,
    {
        let ghost before = pieces(chars@.take(i as int));
        let ghost after = pieces(chars@.take(i + 1));
        assert(chars@.take(i + 1).drop_last() =~= chars@.take(i as int));
        if chars[i] == ',' {
            let port = port_in_piece(&chars, start, i);
            if let Some(p) = port {
                ports.push(p);
            }
            assert(after.drop_last() =~= before);
            start = i + 1;
        } else {
            assert(after.drop_last() =~= before.drop_last());
            assert(chars@.subrange(start as int, i + 1) =~= chars@.subrange(
                start as int,
                i as int,
            ).push(chars[i as int]));
        }
        i += 1;
    }
    assert(chars@.take(n as int) =~= chars@);
    let port = port_in_piece(&chars, start, n);
    if let Some(p) = port {
        ports.push(p);
    }
    ports
}

} // verus!
