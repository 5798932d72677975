//! Character-level text handling: splitting on a separator, trimming,
//! comparing, and reading decimal numbers.

use vstd::prelude::*;
use vstd::string::*;

verus! {

/// The characters of `s`, in order.
pub fn chars_of(s: &str) -> (v: Vec<char>)
    ensures
        v@ == s@,
{
    let mut v: Vec<char> = Vec::new();
    for c in it: s.chars()
        invariant
            it.seq() == s@,
            v@ == it.seq().take(it.index()),
    {
        v.push(c);
    }
    v
}

/// Whether two texts hold the same characters.
pub fn text_eq(a: &str, b: &str) -> (same: bool)
    ensures
        same == (a@ == b@),
{
    let x = chars_of(a);
    let y = chars_of(b);
    if x.len() != y.len() {
        return false;
    }
    let n = x.len();
    let mut i: usize = 0;
    while i < n
        invariant
            i <= n,
            n == x@.len(),
            n == y@.len(),
            x@ == a@,
            y@ == b@,
            forall|k: int| 0 <= k < i ==> x@[k] == y@[k],
        decreases n - i,
    {
        if x[i] != y[i] {
            return false;
        }
        i += 1;
    }
    assert(x@ =~= y@);
    true
}

/// The position of the first `sep` in `s` at or after `from`, or the length
/// of `s` where there is none.
pub open spec fn next_sep(s: Seq<char>, sep: char, from: int) -> int
    decreases s.len() - from,
{
    if from < 0 || from >= s.len() {
        s.len() as int
    } else if s[from] == sep {
        from
    } else {
        next_sep(s, sep, from + 1)
    }
}

/// The pieces of `s` from position `from` on, cut at every `sep`.
pub open spec fn split_from(s: Seq<char>, sep: char, from: int) -> Seq<Seq<char>>
    decreases s.len() - from,
{
    let stop = next_sep(s, sep, from);
    if from < 0 || from > s.len() || stop < from {
        Seq::empty()
    } else if stop >= s.len() {
        seq![s.subrange(from, s.len() as int)]
    } else {
        seq![s.subrange(from, stop)] + split_from(s, sep, stop + 1)
    }
}

/// The pieces of `s` between occurrences of `sep`: one more piece than
/// there are separators, none of them holding a separator.
pub open spec fn split(s: Seq<char>, sep: char) -> Seq<Seq<char>> {
    split_from(s, sep, 0)
}

/// The number of occurrences of `sep` in `s` at or after `from`.
pub open spec fn count_from(s: Seq<char>, sep: char, from: int) -> nat
    decreases s.len() - from,
{
    if from < 0 || from >= s.len() {
        0
    } else if s[from] == sep {
        1 + count_from(s, sep, from + 1)
    } else {
        count_from(s, sep, from + 1)
    }
}

/// The pieces joined again, with `sep` between neighbours.
pub open spec fn join(pieces: Seq<Seq<char>>, sep: char) -> Seq<char>
    decreases pieces.len(),
{
    if pieces.len() == 0 {
        Seq::empty()
    } else if pieces.len() == 1 {
        pieces[0]
    } else {
        pieces[0] + seq![sep] + join(pieces.skip(1), sep)
    }
}

/// The search for a separator ends on one, or behind the last character,
/// and passes over none.
pub proof fn lemma_next_sep_bounds(s: Seq<char>, sep: char, from: int)
    requires
        0 <= from <= s.len(),
    ensures
        from <= next_sep(s, sep, from) <= s.len(),
        next_sep(s, sep, from) < s.len() ==> s[next_sep(s, sep, from)] == sep,
        forall|k: int| from <= k < next_sep(s, sep, from) ==> s[k] != sep,
    decreases s.len() - from,
{
    if from < s.len() && s[from] != sep {
        lemma_next_sep_bounds(s, sep, from + 1);
    }
}

/// Where no separator stands between `from` and `to`, the search from
/// either place ends at the same position.
pub proof fn lemma_next_sep_skip(s: Seq<char>, sep: char, from: int, to: int)
    requires
        0 <= from <= to <= s.len(),
        forall|k: int| from <= k < to ==> s[k] != sep,
    ensures
        next_sep(s, sep, from) == next_sep(s, sep, to),
    decreases to - from,
{
    if from < to {
        lemma_next_sep_skip(s, sep, from + 1, to);
    }
}

/// Splitting yields one piece more than there are separators, no piece
/// holds a separator, and joining the pieces gives the text back.
pub proof fn lemma_split_from(s: Seq<char>, sep: char, from: int)
    requires
        0 <= from <= s.len(),
    ensures
        split_from(s, sep, from).len() == count_from(s, sep, from) + 1,
        forall|i: int, k: int|
            0 <= i < split_from(s, sep, from).len() && 0 <= k < split_from(s, sep, from)[i].len()
                ==> split_from(s, sep, from)[i][k] != sep,
        join(split_from(s, sep, from), sep) == s.subrange(from, s.len() as int),
    decreases s.len() - from,
{
    let stop = next_sep(s, sep, from);
    lemma_next_sep_bounds(s, sep, from);
    lemma_count_skip(s, sep, from, stop);
    if stop >= s.len() {
        assert(join(split_from(s, sep, from), sep) == s.subrange(from, s.len() as int));
    } else {
        lemma_split_from(s, sep, stop + 1);
        let head = s.subrange(from, stop);
        let rest = split_from(s, sep, stop + 1);
        let all = split_from(s, sep, from);
        assert(all == seq![head] + rest);
        assert(all.len() == rest.len() + 1);
        assert forall|i: int, k: int| 0 <= i < all.len() && 0 <= k < all[i].len() implies all[i][k]
            != sep by {
            if i == 0 {
                assert(all[0][k] == s[from + k]);
            } else {
                assert(all[i] == rest[i - 1]);
            }
        }
        assert(all.skip(1) =~= rest);
        assert(join(all, sep) == head + seq![sep] + join(rest, sep));
        assert(join(all, sep) =~= s.subrange(from, s.len() as int));
    }
}

/// Where no separator stands between `from` and `to`, both places count
/// the same number of separators after them.
pub proof fn lemma_count_skip(s: Seq<char>, sep: char, from: int, to: int)
    requires
        0 <= from <= to <= s.len(),
        forall|k: int| from <= k < to ==> s[k] != sep,
    ensures
        count_from(s, sep, from) == count_from(s, sep, to),
    decreases to - from,
{
    if from < to {
        lemma_count_skip(s, sep, from + 1, to);
    }
}

/// A text without the separator is a single piece: itself.
pub proof fn lemma_split_whole(s: Seq<char>, sep: char)
    requires
        split(s, sep).len() == 1,
    ensures
        split(s, sep) == seq![s],
{
    lemma_next_sep_bounds(s, sep, 0);
    let stop = next_sep(s, sep, 0);
    if stop < s.len() {
        lemma_next_sep_bounds(s, sep, stop + 1);
        lemma_split_from(s, sep, stop + 1);
    }
    assert(s.subrange(0, s.len() as int) =~= s);
}

/// The text of `s` between character positions `from` and `to`, as a string of its own.
pub fn piece(s: &str, from: usize, to: usize) -> (p: String)
    requires
        from <= to <= s@.len(),
    ensures
        p@ == s@.subrange(from as int, to as int),
{
    String::from_str(s.substring_char(from, to))
}

/// Cuts `s` at every `sep`.
pub fn split_text(s: &str, sep: char) -> (parts: Vec<String>)
    ensures
        parts.deep_view() == split(s@, sep),
        parts@.len() >= 1,
{
    let chars = chars_of(s);
    let n = chars.len();
    let mut parts: Vec<String> = Vec::new();
    let mut start: usize = 0;
    let mut i: usize = 0;
    assert(parts.deep_view() + split_from(s@, sep, 0) =~= split(s@, sep));
    while i < n
        invariant
            start <= i <= n,
            n == s@.len(),
            chars@ == s@,
            forall|k: int| start <= k < i ==> s@[k] != sep,
            parts.deep_view() + split_from(s@, sep, start as int) == split(s@, sep),
        decreases n - i,
    {
        if chars[i] == sep {
            let p = piece(s, start, i);
            let ghost before = parts.deep_view();
            proof {
                lemma_next_sep_skip(s@, sep, start as int, i as int);
                assert(next_sep(s@, sep, start as int) == i);
                assert(split_from(s@, sep, start as int) == seq![s@.subrange(start as int, i as int)]
                    + split_from(s@, sep, i + 1));
            }
            parts.push(p);
            proof {
                assert(parts.deep_view() =~= before + seq![p@]);
                assert((before + seq![p@]) + split_from(s@, sep, i + 1) =~= before + (seq![p@]
                    + split_from(s@, sep, i + 1)));
            }
            start = i + 1;
        }
        i += 1;
    }
    let p = piece(s, start, n);
    let ghost before = parts.deep_view();
    proof {
        lemma_next_sep_skip(s@, sep, start as int, n as int);
        assert(split_from(s@, sep, start as int) == seq![s@.subrange(start as int, n as int)]);
    }
    parts.push(p);
    proof {
        assert(parts.deep_view() =~= before + seq![p@]);
    }
    parts
}

/// A decimal digit, `0` to `9`.
pub open spec fn is_digit(c: char) -> bool {
    '0' <= c && c <= '9'
}

/// The number a decimal digit stands for.
pub open spec fn digit_value(c: char) -> nat {
    (c as nat - '0' as nat) as nat
}

/// Whether `s` holds decimal digits only.
pub open spec fn all_digits(s: Seq<char>) -> bool {
    forall|i: int| 0 <= i < s.len() ==> is_digit(#[trigger] s[i])
}

/// The number that a run of decimal digits writes, the first digit counting most.
pub open spec fn decimal_value(s: Seq<char>) -> nat
    decreases s.len(),
{
    if s.len() == 0 {
        0
    } else {
        decimal_value(s.drop_last()) * 10 + digit_value(s.last())
    }
}

/// `s` without a leading `+`.
pub open spec fn unsigned_digits(s: Seq<char>) -> Seq<char> {
    if s.len() > 0 && s[0] == '+' {
        s.skip(1)
    } else {
        s
    }
}

/// The unsigned 16-bit number that `s` writes: an optional `+`, then at
/// least one decimal digit and nothing else, the value at most 65535.
pub open spec fn spec_parse_u16(s: Seq<char>) -> Option<u16> {
    let d = unsigned_digits(s);
    if d.len() > 0 && all_digits(d) && decimal_value(d) <= u16::MAX {
        Some(decimal_value(d) as u16)
    } else {
        None
    }
}

/// Whether `s` starts with a minus sign.
pub open spec fn is_negative(s: Seq<char>) -> bool {
    s.len() > 0 && s[0] == '-'
}

/// `s` without a leading `+` or `-`.
pub open spec fn signed_digits(s: Seq<char>) -> Seq<char> {
    if s.len() > 0 && (s[0] == '+' || s[0] == '-') {
        s.skip(1)
    } else {
        s
    }
}

/// The number that `s` writes with its sign.
pub open spec fn signed_value(s: Seq<char>) -> int {
    if is_negative(s) {
        -(decimal_value(signed_digits(s)) as int)
    } else {
        decimal_value(signed_digits(s)) as int
    }
}

/// The signed 64-bit number that `s` writes: an optional `+` or `-`, then
/// at least one decimal digit and nothing else, the value within range.
pub open spec fn spec_parse_i64(s: Seq<char>) -> Option<i64> {
    let d = signed_digits(s);
    if d.len() > 0 && all_digits(d) && i64::MIN <= signed_value(s) <= i64::MAX {
        Some(signed_value(s) as i64)
    } else {
        None
    }
}

/// A longer run of digits writes no smaller a number than its beginning.
pub proof fn lemma_decimal_value_grows(s: Seq<char>, n: int)
    requires
        0 <= n <= s.len(),
    ensures
        decimal_value(s.take(n)) <= decimal_value(s),
    decreases s.len() - n,
{
    if n == s.len() {
        assert(s.take(n) =~= s);
    } else {
        lemma_decimal_value_grows(s, n + 1);
        assert(s.take(n + 1).drop_last() =~= s.take(n));
    }
}

/// The number written by the digits of `chars` from `from` on, where
/// they are digits and the number is at most `limit`.
fn read_digits(chars: &Vec<char>, from: usize, limit: u128) -> (r: Option<u128>)
    requires
        from <= chars@.len(),
        limit <= u128::MAX / 16,
    ensures
        r == if all_digits(chars@.skip(from as int)) && decimal_value(chars@.skip(from as int))
            <= limit {
            Some(decimal_value(chars@.skip(from as int)) as u128)
        } else {
            None
        },
{
    let ghost d = chars@.skip(from as int);
    let n = chars.len();
    let mut acc: u128 = 0;
    let mut i: usize = from;
    assert(d.take(0) =~= Seq::<char>::empty());
    while i < n
        invariant
            from <= i <= n,
            n == chars@.len(),
            d == chars@.skip(from as int),
            limit <= u128::MAX / 16,
            all_digits(d.take(i - from)),
            acc == decimal_value(d.take(i - from)),
            acc <= limit,
        decreases n - i,
    {
        let c = chars[i];
        if !('0' <= c && c <= '9') {
            assert(d[i - from] == c);
            return None;
        }
        let v: u128 = (c as u32 - '0' as u32) as u128;
        let next: u128 = acc * 10 + v;
        proof {
            assert(d.take(i - from + 1).drop_last() =~= d.take(i - from));
            assert(d.take(i - from + 1).last() == c);
            assert(next == decimal_value(d.take(i - from + 1)));
            assert forall|k: int| 0 <= k < d.take(i - from + 1).len() implies is_digit(
                #[trigger] d.take(i - from + 1)[k],
            ) by {
                if k < i - from {
                    assert(d.take(i - from + 1)[k] == d.take(i - from)[k]);
                }
            }
        }
        if next > limit {
            proof {
                lemma_decimal_value_grows(d, i - from + 1);
            }
            return None;
        }
        acc = next;
        i += 1;
    }
    assert(d.take(i - from) =~= d);
    Some(acc)
}

/// Reads an unsigned 16-bit decimal number.
pub fn parse_u16(s: &str) -> (r: Option<u16>)
    ensures
        r == spec_parse_u16(s@),
{
    let chars = chars_of(s);
    let from: usize = if chars.len() > 0 && chars[0] == '+' {
        1
    } else {
        0
    };
    if from == chars.len() {
        return None;
    }
    assert(chars@.skip(0) =~= chars@);
    match read_digits(&chars, from, 65535) {
        Some(v) => Some(v as u16),
        None => None,
    }
}

/// Reads a signed 64-bit decimal number.
pub fn parse_i64(s: &str) -> (r: Option<i64>)
    ensures
        r == spec_parse_i64(s@),
{
    let chars = chars_of(s);
    let negative = chars.len() > 0 && chars[0] == '-';
    let from: usize = if chars.len() > 0 && (chars[0] == '+' || chars[0] == '-') {
        1
    } else {
        0
    };
    if from == chars.len() {
        return None;
    }
    assert(chars@.skip(0) =~= chars@);
    match read_digits(&chars, from, 9223372036854775808) {
        Some(v) => {
            if negative {
                if v == 9223372036854775808 {
                    Some(i64::MIN)
                } else {
                    Some(-(v as i64))
                }
            } else if v <= 9223372036854775807 {
                Some(v as i64)
            } else {
                None
            }
        },
        None => None,
    }
}

/// White space as Unicode defines it (the property `White_Space`).
pub open spec fn is_whitespace(c: char) -> bool {
    let n = c as u32;
    ||| 0x09 <= n <= 0x0D
    ||| n == 0x20
    ||| n == 0x85
    ||| n == 0xA0
    ||| n == 0x1680
    ||| 0x2000 <= n <= 0x200A
    ||| n == 0x2028
    ||| n == 0x2029
    ||| n == 0x202F
    ||| n == 0x205F
    ||| n == 0x3000
}

/// The number of white-space characters that `s` begins with.
pub open spec fn leading_space(s: Seq<char>) -> nat
    decreases s.len(),
{
    if s.len() > 0 && is_whitespace(s[0]) {
        1 + leading_space(s.skip(1))
    } else {
        0
    }
}

/// The number of white-space characters that `s` ends with.
pub open spec fn trailing_space(s: Seq<char>) -> nat
    decreases s.len(),
{
    if s.len() > 0 && is_whitespace(s.last()) {
        1 + trailing_space(s.drop_last())
    } else {
        0
    }
}

/// `s` without the white space at either end.
pub open spec fn trimmed(s: Seq<char>) -> Seq<char> {
    if leading_space(s) >= s.len() {
        Seq::empty()
    } else {
        s.subrange(leading_space(s) as int, s.len() - trailing_space(s))
    }
}

/// Whether `c` is white space.
pub fn char_is_whitespace(c: char) -> (b: bool)
    ensures
        b == is_whitespace(c),
{
    let n: u32 = c as u32;
    (0x09 <= n && n <= 0x0D) || n == 0x20 || n == 0x85 || n == 0xA0 || n == 0x1680 || (0x2000 <= n
        && n <= 0x200A) || n == 0x2028 || n == 0x2029 || n == 0x202F || n == 0x205F || n == 0x3000
}

/// Where the first `n` characters are white space and the next one, if
/// there is one, is not, the text begins with `n` white-space characters.
pub proof fn lemma_leading_space(s: Seq<char>, n: int)
    requires
        0 <= n <= s.len(),
        forall|k: int| 0 <= k < n ==> is_whitespace(s[k]),
        n < s.len() ==> !is_whitespace(s[n]),
    ensures
        leading_space(s) == n,
    decreases n,
{
    if n > 0 {
        let t = s.skip(1);
        assert forall|k: int| 0 <= k < n - 1 implies is_whitespace(t[k]) by {
            assert(t[k] == s[k + 1]);
        }
        lemma_leading_space(t, n - 1);
    }
}

/// Where the last `n` characters are white space and the one before
/// them, if there is one, is not, the text ends with `n` white-space characters.
pub proof fn lemma_trailing_space(s: Seq<char>, n: int)
    requires
        0 <= n <= s.len(),
        forall|k: int| s.len() - n <= k < s.len() ==> is_whitespace(s[k]),
        n < s.len() ==> !is_whitespace(s[s.len() - n - 1]),
    ensures
        trailing_space(s) == n,
    decreases n,
{
    if n > 0 {
        let t = s.drop_last();
        assert forall|k: int| t.len() - (n - 1) <= k < t.len() implies is_whitespace(t[k]) by {
            assert(t[k] == s[k]);
        }
        lemma_trailing_space(t, n - 1);
    }
}

/// Removes the white space at either end of `s`.
pub fn trim_text(s: &str) -> (t: String)
    ensures
        t@ == trimmed(s@),
{
    let chars = chars_of(s);
    let n = chars.len();
    let mut a: usize = 0;
    while a < n && char_is_whitespace(chars[a])
        invariant
            a <= n,
            n == chars@.len(),
            forall|k: int| 0 <= k < a ==> is_whitespace(chars@[k]),
        decreases n - a,
    {
        a += 1;
    }
    proof {
        lemma_leading_space(chars@, a as int);
    }
    if a == n {
        return piece(s, 0, 0);
    }
    let mut b: usize = n;
    while b > a && char_is_whitespace(chars[b - 1])
        invariant
            a <= b <= n,
            a < n,
            n == chars@.len(),
            !is_whitespace(chars@[a as int]),
            forall|k: int| b <= k < n ==> is_whitespace(chars@[k]),
        decreases b,
    {
        b -= 1;
    }
    proof {
        lemma_trailing_space(chars@, n - b);
    }
    piece(s, a, b)
}

/// Whether `text` begins with `prefix`.
pub fn starts_with(text: &str, prefix: &str) -> (begins: bool)
    ensures
        begins == prefix@.is_prefix_of(text@),
{
    let t = chars_of(text);
    let p = chars_of(prefix);
    if p.len() > t.len() {
        return false;
    }
    let n = p.len();
    let mut i: usize = 0;
    while i < n
        invariant
            i <= n,
            n == p@.len(),
            n <= t@.len(),
            t@ == text@,
            p@ == prefix@,
            forall|k: int| 0 <= k < i ==> t@[k] == p@[k],
        decreases n - i,
    {
        if t[i] != p[i] {
            assert(text@.subrange(0, n as int)[i as int] != prefix@[i as int]);
            return false;
        }
        i += 1;
    }
    assert(prefix@ =~= text@.subrange(0, n as int));
    true
}

} // verus!
