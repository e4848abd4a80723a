//! Character-level helpers: strings as character sequences, and decimal
//! notation for unsigned integers.

use vstd::prelude::*;

verus! {

/// `String::push` of the standard library: the string afterwards is the
/// string before with `c` appended.
pub assume_specification[ String::push ](s: &mut String, c: char)
    ensures
        final(s)@ == old(s)@.push(c),
;

/// The characters of `s`, in order.
pub fn chars_of(s: &str) -> (v: Vec<char>)
    ensures
        v@ == s@,
{
    let mut out: Vec<char> = Vec::new();
    for c in it: s.chars()
        invariant
            it.seq() == s@,
            out@ == s@.take(it.index() as int),
    {
        assert(s@.take(it.index() + 1) == s@.take(it.index() as int).push(c));
        out.push(c);
    }
    out
}

/// The string made of the characters of `v`, in order.
pub fn string_of(v: &Vec<char>) -> (s: String)
    ensures
        s@ == v@,
{
    let mut out = String::new();
    let mut i: usize = 0;
    while i < v.len()
        invariant
            i <= v.len(),
            out@ == v@.take(i as int),
        decreases v.len() - i,
    {
        out.push(v[i]);
        i += 1;
    }
    out
}

/// Appends the characters of `s` to `out`.
pub fn push_chars(out: &mut Vec<char>, s: &str)
    ensures
        final(out)@ == old(out)@ + s@,
{
    let ghost before = out@;
    for c in it: s.chars()
        invariant
            it.seq() == s@,
            out@ == before + s@.take(it.index() as int),
    {
        assert(s@.take(it.index() + 1) == s@.take(it.index() as int).push(c));
        out.push(c);
    }
}

/// The decimal digit for `d`, where `0 <= d < 10`.
pub open spec fn digit_char(d: int) -> char {
    if d == 0 {
        '0'
    } else if d == 1 {
        '1'
    } else if d == 2 {
        '2'
    } else if d == 3 {
        '3'
    } else if d == 4 {
        '4'
    } else if d == 5 {
        '5'
    } else if d == 6 {
        '6'
    } else if d == 7 {
        '7'
    } else if d == 8 {
        '8'
    } else {
        '9'
    }
}

/// The value of a decimal digit, or `None` for any other character.
pub open spec fn digit_value(c: char) -> Option<int> {
    if c == '0' {
        Some(0)
    } else if c == '1' {
        Some(1)
    } else if c == '2' {
        Some(2)
    } else if c == '3' {
        Some(3)
    } else if c == '4' {
        Some(4)
    } else if c == '5' {
        Some(5)
    } else if c == '6' {
        Some(6)
    } else if c == '7' {
        Some(7)
    } else if c == '8' {
        Some(8)
    } else if c == '9' {
        Some(9)
    } else {
        None
    }
}

/// Decimal notation of `n`: no sign, no leading zero, `"0"` for zero.
pub open spec fn decimal(n: nat) -> Seq<char>
    decreases n,
{
    if n < 10 {
        seq![digit_char(n as int)]
    } else {
        decimal(n / 10).push(digit_char((n % 10) as int))
    }
}

/// The number that a run of decimal digits denotes; `None` if some character
/// is not a digit. The empty run denotes zero.
pub open spec fn digits_value(s: Seq<char>) -> Option<nat>
    decreases s.len(),
{
    if s.len() == 0 {
        Some(0)
    } else {
        match (digits_value(s.drop_last()), digit_value(s.last())) {
            (Some(p), Some(d)) => Some((10 * p + d) as nat),
            _ => None,
        }
    }
}

/// What a text denotes as an unsigned 64-bit integer: an optional `+`, then
/// one or more decimal digits whose value fits. Anything else is `None`.
pub open spec fn parsed_u64(s: Seq<char>) -> Option<u64> {
    let body = if s.len() > 0 && s[0] == '+' {
        s.drop_first()
    } else {
        s
    };
    if body.len() == 0 {
        None
    } else {
        match digits_value(body) {
            Some(v) => if v <= u64::MAX {
                Some(v as u64)
            } else {
                None
            },
            None => None,
        }
    }
}

fn digit_of(d: u64) -> (c: char)
    requires
        d < 10,
    ensures
        c == digit_char(d as int),
        digit_value(c) == Some(d as int),
{
    if d == 0 {
        '0'
    } else if d == 1 {
        '1'
    } else if d == 2 {
        '2'
    } else if d == 3 {
        '3'
    } else if d == 4 {
        '4'
    } else if d == 5 {
        '5'
    } else if d == 6 {
        '6'
    } else if d == 7 {
        '7'
    } else if d == 8 {
        '8'
    } else {
        '9'
    }
}

fn value_of(c: char) -> (v: Option<u64>)
    ensures
        match v {
            Some(d) => digit_value(c) == Some(d as int) && d < 10,
            None => digit_value(c) is None,
        },
{
    if c == '0' {
        Some(0)
    } else if c == '1' {
        Some(1)
    } else if c == '2' {
        Some(2)
    } else if c == '3' {
        Some(3)
    } else if c == '4' {
        Some(4)
    } else if c == '5' {
        Some(5)
    } else if c == '6' {
        Some(6)
    } else if c == '7' {
        Some(7)
    } else if c == '8' {
        Some(8)
    } else if c == '9' {
        Some(9)
    } else {
        None
    }
}

/// The decimal characters of `n`.
pub fn decimal_chars(n: u64) -> (v: Vec<char>)
    ensures
        v@ == decimal(n as nat),
{
    let mut out: Vec<char> = Vec::new();
    out.push(digit_of(n % 10));
    let mut m: u64 = n / 10;
    assert(out@ == seq![digit_char((n % 10) as int)]);
    while m > 0
        invariant
            decimal(n as nat) == (if m == 0 {
                Seq::<char>::empty()
            } else {
                decimal(m as nat)
            }) + out@,
        decreases m,
    {
        let d = digit_of(m % 10);
        let ghost prev = out@;
        out.insert(0, d);
        assert(out@ == seq![d] + prev);
        assert(decimal(m as nat) == (if m / 10 == 0 {
            Seq::<char>::empty()
        } else {
            decimal((m / 10) as nat)
        }) + seq![d]);
        m = m / 10;
    }
    out
}

/// Formats `n` in decimal.
pub fn to_decimal(n: u64) -> (s: String)
    ensures
        s@ == decimal(n as nat),
{
    let v = decimal_chars(n);
    string_of(&v)
}

/// A run of digits is worth at least as much as each of its prefixes.
pub proof fn lemma_digits_prefix(s: Seq<char>, i: int)
    requires
        0 <= i <= s.len(),
        digits_value(s) is Some,
    ensures
        digits_value(s.take(i)) is Some,
        digits_value(s.take(i))->0 <= digits_value(s)->0,
    decreases s.len(),
{
    if i == s.len() {
        assert(s.take(i) == s);
    } else {
        lemma_digits_prefix(s.drop_last(), i);
        assert(s.drop_last().take(i) == s.take(i));
    }
}

/// Parses an unsigned 64-bit integer from its decimal notation.
pub fn parse_u64(s: &str) -> (r: Option<u64>)
    ensures
        r == parsed_u64(s@),
{
    let v = chars_of(s);
    let start: usize = if v.len() > 0 && v[0] == '+' {
        1
    } else {
        0
    };
    let ghost body = v@.subrange(start as int, v@.len() as int);
    assert(body == if s@.len() > 0 && s@[0] == '+' {
        s@.drop_first()
    } else {
        s@
    });
    if start == v.len() {
        return None;
    }
    let mut acc: u64 = 0;
    let mut i: usize = start;
    assert(body.take(0) == Seq::<char>::empty());
    while i < v.len()
        invariant
            start <= i <= v.len(),
            body == v@.subrange(start as int, v@.len() as int),
            body.len() > 0,
            parsed_u64(s@) == (match digits_value(body) {
                Some(val) => if val <= u64::MAX {
                    Some(val as u64)
                } else {
                    None
                },
                None => None,
            }),
            digits_value(body.take(i - start)) == Some(acc as nat),
        decreases v.len() - i,
    {
        let ghost k = i - start;
        assert(body.take(k + 1).drop_last() == body.take(k));
        assert(body.take(k + 1).last() == v@[i as int]);
        let d = match value_of(v[i]) {
            Some(d) => d,
            None => {
                proof {
                    if digits_value(body) is Some {
                        lemma_digits_prefix(body, k + 1);
                    }
                }
                return None;
            },
        };
        let next = match acc.checked_mul(10) {
            Some(t) => t.checked_add(d),
            None => None,
        };
        match next {
            Some(n) => {
                acc = n;
            },
            None => {
                proof {
                    if digits_value(body) is Some {
                        lemma_digits_prefix(body, k + 1);
                    }
                }
                return None;
            },
        }
        i += 1;
    }
    assert(body.take(i - start) == body);
    Some(acc)
}

/// Formatting and parsing agree: the decimal notation of a number parses
/// back to that number.
pub proof fn lemma_decimal_round_trip(n: u64)
    ensures
        parsed_u64(decimal(n as nat)) == Some(n),
{
    lemma_decimal_digits(n as nat);
}

/// The decimal notation of `n` is a non-empty run of digits worth `n`.
pub proof fn lemma_decimal_digits(n: nat)
    ensures
        decimal(n).len() >= 1,
        digits_value(decimal(n)) == Some(n),
        digit_value(decimal(n)[0]) is Some,
    decreases n,
{
    if n < 10 {
        let s = seq![digit_char(n as int)];
        assert(s.drop_last() == Seq::<char>::empty());
        assert(digits_value(Seq::<char>::empty()) == Some(0nat));
        assert(s.last() == digit_char(n as int));
    } else {
        lemma_decimal_digits(n / 10);
        let s = decimal(n);
        assert(s.drop_last() == decimal(n / 10));
        assert(s.last() == digit_char((n % 10) as int));
    }
}

/// Whether `c` is white space, in the sense of the Unicode property
/// `White_Space`.
pub open spec fn is_blank(c: char) -> bool {
    let n = c as u32;
    ||| 0x09 <= n <= 0x0d
    ||| n == 0x20
    ||| n == 0x85
    ||| n == 0xa0
    ||| n == 0x1680
    ||| 0x2000 <= n <= 0x200a
    ||| n == 0x2028
    ||| n == 0x2029
    ||| n == 0x202f
    ||| n == 0x205f
    ||| n == 0x3000
}

/// `s` without its leading white space.
pub open spec fn trim_start(s: Seq<char>) -> Seq<char>
    decreases s.len(),
{
    if s.len() > 0 && is_blank(s[0]) {
        trim_start(s.drop_first())
    } else {
        s
    }
}

/// `s` without its trailing white space.
pub open spec fn trim_end(s: Seq<char>) -> Seq<char>
    decreases s.len(),
{
    if s.len() > 0 && is_blank(s.last()) {
        trim_end(s.drop_last())
    } else {
        s
    }
}

/// `s` without its leading and trailing white space.
pub open spec fn trimmed(s: Seq<char>) -> Seq<char> {
    trim_end(trim_start(s))
}

/// The pieces of `s` between occurrences of `sep`, read from left to right:
/// a separator starts a new piece, any other character extends the last one.
/// There is one piece more than there are separators.
pub open spec fn split_on(s: Seq<char>, sep: char) -> Seq<Seq<char>>
    decreases s.len(),
{
    if s.len() == 0 {
        seq![Seq::<char>::empty()]
    } else {
        let before = split_on(s.drop_last(), sep);
        if s.last() == sep {
            before.push(Seq::<char>::empty())
        } else {
            before.drop_last().push(before.last().push(s.last()))
        }
    }
}

/// The characters of an optional string.
pub open spec fn option_view(s: Option<String>) -> Option<Seq<char>> {
    match s {
        Some(v) => Some(v@),
        None => None,
    }
}

/// The characters of an optional string slice.
pub open spec fn option_str_view(s: Option<&str>) -> Option<Seq<char>> {
    match s {
        Some(v) => Some(v@),
        None => None,
    }
}

/// The character sequences that a list of character vectors holds.
pub open spec fn pieces_view(pieces: Seq<Vec<char>>) -> Seq<Seq<char>> {
    pieces.map_values(|p: Vec<char>| p@)
}

/// The character sequences that a list of strings holds.
pub open spec fn strings_view(strings: Seq<String>) -> Seq<Seq<char>> {
    strings.map_values(|s: String| s@)
}

/// Tells whether `c` is white space.
pub fn is_blank_char(c: char) -> (b: bool)
    ensures
        b == is_blank(c),
{
    let n: u32 = c as u32;
    (0x09 <= n && n <= 0x0d) || n == 0x20 || n == 0x85 || n == 0xa0 || n == 0x1680 || (0x2000 <= n
        && n <= 0x200a) || n == 0x2028 || n == 0x2029 || n == 0x202f || n == 0x205f || n == 0x3000
}

/// Removes leading and trailing white space.
pub fn trim_chars(s: &Vec<char>) -> (t: Vec<char>)
    ensures
        t@ == trimmed(s@),
{
    let mut start: usize = 0;
    assert(s@.skip(0) == s@);
    while start < s.len() && is_blank_char(s[start])
        invariant
            start <= s.len(),
            trim_start(s@) == trim_start(s@.skip(start as int)),
        decreases s.len() - start,
    {
        assert(s@.skip(start as int).drop_first() == s@.skip(start + 1));
        start += 1;
    }
    let ghost rest = s@.skip(start as int);
    assert(trim_start(s@) == rest);
    let mut end: usize = s.len();
    assert(rest.take(end - start) == rest);
    while end > start && is_blank_char(s[end - 1])
        invariant
            start <= end <= s.len(),
            rest == s@.skip(start as int),
            trim_end(rest) == trim_end(rest.take(end - start)),
        decreases end,
    {
        assert(rest.take(end - start).last() == s@[end - 1]);
        assert(rest.take(end - start).drop_last() == rest.take(end - start - 1));
        end -= 1;
    }
    assert(trim_end(rest) == rest.take(end - start)) by {
        if end > start {
            assert(rest.take(end - start).last() == s@[end - 1]);
        }
    }
    let mut out: Vec<char> = Vec::new();
    let mut i: usize = start;
    while i < end
        invariant
            start <= i <= end <= s.len(),
            out@ == s@.subrange(start as int, i as int),
        decreases end - i,
    {
        out.push(s[i]);
        i += 1;
    }
    assert(out@ == rest.take(end - start));
    out
}

/// Splits `s` at each occurrence of `sep`.
pub fn split_chars(s: &Vec<char>, sep: char) -> (pieces: Vec<Vec<char>>)
    ensures
        pieces_view(pieces@) == split_on(s@, sep),
{
    let mut out: Vec<Vec<char>> = Vec::new();
    let mut cur: Vec<char> = Vec::new();
    let mut i: usize = 0;
    assert(s@.take(0) == Seq::<char>::empty());
    assert(pieces_view(out@).push(cur@) == seq![Seq::<char>::empty()]);
    while i < s.len()
        invariant
            i <= s.len(),
            pieces_view(out@).push(cur@) == split_on(s@.take(i as int), sep),
        decreases s.len() - i,
    {
        let c = s[i];
        let ghost before = split_on(s@.take(i as int), sep);
        assert(s@.take(i + 1).drop_last() == s@.take(i as int));
        assert(s@.take(i + 1).last() == c);
        assert(before.last() == cur@);
        assert(before.drop_last() == pieces_view(out@));
        if c == sep {
            let ghost done = pieces_view(out@);
            out.push(cur);
            cur = Vec::new();
            assert(pieces_view(out@) == before);
        } else {
            cur.push(c);
        }
        i += 1;
    }
    assert(s@.take(i as int) == s@);
    let ghost done = pieces_view(out@);
    out.push(cur);
    assert(pieces_view(out@) == done.push(cur@));
    out
}

} // verus!
