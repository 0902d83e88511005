//! Scanning of text: white space, words and delimited fields.
//!
//! Positions count characters, not bytes.

use vstd::prelude::*;

verus! {

/// White space as Unicode defines it (the property `White_Space`).
pub open spec fn is_space(c: char) -> bool {
    let n = c as u32;
    ||| 0x09 <= n <= 0x0D
    ||| n == 0x20
    ||| n == 0x85
    ||| n == 0xA0
    ||| n == 0x1680
    ||| 0x2000 <= n <= 0x200A
    ||| n == 0x2028
    ||| n == 0x2029
    ||| n == 0x202F
    ||| n == 0x205F
    ||| n == 0x3000
}

/// The first position at or after `from` that holds no white space, or the
/// length of `s` where only white space follows.
pub open spec fn skip_spaces(s: Seq<char>, from: int) -> int
    decreases s.len() - from,
{
    if 0 <= from < s.len() && is_space(s[from]) {
        skip_spaces(s, from + 1)
    } else {
        from
    }
}

/// The first position at or after `from` that holds white space, or the
/// length of `s` where none follows.
pub open spec fn skip_word(s: Seq<char>, from: int) -> int
    decreases s.len() - from,
{
    if 0 <= from < s.len() && !is_space(s[from]) {
        skip_word(s, from + 1)
    } else {
        from
    }
}

/// The first position at or after `from` that holds `c`, or the length of
/// `s` where `c` does not follow.
pub open spec fn find(s: Seq<char>, c: char, from: int) -> int
    decreases s.len() - from,
{
    if 0 <= from < s.len() && s[from] != c {
        find(s, c, from + 1)
    } else {
        from
    }
}

/// Where the white space that ends `s.take(to)` begins.
pub open spec fn trim_end(s: Seq<char>, to: int) -> int
    decreases to,
{
    if 0 < to <= s.len() && is_space(s[to - 1]) {
        trim_end(s, to - 1)
    } else {
        to
    }
}

/// `s` without the white space at its two ends.
pub open spec fn trimmed(s: Seq<char>) -> Seq<char> {
    let start = skip_spaces(s, 0);
    let end = trim_end(s, s.len() as int);
    if end < start {
        s.subrange(start, start)
    } else {
        s.subrange(start, end)
    }
}

/// Where the word of number `n` begins (the first word has number 0): the
/// length of `s` where it has no such word.
pub open spec fn word_start(s: Seq<char>, n: nat) -> int
    decreases n,
{
    if n == 0 {
        skip_spaces(s, 0)
    } else {
        skip_spaces(s, skip_word(s, word_start(s, (n - 1) as nat)))
    }
}

/// The word of number `n` among those that white space separates in `s`:
/// empty where `s` has no such word.
pub open spec fn word(s: Seq<char>, n: nat) -> Seq<char> {
    s.subrange(word_start(s, n), skip_word(s, word_start(s, n)))
}

/// The piece of number `n` among those that `c` separates in `s`, counted
/// from `from` on; `None` where `c` occurs less than `n` times.
pub open spec fn field_from(s: Seq<char>, c: char, n: nat, from: int) -> Option<Seq<char>>
    decreases n,
{
    let end = find(s, c, from);
    if n == 0 {
        Some(s.subrange(from, end))
    } else if end >= s.len() {
        None
    } else {
        field_from(s, c, (n - 1) as nat, end + 1)
    }
}

/// The piece of number `n` among those that `c` separates in `s` (the first
/// piece has number 0); `None` where `c` occurs less than `n` times.
pub open spec fn field(s: Seq<char>, c: char, n: nat) -> Option<Seq<char>> {
    field_from(s, c, n, 0)
}

/// What `skip_spaces` skips is white space, and it stops on the first
/// character that is none.
pub proof fn lemma_skip_spaces(s: Seq<char>, from: int)
    requires
        0 <= from <= s.len(),
    ensures
        from <= skip_spaces(s, from) <= s.len(),
        forall|k: int| from <= k < skip_spaces(s, from) ==> is_space(#[trigger] s[k]),
        skip_spaces(s, from) < s.len() ==> !is_space(s[skip_spaces(s, from)]),
    decreases s.len() - from,
{
    if from < s.len() && is_space(s[from]) {
        lemma_skip_spaces(s, from + 1);
    }
}

/// What `skip_word` skips is no white space, and it stops on the first
/// character that is.
pub proof fn lemma_skip_word(s: Seq<char>, from: int)
    requires
        0 <= from <= s.len(),
    ensures
        from <= skip_word(s, from) <= s.len(),
        forall|k: int| from <= k < skip_word(s, from) ==> !is_space(#[trigger] s[k]),
        skip_word(s, from) < s.len() ==> is_space(s[skip_word(s, from)]),
    decreases s.len() - from,
{
    if from < s.len() && !is_space(s[from]) {
        lemma_skip_word(s, from + 1);
    }
}

/// `find` stops on the first occurrence of `c`.
pub proof fn lemma_find(s: Seq<char>, c: char, from: int)
    requires
        0 <= from <= s.len(),
    ensures
        from <= find(s, c, from) <= s.len(),
        forall|k: int| from <= k < find(s, c, from) ==> #[trigger] s[k] != c,
        find(s, c, from) < s.len() ==> s[find(s, c, from)] == c,
    decreases s.len() - from,
{
    if from < s.len() && s[from] != c {
        lemma_find(s, c, from + 1);
    }
}

/// What `trim_end` cuts off is white space, and what is left does not end
/// in any.
pub proof fn lemma_trim_end(s: Seq<char>, to: int)
    requires
        0 <= to <= s.len(),
    ensures
        0 <= trim_end(s, to) <= to,
        forall|k: int| trim_end(s, to) <= k < to ==> is_space(#[trigger] s[k]),
        trim_end(s, to) > 0 ==> !is_space(s[trim_end(s, to) - 1]),
    decreases to,
{
    if 0 < to && is_space(s[to - 1]) {
        lemma_trim_end(s, to - 1);
    }
}

/// Whether `c` is white space.
pub fn is_whitespace(c: char) -> (space: bool)
    ensures
        space == is_space(c),
{
    let n: u32 = c as u32;
    (0x09 <= n && n <= 0x0D) || n == 0x20 || n == 0x85 || n == 0xA0 || n == 0x1680 || (0x2000 <= n
        && n <= 0x200A) || n == 0x2028 || n == 0x2029 || n == 0x202F || n == 0x205F || n == 0x3000
}

/// The characters of `s`, in order.
pub fn chars_of(s: &str) -> (chars: Vec<char>)
    ensures
        chars@ == s@,
{
    let mut chars: Vec<char> = Vec::new();
    for c in it: s.chars()
        invariant
            chars@ == it.history(),
            it.seq() == s@,
    {
        chars.push(c);
    }
    chars
}

/// The first position at or after `from` that holds no white space.
pub fn skip_spaces_at(chars: &Vec<char>, from: usize) -> (at: usize)
    requires
        from <= chars@.len(),
    ensures
        at == skip_spaces(chars@, from as int),
        from <= at <= chars@.len(),
        forall|k: int| from <= k < at ==> is_space(#[trigger] chars@[k]),
        at < chars@.len() ==> !is_space(chars@[at as int]),
{
    proof {
        lemma_skip_spaces(chars@, from as int);
    }
    let mut at: usize = from;
    while at < chars.len() && is_whitespace(chars[at])
        invariant
            from <= at <= chars@.len(),
            skip_spaces(chars@, from as int) == skip_spaces(chars@, at as int),
        decreases chars@.len() - at,
    {
        at += 1;
    }
    at
}

/// The first position at or after `from` that holds white space.
pub fn skip_word_at(chars: &Vec<char>, from: usize) -> (at: usize)
    requires
        from <= chars@.len(),
    ensures
        at == skip_word(chars@, from as int),
        from <= at <= chars@.len(),
        forall|k: int| from <= k < at ==> !is_space(#[trigger] chars@[k]),
        at < chars@.len() ==> is_space(chars@[at as int]),
{
    proof {
        lemma_skip_word(chars@, from as int);
    }
    let mut at: usize = from;
    while at < chars.len() && !is_whitespace(chars[at])
        invariant
            from <= at <= chars@.len(),
            skip_word(chars@, from as int) == skip_word(chars@, at as int),
        decreases chars@.len() - at,
    {
        at += 1;
    }
    at
}

/// The first position at or after `from` that holds `c`.
pub fn find_at(chars: &Vec<char>, c: char, from: usize) -> (at: usize)
    requires
        from <= chars@.len(),
    ensures
        at == find(chars@, c, from as int),
        from <= at <= chars@.len(),
        forall|k: int| from <= k < at ==> #[trigger] chars@[k] != c,
        at < chars@.len() ==> chars@[at as int] == c,
{
    proof {
        lemma_find(chars@, c, from as int);
    }
    let mut at: usize = from;
    while at < chars.len() && chars[at] != c
        invariant
            from <= at <= chars@.len(),
            find(chars@, c, from as int) == find(chars@, c, at as int),
        decreases chars@.len() - at,
    {
        at += 1;
    }
    at
}

/// Where the white space that ends the first `to` characters begins.
pub fn trim_end_at(chars: &Vec<char>, to: usize) -> (at: usize)
    requires
        to <= chars@.len(),
    ensures
        at == trim_end(chars@, to as int),
        at <= to,
        forall|k: int| at <= k < to ==> is_space(#[trigger] chars@[k]),
        at > 0 ==> !is_space(chars@[at - 1]),
{
    proof {
        lemma_trim_end(chars@, to as int);
    }
    let mut at: usize = to;
    while at > 0 && is_whitespace(chars[at - 1])
        invariant
            at <= to <= chars@.len(),
            trim_end(chars@, to as int) == trim_end(chars@, at as int),
        decreases at,
    {
        at -= 1;
    }
    at
}

/// The characters of `s` from position `from` up to `to`, as a string.
pub fn piece(s: &str, from: usize, to: usize) -> (part: String)
    requires
        from <= to <= s@.len(),
    ensures
        part@ == s@.subrange(from as int, to as int),
{
    String::from_str(s.substring_char(from, to))
}

/// `s` without the white space at its two ends.
pub fn trim(s: &str) -> (inner: String)
    ensures
        inner@ == trimmed(s@),
{
    let chars = chars_of(s);
    let start = skip_spaces_at(&chars, 0);
    let end = trim_end_at(&chars, chars.len());
    if end < start {
        piece(s, start, start)
    } else {
        piece(s, start, end)
    }
}

/// The word of number `n` among those that white space separates in `s`, or
/// the empty string where there are not so many.
pub fn nth_word(s: &str, n: usize) -> (found: String)
    ensures
        found@ == word(s@, n as nat),
{
    let chars = chars_of(s);
    let mut start = skip_spaces_at(&chars, 0);
    let mut i: usize = 0;
    while i < n
        invariant
            i <= n,
            chars@ == s@,
            start <= chars@.len(),
            start == word_start(s@, i as nat),
        decreases n - i,
    {
        let end = skip_word_at(&chars, start);
        start = skip_spaces_at(&chars, end);
        i += 1;
    }
    let end = skip_word_at(&chars, start);
    piece(s, start, end)
}

/// The piece of number `n` among those that `c` separates in `s`, or `None`
/// where `c` occurs less than `n` times.
pub fn nth_field(s: &str, c: char, n: usize) -> (found: Option<String>)
    ensures
        found.is_some() == field(s@, c, n as nat).is_some(),
        found.is_some() ==> found.unwrap()@ == field(s@, c, n as nat).unwrap(),
{
    let chars = chars_of(s);
    let mut from: usize = 0;
    let mut left: usize = n;
    while left > 0
        invariant
            chars@ == s@,
            from <= chars@.len(),
            field(s@, c, n as nat) == field_from(s@, c, left as nat, from as int),
        decreases left,
    {
        let end = find_at(&chars, c, from);
        if end >= chars.len() {
            return None;
        }
        from = end + 1;
        left -= 1;
    }
    let end = find_at(&chars, c, from);
    Some(piece(s, from, end))
}

} // verus!
