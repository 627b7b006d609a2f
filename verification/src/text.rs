//! Text as sequences of characters: the conversions between strings and
//! character vectors that the parsers of this library work on.

use vstd::prelude::*;

verus! {

/// The characters of a string, in order.
pub fn chars_of(s: &str) -> (chars: Vec<char>)
    ensures
        chars@ == s@,
{
    let mut chars: Vec<char> = Vec::new();
    for c in it: s.chars()
        invariant
            chars@ == it.seq().take(it.index() as int),
            it.seq() == s@,
    {
        chars.push(c);
    }
    chars
}

/// Appends one character to a string.
///
/// Trusted: calls `String::push`, which appends the character to the end
/// of the string.
#[verifier::external_body]
fn push_char(s: &mut String, c: char)
    ensures
        final(s)@ == old(s)@.push(c),
{
    s.push(c)
}

/// The string made of the given characters, in order.
pub fn string_of(chars: &[char]) -> (s: String)
    ensures
        s@ == chars@,
{
    let mut s = String::new();
    let mut i: usize = 0;
    while i < chars.len()
        invariant
            i <= chars@.len(),
            s@ == chars@.take(i as int),
        decreases chars@.len() - i,
    {
        push_char(&mut s, chars[i]);
        assert(s@ =~= chars@.take(i + 1));
        i += 1;
    }
    assert(chars@.take(i as int) =~= chars@);
    s
}

/// Whether two strings hold the same characters.
pub fn same_text(a: &str, b: &str) -> (same: bool)
    ensures
        same == (a@ == b@),
{
    let x = chars_of(a);
    let y = chars_of(b);
    if x.len() != y.len() {
        return false;
    }
    let mut i: usize = 0;
    while i < x.len()
        invariant
            x@ == a@,
            y@ == b@,
            x@.len() == y@.len(),
            i <= x@.len(),
            forall|k: int| 0 <= k < i ==> x@[k] == y@[k],
        decreases x@.len() - i,
    {
        if x[i] != y[i] {
            return false;
        }
        i += 1;
    }
    assert(x@ =~= y@);
    true
}

/// The two strings one after the other.
pub fn join_text(a: &str, b: &str) -> (joined: String)
    ensures
        joined@ == a@ + b@,
{
    let mut x = chars_of(a);
    let mut y = chars_of(b);
    x.append(&mut y);
    string_of(x.as_slice())
}

/// Whether the character is white space, as by the Unicode property
/// `White_Space`.
pub open spec fn is_space(c: char) -> bool {
    let n = c as u32;
    (0x09 <= n <= 0x0d) || n == 0x20 || n == 0x85 || n == 0xa0 || n == 0x1680 || (0x2000 <= n <= 0x200a)
        || n == 0x2028 || n == 0x2029 || n == 0x202f || n == 0x205f || n == 0x3000
}

/// Whether the character is white space.
pub fn space(c: char) -> (r: bool)
    ensures
        r == is_space(c),
{
    let n: u32 = c as u32;
    (0x09 <= n && n <= 0x0d) || n == 0x20 || n == 0x85 || n == 0xa0 || n == 0x1680 || (0x2000 <= n && n
        <= 0x200a) || n == 0x2028 || n == 0x2029 || n == 0x202f || n == 0x205f || n == 0x3000
}

/// The text without the white space at its start.
pub open spec fn trim_start_of(text: Seq<char>) -> Seq<char>
    decreases text.len(),
{
    if text.len() > 0 && is_space(text[0]) {
        trim_start_of(text.drop_first())
    } else {
        text
    }
}

/// The text without the white space at its end.
pub open spec fn trim_end_of(text: Seq<char>) -> Seq<char>
    decreases text.len(),
{
    if text.len() > 0 && is_space(text.last()) {
        trim_end_of(text.drop_last())
    } else {
        text
    }
}

/// The text without the white space at either end.
pub open spec fn trim_of(text: Seq<char>) -> Seq<char> {
    trim_end_of(trim_start_of(text))
}

/// Whether the text begins with the given characters.
pub open spec fn has_prefix(text: Seq<char>, prefix: Seq<char>) -> bool {
    prefix.len() <= text.len() && text.take(prefix.len() as int) == prefix
}

/// What follows the first occurrence of the mark; nothing where the text
/// does not hold the mark.
pub open spec fn after_first_of(text: Seq<char>, mark: char) -> Seq<char>
    decreases text.len(),
{
    if text.len() == 0 {
        Seq::empty()
    } else if text[0] == mark {
        text.drop_first()
    } else {
        after_first_of(text.drop_first(), mark)
    }
}

/// The number of characters before the first line feed, or the length of
/// the text where it holds none.
pub open spec fn line_len(text: Seq<char>) -> nat
    decreases text.len(),
{
    if text.len() == 0 || text[0] == '\n' {
        0
    } else {
        1 + line_len(text.drop_first())
    }
}

/// The first line of the text, without its ending: a line feed, or a
/// carriage return and a line feed.
pub open spec fn first_line_of(text: Seq<char>) -> Seq<char> {
    let n = line_len(text) as int;
    if n < text.len() && n > 0 && text[n - 1] == '\r' {
        text.take(n - 1)
    } else {
        text.take(n)
    }
}

/// The first line of the text that begins with the given characters.
pub open spec fn find_line_of(text: Seq<char>, prefix: Seq<char>) -> Option<Seq<char>>
    decreases text.len(),
{
    if text.len() == 0 {
        None
    } else if has_prefix(first_line_of(text), prefix) {
        Some(first_line_of(text))
    } else if line_len(text) >= text.len() {
        None
    } else {
        find_line_of(text.skip(line_len(text) as int + 1), prefix)
    }
}

/// The characters from position `lo` up to, not including, position `hi`.
pub fn part(chars: &Vec<char>, lo: usize, hi: usize) -> (out: Vec<char>)
    requires
        lo <= hi <= chars@.len(),
    ensures
        out@ == chars@.subrange(lo as int, hi as int),
{
    let mut out: Vec<char> = Vec::new();
    let mut i: usize = lo;
    while i < hi
        invariant
            lo <= i <= hi <= chars@.len(),
            out@ == chars@.subrange(lo as int, i as int),
        decreases hi - i,
    {
        out.push(chars[i]);
        assert(out@ =~= chars@.subrange(lo as int, i + 1));
        i += 1;
    }
    out
}

/// Removes the white space at both ends of the characters.
pub fn trim_chars(chars: &Vec<char>) -> (out: Vec<char>)
    ensures
        out@ == trim_of(chars@),
{
    let mut lo: usize = 0;
    assert(chars@.skip(0) =~= chars@);
    while lo < chars.len() && space(chars[lo])
        invariant
            lo <= chars@.len(),
            trim_start_of(chars@) == trim_start_of(chars@.skip(lo as int)),
        decreases chars@.len() - lo,
    {
        assert(chars@.skip(lo as int).drop_first() =~= chars@.skip(lo + 1));
        lo += 1;
    }
    assert(trim_start_of(chars@) == chars@.skip(lo as int));
    let mut hi: usize = chars.len();
    assert(chars@.subrange(lo as int, hi as int) =~= chars@.skip(lo as int));
    while hi > lo && space(chars[hi - 1])
        invariant
            lo <= hi <= chars@.len(),
            trim_of(chars@) == trim_end_of(chars@.subrange(lo as int, hi as int)),
        decreases hi,
    {
        assert(chars@.subrange(lo as int, hi as int).drop_last() =~= chars@.subrange(lo as int, hi - 1));
        hi -= 1;
    }
    part(chars, lo, hi)
}

/// Whether the characters begin with the given prefix.
pub fn starts_with_chars(chars: &Vec<char>, prefix: &Vec<char>) -> (r: bool)
    ensures
        r == has_prefix(chars@, prefix@),
{
    if prefix.len() > chars.len() {
        return false;
    }
    let mut i: usize = 0;
    while i < prefix.len()
        invariant
            i <= prefix@.len() <= chars@.len(),
            forall|k: int| 0 <= k < i ==> chars@[k] == prefix@[k],
        decreases prefix@.len() - i,
    {
        if chars[i] != prefix[i] {
            assert(chars@.take(prefix@.len() as int)[i as int] != prefix@[i as int]);
            return false;
        }
        i += 1;
    }
    assert(chars@.take(prefix@.len() as int) =~= prefix@);
    true
}

/// What follows the first occurrence of the mark in the characters.
pub fn after_first(chars: &Vec<char>, mark: char) -> (out: Vec<char>)
    ensures
        out@ == after_first_of(chars@, mark),
{
    let mut i: usize = 0;
    assert(chars@.skip(0) =~= chars@);
    while i < chars.len() && chars[i] != mark
        invariant
            i <= chars@.len(),
            after_first_of(chars@, mark) == after_first_of(chars@.skip(i as int), mark),
        decreases chars@.len() - i,
    {
        assert(chars@.skip(i as int).drop_first() =~= chars@.skip(i + 1));
        i += 1;
    }
    if i == chars.len() {
        assert(chars@.skip(i as int) =~= Seq::empty());
        Vec::new()
    } else {
        assert(chars@.skip(i as int).drop_first() =~= chars@.subrange(i + 1, chars@.len() as int));
        part(chars, i + 1, chars.len())
    }
}

/// The first line of the characters that begins with the given prefix.
pub fn find_line(chars: &Vec<char>, prefix: &Vec<char>) -> (found: Option<Vec<char>>)
    ensures
        match found {
            Some(line) => find_line_of(chars@, prefix@) == Some(line@),
            None => find_line_of(chars@, prefix@) is None,
        },
{
    let mut start: usize = 0;
    assert(chars@.skip(0) =~= chars@);
    while start < chars.len()
        invariant
            start <= chars@.len(),
            find_line_of(chars@, prefix@) == find_line_of(chars@.skip(start as int), prefix@),
        decreases chars@.len() - start,
    {
        let ghost rest = chars@.skip(start as int);
        let mut end: usize = start;
        assert(rest.skip(0) =~= rest);
        while end < chars.len() && chars[end] != '\n'
            invariant
                start <= end <= chars@.len(),
                rest == chars@.skip(start as int),
                line_len(rest) == (end - start) + line_len(rest.skip(end - start)),
            decreases chars@.len() - end,
        {
            assert(rest.skip(end - start).drop_first() =~= rest.skip(end - start + 1));
            end += 1;
        }
        assert(line_len(rest) == end - start);
        let stop = if end < chars.len() && end > start && chars[end - 1] == '\r' {
            end - 1
        } else {
            end
        };
        let line = part(chars, start, stop);
        assert(line@ =~= first_line_of(rest));
        if starts_with_chars(&line, prefix) {
            return Some(line);
        }
        if end >= chars.len() {
            return None;
        }
        assert(rest.skip(line_len(rest) as int + 1) =~= chars@.skip(end + 1));
        start = end + 1;
    }
    assert(chars@.skip(start as int).len() == 0);
    None
}

} // verus!
