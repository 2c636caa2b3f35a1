//! Character-level text utilities: comparison, conversion between strings
//! and character vectors, whitespace trimming, prefixes and line splitting.

use vstd::prelude::*;
use vstd::string::*;
use vstd::utf8::*;

verus! {

/// Whether two string slices hold the same characters.
pub fn str_eq(a: &str, b: &str) -> (r: bool)
    ensures
        r == (a@ == b@),
{
    // Two texts are the same exactly where their UTF-8 encodings are.
    let x = a.as_bytes();
    let y = b.as_bytes();
    proof {
        encode_utf8_decode_utf8(a@);
        encode_utf8_decode_utf8(b@);
    }
    if x.len() != y.len() {
        return false;
    }
    let mut i: usize = 0;
    while i < x.len()
        invariant
            i <= x.len(),
            x.len() == y.len(),
            forall|j: int| 0 <= j < i ==> x@[j] == y@[j],
            a@ == b@ ==> x@ == y@,
        decreases x.len() - i,
    {
        if x[i] != y[i] {
            return false;
        }
        i += 1;
    }
    assert(x@ =~= y@);
    true
}

/// The characters of a string slice, in order.
pub fn to_chars(s: &str) -> (r: Vec<char>)
    ensures
        r@ == s@,
{
    let mut out: Vec<char> = Vec::new();
    for c in it: s.chars()
        invariant
            out@ == it.seq().take(it.index() as int),
    {
        out.push(c);
    }
    out
}

/// `String::push` appends one character to the end of the string.
pub assume_specification[ String::push ](s: &mut String, ch: char)
    ensures
        final(s)@ == old(s)@.push(ch),
;

/// A string holding the given characters, in order.
pub fn to_string(chars: &[char]) -> (r: String)
    ensures
        r@ == chars@,
{
    let mut out = String::new();
    let mut i: usize = 0;
    while i < chars.len()
        invariant
            i <= chars.len(),
            out@ == chars@.take(i as int),
        decreases chars.len() - i,
    {
        out.push(chars[i]);
        i += 1;
        assert(chars@.take(i as int) == chars@.take(i - 1).push(chars@[i - 1]));
    }
    assert(chars@.take(chars.len() as int) == chars@);
    out
}

/// The characters with the Unicode property `White_Space`.
pub open spec fn spec_is_whitespace(c: char) -> bool {
    let n = c as u32;
    ||| 0x09 <= n <= 0x0D
    ||| n == 0x20
    ||| n == 0x85
    ||| n == 0xA0
    ||| n == 0x1680
    ||| 0x2000 <= n <= 0x200A
    ||| n == 0x2028
    ||| n == 0x2029
    ||| n == 0x202F
    ||| n == 0x205F
    ||| n == 0x3000
}

/// Whether the character has the Unicode property `White_Space`.
pub fn is_whitespace(c: char) -> (r: bool)
    ensures
        r == spec_is_whitespace(c),
{
    let n: u32 = c as u32;
    let in_low_block = 0x09 <= n && n <= 0x0D;
    let in_space_block = 0x2000 <= n && n <= 0x200A;
    in_low_block || in_space_block || n == 0x20 || n == 0x85 || n == 0xA0 || n == 0x1680 || n
        == 0x2028 || n == 0x2029 || n == 0x202F || n == 0x205F || n == 0x3000
}

/// The sequence without its leading whitespace.
pub open spec fn spec_trim_start(s: Seq<char>) -> Seq<char>
    decreases s.len(),
{
    if s.len() > 0 && spec_is_whitespace(s[0]) {
        spec_trim_start(s.drop_first())
    } else {
        s
    }
}

/// The sequence without its trailing whitespace.
pub open spec fn spec_trim_end(s: Seq<char>) -> Seq<char>
    decreases s.len(),
{
    if s.len() > 0 && spec_is_whitespace(s.last()) {
        spec_trim_end(s.drop_last())
    } else {
        s
    }
}

/// The sequence without its leading and trailing whitespace.
pub open spec fn spec_trim(s: Seq<char>) -> Seq<char> {
    spec_trim_end(spec_trim_start(s))
}

/// The slice without its leading and trailing whitespace.
pub fn trim<'a>(s: &'a [char]) -> (r: &'a [char])
    ensures
        r@ == spec_trim(s@),
{
    let n = s.len();
    let mut start: usize = 0;
    assert(s@.subrange(0, n as int) == s@);
    while start < n && is_whitespace(s[start])
        invariant
            start <= n,
            n == s@.len(),
            spec_trim_start(s@) == spec_trim_start(s@.subrange(start as int, n as int)),
        decreases n - start,
    {
        assert(s@.subrange(start as int, n as int).drop_first() == s@.subrange(
            start + 1,
            n as int,
        ));
        start += 1;
    }
    let mut end: usize = n;
    while start < end && is_whitespace(s[end - 1])
        invariant
            start <= end <= n,
            n == s@.len(),
            spec_trim(s@) == spec_trim_end(s@.subrange(start as int, end as int)),
        decreases end - start,
    {
        assert(s@.subrange(start as int, end as int).drop_last() == s@.subrange(
            start as int,
            end - 1,
        ));
        end -= 1;
    }
    &s[start..end]
}

/// What follows `prefix` in `s`, where `s` begins with it.
pub open spec fn spec_strip_prefix(s: Seq<char>, prefix: Seq<char>) -> Option<Seq<char>> {
    if prefix.is_prefix_of(s) {
        Some(s.skip(prefix.len() as int))
    } else {
        None
    }
}

/// What follows `prefix` in `s`, or `None` where `s` does not begin with it.
pub fn strip_prefix<'a>(s: &'a [char], prefix: &[char]) -> (r: Option<&'a [char]>)
    ensures
        match r {
            Some(rest) => spec_strip_prefix(s@, prefix@) == Some(rest@),
            None => spec_strip_prefix(s@, prefix@) is None,
        },
{
    let n = prefix.len();
    if s.len() < n {
        return None;
    }
    let mut i: usize = 0;
    while i < n
        invariant
            i <= n,
            n == prefix@.len(),
            n <= s@.len(),
            forall|j: int| 0 <= j < i ==> s@[j] == prefix@[j],
        decreases n - i,
    {
        if s[i] != prefix[i] {
            assert(s@.subrange(0, n as int)[i as int] != prefix@[i as int]);
            return None;
        }
        i += 1;
    }
    assert(s@.subrange(0, n as int) =~= prefix@);
    Some(&s[n..s.len()])
}

/// The index of the first line feed in `s`, or the length of `s` where it
/// holds none.
pub open spec fn first_newline(s: Seq<char>) -> nat
    decreases s.len(),
{
    if s.len() == 0 || s[0] == '\n' {
        0
    } else {
        1 + first_newline(s.drop_first())
    }
}

/// The line without one trailing carriage return.
pub open spec fn strip_cr(line: Seq<char>) -> Seq<char> {
    if line.len() > 0 && line.last() == '\r' {
        line.drop_last()
    } else {
        line
    }
}

/// The lines of a text. A line ends at a line feed, or at a carriage return
/// directly followed by one; neither belongs to the line. What follows the
/// last line feed is a line too unless it is empty, and keeps a carriage
/// return at its end.
pub open spec fn spec_lines(text: Seq<char>) -> Seq<Seq<char>>
    decreases text.len(),
{
    if text.len() == 0 {
        Seq::empty()
    } else {
        let n = first_newline(text);
        if n >= text.len() {
            seq![text]
        } else {
            seq![strip_cr(text.take(n as int))] + spec_lines(text.skip(n as int + 1))
        }
    }
}

/// `first_newline` is the least index that holds a line feed.
pub proof fn lemma_first_newline(s: Seq<char>, k: int)
    requires
        0 <= k <= s.len(),
        forall|j: int| 0 <= j < k ==> s[j] != '\n',
        k < s.len() ==> s[k] == '\n',
    ensures
        first_newline(s) == k,
    decreases s.len(),
{
    if s.len() == 0 || s[0] == '\n' {
    } else {
        let t = s.drop_first();
        assert forall|j: int| 0 <= j < k - 1 implies t[j] != '\n' by {
            assert(t[j] == s[j + 1]);
        }
        lemma_first_newline(t, k - 1);
    }
}

/// The views of the slices, in order.
pub open spec fn slice_views(lines: Seq<&[char]>) -> Seq<Seq<char>> {
    lines.map_values(|l: &[char]| l@)
}

/// The lines of a text, as `str::lines` divides it.
pub fn lines<'a>(text: &'a [char]) -> (r: Vec<&'a [char]>)
    ensures
        slice_views(r@) == spec_lines(text@),
{
    let n = text.len();
    let mut out: Vec<&'a [char]> = Vec::new();
    let mut pos: usize = 0;
    assert(text@.skip(0) == text@);
    while pos < n
        invariant
            pos <= n,
            n == text@.len(),
            spec_lines(text@) == slice_views(out@) + spec_lines(text@.skip(pos as int)),
        decreases n - pos,
    {
        let ghost rest = text@.skip(pos as int);
        let ghost before = out@;
        let mut end: usize = pos;
        while end < n && text[end] != '\n'
            invariant
                pos <= end <= n,
                n == text@.len(),
                forall|j: int| pos <= j < end ==> text@[j] != '\n',
            decreases n - end,
        {
            end += 1;
        }
        proof {
            lemma_first_newline(rest, end - pos);
        }
        if end == n {
            let line = &text[pos..n];
            out.push(line);
            proof {
                assert(line@ == rest);
                assert(text@.skip(n as int).len() == 0);
                assert(slice_views(out@) == slice_views(before).push(line@));
                assert(spec_lines(rest) == seq![rest]);
            }
            pos = n;
        } else {
            let stop = if end > pos && text[end - 1] == '\r' {
                end - 1
            } else {
                end
            };
            let line = &text[pos..stop];
            out.push(line);
            proof {
                let raw = rest.take(end - pos);
                assert(raw == text@.subrange(pos as int, end as int));
                assert(line@ == strip_cr(raw));
                assert(rest.skip(end - pos + 1) == text@.skip(end + 1));
                assert(slice_views(out@) == slice_views(before).push(line@));
            }
            pos = end + 1;
        }
    }
    assert(text@.skip(n as int).len() == 0);
    out
}

/// Where leading whitespace ends: trimming the start drops what stands
/// before the returned index, all of which is whitespace, and what stands
/// at the index is none.
pub proof fn lemma_trim_start_bound(s: Seq<char>) -> (a: int)
    ensures
        0 <= a <= s.len(),
        spec_trim_start(s) == s.skip(a),
        forall|i: int| 0 <= i < a ==> spec_is_whitespace(s[i]),
        a < s.len() ==> !spec_is_whitespace(s[a]),
    decreases s.len(),
{
    if s.len() > 0 && spec_is_whitespace(s[0]) {
        let rest = s.drop_first();
        let inner = lemma_trim_start_bound(rest);
        assert(rest.skip(inner) =~= s.skip(inner + 1));
        assert forall|i: int| 0 <= i < inner + 1 implies spec_is_whitespace(s[i]) by {
            if i > 0 {
                assert(s[i] == rest[i - 1]);
            }
        }
        assert(inner + 1 < s.len() ==> s[inner + 1] == rest[inner]);
        inner + 1
    } else {
        assert(s.skip(0) =~= s);
        0
    }
}

/// Where trailing whitespace begins: trimming the end keeps what stands
/// before the returned index, after which all is whitespace, and what
/// stands just before the index is none.
pub proof fn lemma_trim_end_bound(s: Seq<char>) -> (b: int)
    ensures
        0 <= b <= s.len(),
        spec_trim_end(s) == s.take(b),
        forall|i: int| b <= i < s.len() ==> spec_is_whitespace(s[i]),
        0 < b ==> !spec_is_whitespace(s[b - 1]),
    decreases s.len(),
{
    if s.len() > 0 && spec_is_whitespace(s.last()) {
        let rest = s.drop_last();
        let inner = lemma_trim_end_bound(rest);
        assert(rest.take(inner) =~= s.take(inner));
        assert forall|i: int| inner <= i < s.len() implies spec_is_whitespace(s[i]) by {
            if i < s.len() - 1 {
                assert(s[i] == rest[i]);
            }
        }
        assert(0 < inner ==> s[inner - 1] == rest[inner - 1]);
        inner
    } else {
        assert(s.take(s.len() as int) =~= s);
        s.len() as int
    }
}

/// Trimming cuts the whitespace from both ends, all of it and nothing
/// else: the result is the part between two indices, outside of which all
/// is whitespace, and which begins and ends with a character that is none.
pub proof fn lemma_trim_bounds(s: Seq<char>) -> (bounds: (int, int))
    ensures
        0 <= bounds.0 <= bounds.1 <= s.len(),
        spec_trim(s) == s.subrange(bounds.0, bounds.1),
        forall|i: int| 0 <= i < bounds.0 ==> spec_is_whitespace(s[i]),
        forall|i: int| bounds.1 <= i < s.len() ==> spec_is_whitespace(s[i]),
        bounds.0 < bounds.1 ==> !spec_is_whitespace(s[bounds.0]) && !spec_is_whitespace(
            s[bounds.1 - 1],
        ),
{
    let a = lemma_trim_start_bound(s);
    let middle = s.skip(a);
    let b = lemma_trim_end_bound(middle);
    assert(middle.take(b) =~= s.subrange(a, a + b));
    assert forall|i: int| a + b <= i < s.len() implies spec_is_whitespace(s[i]) by {
        assert(s[i] == middle[i - a]);
    }
    if b > 0 {
        assert(s[a + b - 1] == middle[b - 1]);
    }
    (a, a + b)
}

/// A text that trimming leaves as it is begins and ends with a character
/// that is no whitespace.
pub proof fn lemma_trimmed_ends(value: Seq<char>)
    requires
        spec_trim(value) == value,
        value.len() > 0,
    ensures
        !spec_is_whitespace(value[0]),
        !spec_is_whitespace(value.last()),
{
    let bounds = lemma_trim_bounds(value);
    let a = bounds.0;
    let b = bounds.1;
    assert(value.subrange(a, b).len() == b - a);
    assert(a == 0 && b == value.len());
}

/// The lines with a line feed after each.
pub open spec fn join_lines(lines: Seq<Seq<char>>) -> Seq<char>
    decreases lines.len(),
{
    if lines.len() == 0 {
        Seq::empty()
    } else {
        lines[0].push('\n') + join_lines(lines.drop_first())
    }
}

/// Lines that hold no line feed and end with no carriage return are the
/// lines of their joined text.
pub proof fn lemma_lines_of_joined(lines: Seq<Seq<char>>)
    requires
        forall|k: int, i: int|
            0 <= k < lines.len() && 0 <= i < lines[k].len() ==> #[trigger] lines[k][i] != '\n',
        forall|k: int| 0 <= k < lines.len() ==> strip_cr(#[trigger] lines[k]) == lines[k],
    ensures
        spec_lines(join_lines(lines)) == lines,
    decreases lines.len(),
{
    if lines.len() == 0 {
        assert(spec_lines(join_lines(lines)) =~= lines);
    } else {
        let first = lines[0];
        let rest = lines.drop_first();
        let text = join_lines(lines);
        let n = first.len() as int;
        assert forall|j: int| 0 <= j < n implies text[j] != '\n' by {
            assert(text[j] == lines[0][j]);
        }
        assert(text[n] == '\n');
        lemma_first_newline(text, n);
        assert(text.take(n) =~= first);
        assert(text.skip(n + 1) =~= join_lines(rest));
        assert forall|k: int, i: int| 0 <= k < rest.len() && 0 <= i < rest[k].len() implies
            #[trigger] rest[k][i] != '\n' by {
            assert(rest[k] == lines[k + 1]);
            assert(lines[k + 1][i] != '\n');
        }
        assert forall|k: int| 0 <= k < rest.len() implies strip_cr(#[trigger] rest[k])
            == rest[k] by {
            assert(rest[k] == lines[k + 1]);
        }
        lemma_lines_of_joined(rest);
        assert(strip_cr(lines[0]) == lines[0]);
        assert(spec_lines(text) =~= lines);
    }
}

} // verus!
