//! Text handling: white space, trimming and the split of a description into comment lines.

use vstd::prelude::*;

verus! {

/// Whether `c` is white space: the code points with the Unicode property `White_Space`.
pub open spec fn is_space(c: char) -> bool {
    let n = c as u32;
    ||| 0x09 <= n <= 0x0D
    ||| n == 0x20
    ||| n == 0x85
    ||| n == 0xA0
    ||| n == 0x1680
    ||| 0x2000 <= n <= 0x200A
    ||| n == 0x2028
    ||| n == 0x2029
    ||| n == 0x202F
    ||| n == 0x205F
    ||| n == 0x3000
}

/// `s` without its leading white space.
pub open spec fn trim_start(s: Seq<char>) -> Seq<char>
    decreases s.len(),
{
    if s.len() > 0 && is_space(s[0]) {
        trim_start(s.drop_first())
    } else {
        s
    }
}

/// `s` without its trailing white space.
pub open spec fn trim_end(s: Seq<char>) -> Seq<char>
    decreases s.len(),
{
    if s.len() > 0 && is_space(s.last()) {
        trim_end(s.drop_last())
    } else {
        s
    }
}

/// `s` without leading and trailing white space.
pub open spec fn trim(s: Seq<char>) -> Seq<char> {
    trim_end(trim_start(s))
}

/// The length of the first line of `s`: the index of its first line feed, or the length of `s`
/// where it has none.
pub open spec fn line_end(s: Seq<char>) -> nat
    decreases s.len(),
{
    if s.len() == 0 || s[0] == '\n' {
        0
    } else {
        1 + line_end(s.drop_first())
    }
}

/// The comment lines of a description: the text is split at every line feed, each piece is
/// trimmed, and the pieces that are then empty are left out. The order is kept.
pub open spec fn comment_lines(s: Seq<char>) -> Seq<Seq<char>>
    decreases s.len(),
{
    let end = line_end(s) as int;
    let line = trim(s.take(end));
    let first = if line.len() > 0 {
        seq![line]
    } else {
        Seq::empty()
    };
    if end >= s.len() {
        first
    } else {
        first + comment_lines(s.skip(end + 1))
    }
}

/// The views of a sequence of strings.
pub open spec fn texts(v: Seq<String>) -> Seq<Seq<char>> {
    v.map_values(|line: String| line@)
}

pub proof fn lemma_line_end_bounds(s: Seq<char>)
    ensures
        line_end(s) <= s.len(),
        line_end(s) < s.len() ==> s[line_end(s) as int] == '\n',
        forall|i: int| 0 <= i < line_end(s) ==> s[i] != '\n',
    decreases s.len(),
{
    if s.len() == 0 || s[0] == '\n' {
    } else {
        let rest = s.drop_first();
        lemma_line_end_bounds(rest);
        assert forall|i: int| 0 <= i < line_end(s) implies s[i] != '\n' by {
            if i > 0 {
                assert(s[i] == rest[i - 1]);
            }
        }
    }
}

/// A position that holds the first line feed at or after `from` ends the line that starts at
/// `from`.
proof fn lemma_line_end_found(s: Seq<char>, from: int, at: int)
    requires
        0 <= from <= at <= s.len(),
        forall|i: int| from <= i < at ==> s[i] != '\n',
        at < s.len() ==> s[at] == '\n',
    ensures
        line_end(s.skip(from)) == at - from,
    decreases at - from,
{
    let tail = s.skip(from);
    if from == at {
        if at < s.len() {
            assert(tail[0] == s[at]);
        }
    } else {
        assert(tail[0] == s[from]);
        assert(tail.drop_first() =~= s.skip(from + 1));
        lemma_line_end_found(s, from + 1, at);
    }
}

/// Whether `c` is white space.
pub fn is_whitespace(c: char) -> (b: bool)
    ensures
        b == is_space(c),
{
    let n: u32 = c as u32;
    (0x09 <= n && n <= 0x0D) || n == 0x20 || n == 0x85 || n == 0xA0 || n == 0x1680 || (0x2000 <= n
        && n <= 0x200A) || n == 0x2028 || n == 0x2029 || n == 0x202F || n == 0x205F || n == 0x3000
}

/// The characters of `s`, in order.
pub fn chars_of(s: &str) -> (v: Vec<char>)
    ensures
        v@ == s@,
{
    let mut v: Vec<char> = Vec::new();
    for c in it: s.chars()
        invariant
            v@ == it.seq().take(it.index() as int),
    {
        v.push(c);
    }
    v
}

/// Trims the part of `chars` between `from` and `to`: the bounds of what is left of it.
fn trim_range(chars: &Vec<char>, from: usize, to: usize) -> (bounds: (usize, usize))
    requires
        from <= to <= chars.len(),
    ensures
        from <= bounds.0 <= bounds.1 <= to,
        chars@.subrange(bounds.0 as int, bounds.1 as int) == trim(
            chars@.subrange(from as int, to as int),
        ),
{
    let mut lo = from;
    while lo < to && is_whitespace(chars[lo])
        invariant
            from <= lo <= to <= chars.len(),
            trim_start(chars@.subrange(lo as int, to as int)) == trim_start(
                chars@.subrange(from as int, to as int),
            ),
        decreases to - lo,
    {
        proof {
            let part = chars@.subrange(lo as int, to as int);
            assert(part[0] == chars@[lo as int]);
            assert(part.drop_first() =~= chars@.subrange(lo + 1, to as int));
        }
        lo += 1;
    }
    proof {
        let part = chars@.subrange(lo as int, to as int);
        if lo < to {
            assert(part[0] == chars@[lo as int]);
        }
        assert(trim_start(part) == part);
    }
    let mut hi = to;
    while lo < hi && is_whitespace(chars[hi - 1])
        invariant
            lo <= hi <= to <= chars.len(),
            trim_end(chars@.subrange(lo as int, hi as int)) == trim_end(
                chars@.subrange(lo as int, to as int),
            ),
        decreases hi - lo,
    {
        proof {
            let part = chars@.subrange(lo as int, hi as int);
            assert(part.last() == chars@[hi - 1]);
            assert(part.drop_last() =~= chars@.subrange(lo as int, hi - 1));
        }
        hi -= 1;
    }
    proof {
        let part = chars@.subrange(lo as int, hi as int);
        if lo < hi {
            assert(part.last() == chars@[hi - 1]);
        }
        assert(trim_end(part) == part);
    }
    (lo, hi)
}

/// Splits a description into its comment lines.
pub fn split_comment_lines(description: &str) -> (lines: Vec<String>)
    ensures
        texts(lines@) == comment_lines(description@),
{
    let chars = chars_of(description);
    let n = chars.len();
    let mut lines: Vec<String> = Vec::new();
    let mut start: usize = 0;
    let mut done = false;
    assert(description@.skip(0) =~= description@);
    assert(texts(lines@) =~= Seq::<Seq<char>>::empty());
    while !done
        invariant
            chars@ == description@,
            n == chars.len(),
            start <= n,
            !done ==> texts(lines@) + comment_lines(description@.skip(start as int))
                == comment_lines(description@),
            done ==> texts(lines@) == comment_lines(description@),
        decreases n - start + (if done { 0int } else { 1int }),
    {
        let mut end = start;
        while end < n && chars[end] != '\n'
            invariant
                start <= end <= n,
                n == chars.len(),
                forall|i: int| start <= i < end ==> chars@[i] != '\n',
            decreases n - end,
        {
            end += 1;
        }
        let (lo, hi) = trim_range(&chars, start, end);
        let ghost before = texts(lines@);
        let ghost tail = description@.skip(start as int);
        proof {
            lemma_line_end_found(chars@, start as int, end as int);
            assert(tail.take(end - start) =~= chars@.subrange(start as int, end as int));
            assert(tail.len() == n - start);
        }
        if lo < hi {
            let piece = description.substring_char(lo, hi);
            lines.push(String::from_str(piece));
            assert(texts(lines@) =~= before + seq![trim(tail.take(end - start))]);
        }
        if end >= n {
            done = true;
        } else {
            proof {
                assert(tail.skip(end - start + 1) =~= description@.skip(end + 1));
            }
            start = end + 1;
        }
    }
    lines
}

} // verus!
