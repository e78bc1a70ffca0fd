//! Line-oriented scanning of declaration text.
use vstd::prelude::*;

verus! {

/// Whether `c` carries the Unicode `White_Space` property, as
/// `char::is_whitespace` decides it.
pub open spec fn is_white(c: char) -> bool {
    let u = c as u32;
    (0x9 <= u && u <= 0xd) || u == 0x20 || u == 0x85 || u == 0xa0 || u == 0x1680 || (0x2000 <= u
        && u <= 0x200a) || u == 0x2028 || u == 0x2029 || u == 0x202f || u == 0x205f || u == 0x3000
}

/// `l` without its leading white space, as `str::trim_start` gives it.
pub open spec fn trim_start(l: Seq<char>) -> Seq<char>
    decreases l.len(),
{
    if l.len() > 0 && is_white(l[0]) {
        trim_start(l.drop_first())
    } else {
        l
    }
}

pub open spec fn starts_with(l: Seq<char>, prefix: Seq<char>) -> bool {
    prefix.len() <= l.len() && l.subrange(0, prefix.len() as int) == prefix
}

/// The index of the first line feed at or after `i`, or the length of `s`.
pub open spec fn line_end(s: Seq<char>, i: int) -> int
    decreases s.len() - i,
{
    if i >= s.len() {
        s.len() as int
    } else if s[i] == '\n' {
        i
    } else {
        line_end(s, i + 1)
    }
}

/// The line that starts at `i`, without its terminator (`\n` or `\r\n`).
pub open spec fn line_text(s: Seq<char>, i: int) -> Seq<char> {
    let e = line_end(s, i);
    if e < s.len() && e > i && s[e - 1] == '\r' {
        s.subrange(i, e - 1)
    } else {
        s.subrange(i, e)
    }
}

pub open spec fn is_line_start(s: Seq<char>, i: int) -> bool {
    0 <= i < s.len() && (i == 0 || s[i - 1] == '\n')
}

/// Whether a line starts at `i` whose text, left-trimmed, begins with `prefix`.
pub open spec fn is_marker_line(s: Seq<char>, i: int, prefix: Seq<char>) -> bool {
    is_line_start(s, i) && starts_with(trim_start(line_text(s, i)), prefix)
}

pub open spec fn marker_line_from(s: Seq<char>, i: int, prefix: Seq<char>) -> Option<Seq<char>>
    decreases s.len() - i,
{
    if i < 0 || i >= s.len() {
        None
    } else if is_marker_line(s, i, prefix) {
        Some(line_text(s, i))
    } else {
        marker_line_from(s, i + 1, prefix)
    }
}

/// The first line of `s` whose left-trimmed text begins with `prefix`.
pub open spec fn marker_line(s: Seq<char>, prefix: Seq<char>) -> Option<Seq<char>> {
    marker_line_from(s, 0, prefix)
}

proof fn lemma_skip(s: Seq<char>, a: int, b: int, prefix: Seq<char>)
    requires
        0 <= a <= b,
        forall|k: int| a <= k < b ==> !is_marker_line(s, k, prefix),
    ensures
        marker_line_from(s, a, prefix) == marker_line_from(s, b, prefix),
    decreases b - a,
{
    if a < b && a < s.len() {
        lemma_skip(s, a + 1, b, prefix);
    } else if a < b {
        lemma_past_end(s, b, prefix);
    }
}

proof fn lemma_past_end(s: Seq<char>, b: int, prefix: Seq<char>)
    requires
        b >= s.len(),
    ensures
        marker_line_from(s, b, prefix) is None,
{
}

proof fn lemma_line_end(s: Seq<char>, i: int, e: int)
    requires
        0 <= i <= e <= s.len(),
        forall|k: int| i <= k < e ==> s[k] != '\n',
        e == s.len() || s[e] == '\n',
    ensures
        line_end(s, i) == e,
    decreases e - i,
{
    if i < e {
        lemma_line_end(s, i + 1, e);
    }
}

proof fn lemma_trim_step(l: Seq<char>, k: int)
    requires
        0 <= k < l.len(),
        is_white(l[k]),
    ensures
        trim_start(l.subrange(k, l.len() as int)) == trim_start(l.subrange(k + 1, l.len() as int)),
{
    let t = l.subrange(k, l.len() as int);
    assert(t.drop_first() =~= l.subrange(k + 1, l.len() as int));
}

/// Whether `c` is white space; the whole of `char::is_whitespace`.
pub fn is_white_char(c: char) -> (r: bool)
    ensures
        r == is_white(c),
{
    let u = c as u32;
    (0x9 <= u && u <= 0xd) || u == 0x20 || u == 0x85 || u == 0xa0 || u == 0x1680 || (0x2000 <= u
        && u <= 0x200a) || u == 0x2028 || u == 0x2029 || u == 0x202f || u == 0x205f || u == 0x3000
}

/// Whether `l`, left-trimmed, begins with `prefix`.
pub fn trimmed_starts_with(l: &Vec<char>, prefix: &Vec<char>) -> (r: bool)
    ensures
        r == starts_with(trim_start(l@), prefix@),
{
    let mut k: usize = 0;
    assert(l@.subrange(0, l@.len() as int) =~= l@);
    while k < l.len() && is_white_char(l[k])
        invariant
            k <= l@.len(),
            trim_start(l@) == trim_start(l@.subrange(k as int, l@.len() as int)),
        decreases l@.len() - k,
    {
        proof {
            lemma_trim_step(l@, k as int);
        }
        k = k + 1;
    }
    let ghost t = l@.subrange(k as int, l@.len() as int);
    assert(trim_start(t) == t);
    if prefix.len() > l.len() - k {
        return false;
    }
    let n = l.len();
    let mut j: usize = 0;
    while j < prefix.len()
        invariant
            n == l@.len(),
            j <= prefix@.len(),
            prefix@.len() <= t.len(),
            t == l@.subrange(k as int, l@.len() as int),
            trim_start(l@) == t,
            k <= l@.len(),
            k + prefix@.len() <= l@.len(),
            forall|m: int| 0 <= m < j ==> t[m] == prefix@[m],
        decreases prefix@.len() - j,
    {
        if l[k + j] != prefix[j] {
            assert(t.subrange(0, prefix@.len() as int)[j as int] != prefix@[j as int]);
            return false;
        }
        j = j + 1;
    }
    assert(t.subrange(0, prefix@.len() as int) =~= prefix@);
    true
}

/// The first line of `s` whose left-trimmed text begins with `prefix`,
/// without its line terminator.
pub fn find_marker_line(s: &Vec<char>, prefix: &Vec<char>) -> (r: Option<Vec<char>>)
    ensures
        match r {
            Some(l) => marker_line(s@, prefix@) == Some(l@),
            None => marker_line(s@, prefix@) is None,
        },
{
    let mut pos: usize = 0;
    while pos < s.len()
        invariant
            pos <= s@.len(),
            pos == 0 || s@[pos - 1] == '\n',
            marker_line(s@, prefix@) == marker_line_from(s@, pos as int, prefix@),
        decreases s@.len() - pos,
    {
        let mut e: usize = pos;
        let mut line: Vec<char> = Vec::new();
        while e < s.len() && s[e] != '\n'
            invariant
                pos <= e <= s@.len(),
                forall|k: int| pos <= k < e ==> s@[k] != '\n',
                line@ == s@.subrange(pos as int, e as int),
            decreases s@.len() - e,
        {
            line.push(s[e]);
            e = e + 1;
        }
        proof {
            lemma_line_end(s@, pos as int, e as int);
        }
        if e < s.len() && e > pos && s[e - 1] == '\r' {
            line.pop();
            assert(line@ =~= s@.subrange(pos as int, e - 1));
        }
        assert(line@ == line_text(s@, pos as int));
        if trimmed_starts_with(&line, prefix) {
            return Some(line);
        }
        proof {
            assert forall|k: int| pos <= k < e + 1 implies !is_marker_line(s@, k, prefix@) by {
                if k > pos {
                    assert(s@[k - 1] != '\n');
                }
            }
            lemma_skip(s@, pos as int, e + 1, prefix@);
        }
        if e == s.len() {
            proof {
                lemma_past_end(s@, e + 1, prefix@);
            }
            return None;
        }
        pos = e + 1;
    }
    proof {
        lemma_past_end(s@, pos as int, prefix@);
    }
    None
}

} // verus!
