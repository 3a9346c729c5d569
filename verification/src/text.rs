//! Whitespace handling for the lines that arrive on a connection.

use vstd::prelude::*;
use vstd::string::*;

verus! {

/// Whether `c` is white space: the code points that carry the Unicode
/// `White_Space` property.
pub open spec fn is_space(c: char) -> bool {
    let n = c as u32;
    ||| 0x09 <= n <= 0x0D
    ||| n == 0x20
    ||| n == 0x85
    ||| n == 0xA0
    ||| n == 0x1680
    ||| 0x2000 <= n <= 0x200A
    ||| n == 0x2028
    ||| n == 0x2029
    ||| n == 0x202F
    ||| n == 0x205F
    ||| n == 0x3000
}

/// `s` without its leading white space.
pub open spec fn skip_leading(s: Seq<char>) -> Seq<char>
    decreases s.len(),
{
    if s.len() > 0 && is_space(s.first()) {
        skip_leading(s.drop_first())
    } else {
        s
    }
}

/// `s` without its trailing white space.
pub open spec fn skip_trailing(s: Seq<char>) -> Seq<char>
    decreases s.len(),
{
    if s.len() > 0 && is_space(s.last()) {
        skip_trailing(s.drop_last())
    } else {
        s
    }
}

/// `s` without leading and trailing white space.
pub open spec fn trimmed(s: Seq<char>) -> Seq<char> {
    skip_trailing(skip_leading(s))
}

/// Whether `s` holds nothing but white space.
pub open spec fn is_blank(s: Seq<char>) -> bool {
    forall|i: int| 0 <= i < s.len() ==> is_space(#[trigger] s[i])
}

/// Skipping leading white space yields a suffix of the input that is empty
/// or starts with a character that is not white space.
pub proof fn lemma_skip_leading(s: Seq<char>)
    ensures
        skip_leading(s).len() <= s.len(),
        skip_leading(s) == s.subrange(s.len() - skip_leading(s).len(), s.len() as int),
        forall|i: int| 0 <= i < s.len() - skip_leading(s).len() ==> is_space(#[trigger] s[i]),
        skip_leading(s).len() > 0 ==> !is_space(skip_leading(s).first()),
    decreases s.len(),
{
    if s.len() > 0 && is_space(s.first()) {
        let t = s.drop_first();
        lemma_skip_leading(t);
        let k = skip_leading(t).len();
        assert(t.subrange(t.len() - k, t.len() as int) =~= s.subrange(s.len() - k, s.len() as int));
        assert forall|i: int| 0 <= i < s.len() - k implies is_space(#[trigger] s[i]) by {
            if i > 0 {
                assert(s[i] == t[i - 1]);
            }
        }
    } else {
        assert(s.subrange(0, s.len() as int) =~= s);
    }
}

/// Skipping trailing white space yields a prefix of the input that is empty
/// or ends with a character that is not white space.
pub proof fn lemma_skip_trailing(s: Seq<char>)
    ensures
        skip_trailing(s).len() <= s.len(),
        skip_trailing(s) == s.subrange(0, skip_trailing(s).len() as int),
        forall|i: int| skip_trailing(s).len() <= i < s.len() ==> is_space(#[trigger] s[i]),
        skip_trailing(s).len() > 0 ==> !is_space(skip_trailing(s).last()),
    decreases s.len(),
{
    if s.len() > 0 && is_space(s.last()) {
        let t = s.drop_last();
        lemma_skip_trailing(t);
        let k = skip_trailing(t).len() as int;
        assert(t.subrange(0, k) =~= s.subrange(0, k));
        assert forall|i: int| k <= i < s.len() implies is_space(#[trigger] s[i]) by {
            if i < t.len() {
                assert(s[i] == t[i]);
            }
        }
    } else {
        assert(s.subrange(0, s.len() as int) =~= s);
    }
}

/// A line trims to nothing exactly when it is blank.
pub proof fn lemma_trimmed_empty_iff_blank(s: Seq<char>)
    ensures
        trimmed(s).len() == 0 <==> is_blank(s),
{
    lemma_skip_leading(s);
    let t = skip_leading(s);
    lemma_skip_trailing(t);
    let off = s.len() - t.len();
    if is_blank(s) {
        if t.len() > 0 {
            assert(t.first() == s[off]);
            assert(is_space(s[off]));
        }
        assert(trimmed(s).len() == 0);
    }
    if trimmed(s).len() == 0 {
        if t.len() > 0 {
            // every character of `t` is trailing white space, yet `t` starts
            // with one that is not
            assert(is_space(t[0]));
        }
        assert(t.len() == 0);
        assert(is_blank(s));
    }
}

/// Whether `c` is white space.
pub fn is_space_char(c: char) -> (b: bool)
    ensures
        b == is_space(c),
{
    let n: u32 = c as u32;
    (0x09 <= n && n <= 0x0D) || n == 0x20 || n == 0x85 || n == 0xA0 || n == 0x1680 || (0x2000 <= n
        && n <= 0x200A) || n == 0x2028 || n == 0x2029 || n == 0x202F || n == 0x205F || n == 0x3000
}

/// The characters of `text`, one by one.
pub fn chars_of(text: &str) -> (out: Vec<char>)
    ensures
        out@ == text@,
{
    broadcast use vstd::string::group_string_axioms;

    let mut out: Vec<char> = Vec::new();
    for c in it: text.chars()
        invariant
            it.seq() == text@,
            out@ == it.seq().take(it.index()),
    {
        out.push(c);
        assert(it.seq().take(it.index() + 1) =~= it.seq().take(it.index()).push(c));
    }
    assert(out@ =~= text@);
    out
}

/// Returns `line` without its leading and trailing white space.
pub fn trim(line: &str) -> (out: String)
    ensures
        out@ == trimmed(line@),
{
    let chars = chars_of(line);
    let n = chars.len();
    let mut start: usize = 0;
    assert(line@.subrange(0, n as int) =~= line@);
    while start < n && is_space_char(chars[start])
        invariant
            start <= n,
            n == line@.len(),
            chars@ == line@,
            skip_leading(line@) == skip_leading(line@.subrange(start as int, n as int)),
        decreases n - start,
    {
        proof {
            let cur = line@.subrange(start as int, n as int);
            assert(cur.first() == line@[start as int]);
            assert(cur.drop_first() =~= line@.subrange(start + 1, n as int));
        }
        start += 1;
    }
    proof {
        let cur = line@.subrange(start as int, n as int);
        if start < n {
            assert(cur.first() == line@[start as int]);
        }
        assert(skip_leading(cur) == cur);
    }
    let mut end: usize = n;
    while end > start && is_space_char(chars[end - 1])
        invariant
            start <= end <= n,
            n == line@.len(),
            chars@ == line@,
            skip_leading(line@) == line@.subrange(start as int, n as int),
            trimmed(line@) == skip_trailing(line@.subrange(start as int, end as int)),
        decreases end - start,
    {
        proof {
            let cur = line@.subrange(start as int, end as int);
            assert(cur.last() == line@[end - 1]);
            assert(cur.drop_last() =~= line@.subrange(start as int, end - 1));
        }
        end -= 1;
    }
    proof {
        let cur = line@.subrange(start as int, end as int);
        if end > start {
            assert(cur.last() == line@[end - 1]);
        }
        assert(skip_trailing(cur) == cur);
    }
    let piece = line.substring_char(start, end);
    String::from_str(piece)
}

} // verus!
