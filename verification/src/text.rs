//! Verified text utilities: equality, whitespace trimming and splitting.
//!
//! The wire text handled by the transport (header lines, the service
//! announcement, the capability advertisement) is compared and taken apart
//! with the functions of this module, each proved against a direct
//! mathematical description of its result.

use vstd::prelude::*;
use vstd::string::StrSliceExecFns;

verus! {

/// Compares two string slices for equality of their character sequences.
pub fn str_eq(a: &str, b: &str) -> (r: bool)
    ensures
        r == (a@ == b@),
{
    let x = a.to_owned();
    let y = b.to_owned();
    x == y
}

/// The whitespace characters stripped from the ends of an announcement line.
pub open spec fn is_ws(c: char) -> bool {
    c == ' ' || c == '\t' || c == '\r' || c == '\n'
}

/// `s` with every leading and trailing whitespace character removed.
pub open spec fn trim_spec(s: Seq<char>) -> Seq<char>
    decreases s.len(),
{
    if s.len() == 0 {
        s
    } else if is_ws(s.first()) {
        trim_spec(s.drop_first())
    } else if is_ws(s.last()) {
        trim_spec(s.drop_last())
    } else {
        s
    }
}

proof fn lemma_trim_all_ws(s: Seq<char>)
    requires
        forall|k: int| 0 <= k < s.len() ==> is_ws(s[k]),
    ensures
        trim_spec(s).len() == 0,
    decreases s.len(),
{
    if s.len() > 0 {
        let t = s.drop_first();
        assert forall|k: int| 0 <= k < t.len() implies is_ws(t[k]) by {
            assert(t[k] == s[k + 1]);
        }
        lemma_trim_all_ws(t);
    }
}

proof fn lemma_trim_range(s: Seq<char>, i: int, j: int)
    requires
        0 <= i <= j <= s.len(),
        forall|k: int| 0 <= k < i ==> is_ws(s[k]),
        forall|k: int| j <= k < s.len() ==> is_ws(s[k]),
        i < j ==> !is_ws(s[i]) && !is_ws(s[j - 1]),
    ensures
        trim_spec(s) == s.subrange(i, j),
    decreases s.len(),
{
    if i == j {
        lemma_trim_all_ws(s);
        assert(trim_spec(s) =~= s.subrange(i, j));
    } else if i > 0 {
        let t = s.drop_first();
        assert forall|k: int| 0 <= k < i - 1 implies is_ws(t[k]) by {
            assert(t[k] == s[k + 1]);
        }
        assert forall|k: int| j - 1 <= k < t.len() implies is_ws(t[k]) by {
            assert(t[k] == s[k + 1]);
        }
        assert(t[i - 1] == s[i] && t[j - 2] == s[j - 1]);
        lemma_trim_range(t, i - 1, j - 1);
        assert(trim_spec(s) == trim_spec(t));
        assert(t.subrange(i - 1, j - 1) =~= s.subrange(i, j));
    } else if j < s.len() {
        let t = s.drop_last();
        assert forall|k: int| j <= k < t.len() implies is_ws(t[k]) by {
            assert(t[k] == s[k]);
        }
        assert(t[0] == s[0] && t[j - 1] == s[j - 1]);
        lemma_trim_range(t, 0, j);
        assert(trim_spec(s) == trim_spec(t));
        assert(t.subrange(0, j) =~= s.subrange(0, j));
    } else {
        assert(trim_spec(s) == s);
        assert(s.subrange(0, s.len() as int) =~= s);
    }
}

/// Decides whether `c` is one of the whitespace characters of [`is_ws`].
pub fn is_whitespace_char(c: char) -> (r: bool)
    ensures
        r == is_ws(c),
{
    c == ' ' || c == '\t' || c == '\r' || c == '\n'
}

/// Removes leading and trailing whitespace from `s`.
pub fn trim(s: &str) -> (r: String)
    ensures
        r@ == trim_spec(s@),
{
    let len = s.unicode_len();
    let mut i: usize = 0;
    while i < len && is_whitespace_char(s.get_char(i))
        invariant
            i <= len,
            len == s@.len(),
            forall|k: int| 0 <= k < i ==> is_ws(s@[k]),
        decreases len - i,
    {
        i = i + 1;
    }
    if i == len {
        proof {
            lemma_trim_all_ws(s@);
            assert(trim_spec(s@) =~= Seq::<char>::empty());
        }
        String::new()
    } else {
        let mut j: usize = len;
        while j > i + 1 && is_whitespace_char(s.get_char(j - 1))
            invariant
                i < j <= len,
                len == s@.len(),
                !is_ws(s@[i as int]),
                forall|k: int| j <= k < len ==> is_ws(s@[k]),
            decreases j,
        {
            j = j - 1;
        }
        let t = s.substring_char(i, j);
        proof {
            lemma_trim_range(s@, i as int, j as int);
        }
        t.to_owned()
    }
}

/// The index of the first occurrence of `c` in `s` at or after `i`, or
/// `s.len()` if there is none.
pub open spec fn find_from(s: Seq<char>, c: char, i: int) -> int
    decreases s.len() - i,
{
    if i < 0 || i >= s.len() {
        s.len() as int
    } else if s[i] == c {
        i
    } else {
        find_from(s, c, i + 1)
    }
}

/// Finds the first occurrence of `c` in `s`, returning `s`'s length if the
/// character does not occur.
pub fn find_char(s: &str, c: char) -> (r: usize)
    ensures
        r as int == find_from(s@, c, 0),
        r <= s@.len(),
{
    let len = s.unicode_len();
    let mut i: usize = 0;
    while i < len
        invariant
            i <= len,
            len == s@.len(),
            find_from(s@, c, 0) == find_from(s@, c, i as int),
        decreases len - i,
    {
        if s.get_char(i) == c {
            proof {
                assert(find_from(s@, c, i as int) == i);
            }
            return i;
        }
        proof {
            assert(find_from(s@, c, i as int) == find_from(s@, c, i + 1));
        }
        i = i + 1;
    }
    i
}

/// The pieces of `s` between occurrences of the separator `c`: splitting
/// never yields an empty sequence, and separators are consumed.
pub open spec fn split_spec(s: Seq<char>, c: char) -> Seq<Seq<char>>
    decreases s.len(),
{
    let i = find_from(s, c, 0);
    if 0 <= i < s.len() {
        seq![s.take(i)] + split_spec(s.skip(i + 1), c)
    } else {
        seq![s]
    }
}

/// Splits `s` at every occurrence of `c`.
pub fn split_on_char(s: &str, c: char) -> (r: Vec<String>)
    ensures
        r@.len() == split_spec(s@, c).len(),
        forall|k: int| 0 <= k < r@.len() ==> r@[k]@ == split_spec(s@, c)[k],
    decreases s@.len(),
{
    let len = s.unicode_len();
    let i = find_char(s, c);
    if i < len {
        let head = s.substring_char(0, i);
        let tail = s.substring_char(i + 1, len);
        let mut rest = split_on_char(tail, c);
        rest.insert(0, head.to_owned());
        proof {
            assert(s@.skip(i + 1) =~= s@.subrange(i + 1, len as int));
            assert(s@.take(i as int) =~= s@.subrange(0, i as int));
            assert(split_spec(s@, c) == seq![s@.take(i as int)] + split_spec(s@.skip(i + 1), c));
        }
        rest
    } else {
        let mut v: Vec<String> = Vec::new();
        v.push(s.to_owned());
        proof {
            assert(find_from(s@, c, 0) == s@.len());
            assert(split_spec(s@, c) == seq![s@]);
        }
        v
    }
}

/// The lines of a section of text: the pieces between `\n` separators, with
/// the empty piece after a trailing newline dropped.
pub open spec fn lines_of(s: Seq<char>) -> Seq<Seq<char>> {
    let parts = split_spec(s, '\n');
    if parts.len() > 0 && parts.last().len() == 0 {
        parts.drop_last()
    } else {
        parts
    }
}

/// Splits a section of text into its lines, dropping the empty piece a
/// trailing newline would produce.
pub fn split_lines(s: &str) -> (r: Vec<String>)
    ensures
        r@.len() == lines_of(s@).len(),
        forall|k: int| 0 <= k < r@.len() ==> r@[k]@ == lines_of(s@)[k],
{
    let mut parts = split_on_char(s, '\n');
    proof {
        assert(split_spec(s@, '\n').len() >= 1);
    }
    let n = parts.len();
    if n > 0 && parts[n - 1].as_str().is_empty() {
        parts.pop();
    }
    parts
}

} // verus!
