//! Character-level helpers for validating and normalising ticket text:
//! whitespace classification, blankness, trimming, and string comparison.

use vstd::prelude::*;
use vstd::string::StrSliceExecFns;

verus! {

/// A character with the Unicode `White_Space` property, the class that
/// `str::trim` and `char::is_whitespace` use.
pub open spec fn is_space_char(c: char) -> bool {
    ||| c == '\u{0009}'
    ||| c == '\u{000A}'
    ||| c == '\u{000B}'
    ||| c == '\u{000C}'
    ||| c == '\u{000D}'
    ||| c == ' '
    ||| c == '\u{0085}'
    ||| c == '\u{00A0}'
    ||| c == '\u{1680}'
    ||| c == '\u{2000}'
    ||| c == '\u{2001}'
    ||| c == '\u{2002}'
    ||| c == '\u{2003}'
    ||| c == '\u{2004}'
    ||| c == '\u{2005}'
    ||| c == '\u{2006}'
    ||| c == '\u{2007}'
    ||| c == '\u{2008}'
    ||| c == '\u{2009}'
    ||| c == '\u{200A}'
    ||| c == '\u{2028}'
    ||| c == '\u{2029}'
    ||| c == '\u{202F}'
    ||| c == '\u{205F}'
    ||| c == '\u{3000}'
}

pub fn is_space(c: char) -> (r: bool)
    ensures
        r == is_space_char(c),
{
    c == '\u{0009}' || c == '\u{000A}' || c == '\u{000B}' || c == '\u{000C}' || c == '\u{000D}'
        || c == ' ' || c == '\u{0085}' || c == '\u{00A0}' || c == '\u{1680}' || c == '\u{2000}'
        || c == '\u{2001}' || c == '\u{2002}' || c == '\u{2003}' || c == '\u{2004}'
        || c == '\u{2005}' || c == '\u{2006}' || c == '\u{2007}' || c == '\u{2008}'
        || c == '\u{2009}' || c == '\u{200A}' || c == '\u{2028}' || c == '\u{2029}'
        || c == '\u{202F}' || c == '\u{205F}' || c == '\u{3000}'
}

/// A sequence is blank when every character is whitespace; trimming a blank
/// string leaves it empty.  The empty sequence is blank.
pub open spec fn is_blank(s: Seq<char>) -> bool {
    forall|i: int| 0 <= i < s.len() ==> is_space_char(s[i])
}

/// The number of bytes in the UTF-8 encoding of a character sequence, the
/// length that `str::len` reports.
pub open spec fn byte_len(s: Seq<char>) -> nat {
    vstd::utf8::encode_utf8(s).len()
}

/// Whether the string consists of whitespace alone (or is empty).
pub fn is_blank_str(s: &str) -> (r: bool)
    ensures
        r == is_blank(s@),
{
    let n = s.unicode_len();
    let mut i: usize = 0;
    while i < n
        invariant
            n == s@.len(),
            0 <= i <= n,
            forall|j: int| 0 <= j < i ==> is_space_char(s@[j]),
        decreases n - i,
    {
        if !is_space(s.get_char(i)) {
            return false;
        }
        i = i + 1;
    }
    true
}

/// Character-by-character string equality.
pub fn str_eq(a: &str, b: &str) -> (r: bool)
    ensures
        r == (a@ == b@),
{
    let na = a.unicode_len();
    let nb = b.unicode_len();
    if na != nb {
        return false;
    }
    let mut i: usize = 0;
    while i < na
        invariant
            na == a@.len(),
            nb == b@.len(),
            na == nb,
            0 <= i <= na,
            forall|j: int| 0 <= j < i ==> a@[j] == b@[j],
        decreases na - i,
    {
        if a.get_char(i) != b.get_char(i) {
            return false;
        }
        i = i + 1;
    }
    proof {
        assert(a@ =~= b@);
    }
    true
}

/// The number of leading whitespace characters.
pub open spec fn head_spaces(s: Seq<char>) -> nat
    decreases s.len(),
{
    if s.len() == 0 {
        0
    } else if is_space_char(s[0]) {
        (1 + head_spaces(s.drop_first())) as nat
    } else {
        0
    }
}

/// The length of the sequence once trailing whitespace is dropped.
pub open spec fn kept_end(s: Seq<char>) -> nat
    decreases s.len(),
{
    if s.len() == 0 {
        0
    } else if is_space_char(s[s.len() - 1]) {
        kept_end(s.drop_last())
    } else {
        s.len()
    }
}

/// The sequence with leading and trailing whitespace removed, as
/// `str::trim` leaves it.
pub open spec fn trimmed(s: Seq<char>) -> Seq<char> {
    if kept_end(s) <= head_spaces(s) {
        Seq::empty()
    } else {
        s.subrange(head_spaces(s) as int, kept_end(s) as int)
    }
}

pub proof fn lemma_head_spaces(s: Seq<char>)
    ensures
        head_spaces(s) <= s.len(),
        forall|j: int| 0 <= j < head_spaces(s) ==> is_space_char(s[j]),
        head_spaces(s) < s.len() ==> !is_space_char(s[head_spaces(s) as int]),
    decreases s.len(),
{
    if s.len() > 0 && is_space_char(s[0]) {
        lemma_head_spaces(s.drop_first());
        assert forall|j: int| 0 <= j < head_spaces(s) implies is_space_char(s[j]) by {
            if j > 0 {
                assert(s.drop_first()[j - 1] == s[j]);
            }
        }
        if head_spaces(s) < s.len() {
            assert(s.drop_first()[head_spaces(s) - 1] == s[head_spaces(s) as int]);
        }
    }
}

pub proof fn lemma_kept_end(s: Seq<char>)
    ensures
        kept_end(s) <= s.len(),
        forall|j: int| kept_end(s) <= j < s.len() ==> is_space_char(s[j]),
        kept_end(s) > 0 ==> !is_space_char(s[kept_end(s) - 1]),
    decreases s.len(),
{
    if s.len() > 0 && is_space_char(s[s.len() - 1]) {
        lemma_kept_end(s.drop_last());
        assert(forall|j: int| 0 <= j < s.len() - 1 ==> s.drop_last()[j] == s[j]);
    }
}

/// `head_spaces` is the position of the first non-space character, so any
/// scan that stops there agrees with it.
proof fn lemma_head_spaces_unique(s: Seq<char>, i: int)
    requires
        0 <= i <= s.len(),
        forall|j: int| 0 <= j < i ==> is_space_char(s[j]),
        i < s.len() ==> !is_space_char(s[i]),
        i == s.len() || i < s.len(),
    ensures
        i == s.len() && head_spaces(s) == s.len() || i < s.len() && head_spaces(s) == i,
{
    lemma_head_spaces(s);
    if i < s.len() {
        if head_spaces(s) < i {
            assert(is_space_char(s[head_spaces(s) as int]));
        }
        if head_spaces(s) > i {
            assert(is_space_char(s[i]));
        }
    } else {
        if head_spaces(s) < s.len() {
            assert(is_space_char(s[head_spaces(s) as int]));
        }
    }
}

/// `kept_end` is one past the last non-space character.
proof fn lemma_kept_end_unique(s: Seq<char>, e: int)
    requires
        0 <= e <= s.len(),
        forall|j: int| e <= j < s.len() ==> is_space_char(s[j]),
        e > 0 ==> !is_space_char(s[e - 1]),
    ensures
        kept_end(s) == e,
{
    lemma_kept_end(s);
    if kept_end(s) < e {
        assert(is_space_char(s[e - 1]));
    }
    if kept_end(s) > e {
        assert(is_space_char(s[kept_end(s) - 1]));
    }
}

/// The string without leading and trailing whitespace, as `str::trim`
/// computes it.
pub fn trim_str(s: &str) -> (r: &str)
    ensures
        r@ == trimmed(s@),
{
    let n = s.unicode_len();
    let mut start: usize = 0;
    while start < n && is_space(s.get_char(start))
        invariant
            n == s@.len(),
            0 <= start <= n,
            forall|j: int| 0 <= j < start ==> is_space_char(s@[j]),
        decreases n - start,
    {
        start = start + 1;
    }
    proof {
        lemma_head_spaces_unique(s@, start as int);
    }
    if start == n {
        let r = s.substring_char(0, 0);
        proof {
            lemma_kept_end(s@);
            assert(r@ =~= trimmed(s@));
        }
        return r;
    }
    let mut end: usize = n;
    while end > start && is_space(s.get_char(end - 1))
        invariant
            n == s@.len(),
            start < n,
            start <= end <= n,
            forall|j: int| end <= j < n ==> is_space_char(s@[j]),
        decreases end,
    {
        end = end - 1;
    }
    proof {
        assert(!is_space_char(s@[start as int]));
        if end == start {
            assert(is_space_char(s@[start as int]));
        }
        assert(end > start);
        lemma_kept_end_unique(s@, end as int);
        assert(head_spaces(s@) == start as int);
        assert(kept_end(s@) == end as int);
        assert(trimmed(s@) == s@.subrange(start as int, end as int));
    }
    let r = s.substring_char(start, end);
    proof {
        assert(r@ =~= trimmed(s@));
    }
    r
}

/// A blank string trims to the empty string, and conversely.
pub proof fn lemma_blank_iff_trimmed_empty(s: Seq<char>)
    ensures
        is_blank(s) <==> trimmed(s).len() == 0,
{
    lemma_head_spaces(s);
    lemma_kept_end(s);
    if is_blank(s) {
        if head_spaces(s) < s.len() {
            assert(is_space_char(s[head_spaces(s) as int]));
        }
    }
}

} // verus!
