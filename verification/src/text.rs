//! Character-level helpers shared by the components: string comparison and
//! the quote-stripping applied to verification-code payloads.

use vstd::prelude::*;

verus! {

/// True when the two string slices hold the same characters.
pub fn str_eq(a: &str, b: &str) -> (r: bool)
    ensures
        r == (a@ == b@),
{
    let a_len = a.unicode_len();
    let b_len = b.unicode_len();
    if a_len != b_len {
        return false;
    }
    let mut i: usize = 0;
    while i < a_len
        invariant
            i <= a_len,
            a_len == a@.len(),
            b_len == b@.len(),
            a_len == b_len,
            forall|j: int| 0 <= j < i ==> a@[j] == b@[j],
        decreases a_len - i,
    {
        if a.get_char(i) != b.get_char(i) {
            return false;
        }
        i += 1;
    }
    proof {
        assert(a@ =~= b@);
    }
    true
}

/// The sequence with every leading `'"'` removed.
pub open spec fn trim_leading_quotes(s: Seq<char>) -> Seq<char>
    decreases s.len(),
{
    if s.len() > 0 && s[0] == '"' {
        trim_leading_quotes(s.subrange(1, s.len() as int))
    } else {
        s
    }
}

/// The sequence with every trailing `'"'` removed.
pub open spec fn trim_trailing_quotes(s: Seq<char>) -> Seq<char>
    decreases s.len(),
{
    if s.len() > 0 && s[s.len() - 1] == '"' {
        trim_trailing_quotes(s.subrange(0, s.len() - 1))
    } else {
        s
    }
}

/// A payload with its surrounding quote characters (an encoding artifact)
/// stripped from both ends.
pub open spec fn spec_unquote(s: Seq<char>) -> Seq<char> {
    trim_trailing_quotes(trim_leading_quotes(s))
}

proof fn lemma_trim_leading_unfold(s: Seq<char>, lo: int, len: int)
    requires
        0 <= lo < len <= s.len(),
        s[lo] == '"',
    ensures
        trim_leading_quotes(s.subrange(lo, len)) == trim_leading_quotes(s.subrange(lo + 1, len)),
{
    let sub = s.subrange(lo, len);
    assert(sub[0] == '"');
    assert(sub.subrange(1, sub.len() as int) =~= s.subrange(lo + 1, len));
}

proof fn lemma_trim_trailing_unfold(s: Seq<char>, lo: int, hi: int)
    requires
        0 <= lo < hi <= s.len(),
        s[hi - 1] == '"',
    ensures
        trim_trailing_quotes(s.subrange(lo, hi)) == trim_trailing_quotes(s.subrange(lo, hi - 1)),
{
    let sub = s.subrange(lo, hi);
    assert(sub[sub.len() - 1] == '"');
    assert(sub.subrange(0, sub.len() - 1) =~= s.subrange(lo, hi - 1));
}

/// Strips every quote character from both ends of the payload, the
/// normalization applied to an inbound verification-code payload.
pub fn unquote(s: &str) -> (r: String)
    ensures
        r@ == spec_unquote(s@),
{
    let len = s.unicode_len();
    proof {
        assert(s@.subrange(0, len as int) =~= s@);
    }
    let mut lo: usize = 0;
    while lo < len && s.get_char(lo) == '"'
        invariant
            lo <= len,
            len == s@.len(),
            trim_leading_quotes(s@.subrange(lo as int, len as int)) == trim_leading_quotes(s@),
        decreases len - lo,
    {
        proof {
            lemma_trim_leading_unfold(s@, lo as int, len as int);
        }
        lo += 1;
    }
    proof {
        // The remaining range starts with a non-quote (or is empty), so the
        // leading trim leaves it as it stands.
        assert(trim_leading_quotes(s@.subrange(lo as int, len as int)) == s@.subrange(
            lo as int,
            len as int,
        ));
    }
    let mut hi: usize = len;
    while hi > lo && s.get_char(hi - 1) == '"'
        invariant
            lo <= hi <= len,
            len == s@.len(),
            trim_leading_quotes(s@) == s@.subrange(lo as int, len as int),
            trim_trailing_quotes(s@.subrange(lo as int, hi as int)) == trim_trailing_quotes(
                s@.subrange(lo as int, len as int),
            ),
        decreases hi,
    {
        proof {
            lemma_trim_trailing_unfold(s@, lo as int, hi as int);
        }
        hi -= 1;
    }
    proof {
        assert(trim_trailing_quotes(s@.subrange(lo as int, hi as int)) == s@.subrange(
            lo as int,
            hi as int,
        ));
    }
    let trimmed = s.substring_char(lo, hi);
    trimmed.to_owned()
}

} // verus!
