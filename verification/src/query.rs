//! Query text normalisation.
//!
//! Every query entering the core is trimmed first; a query that is blank
//! after trimming is the distinguished "cleared" value and is never sent to
//! the server.

use vstd::prelude::*;
use vstd::string::*;

verus! {

/// A character that trimming removes from the ends of a query.
pub open spec fn is_blank(c: char) -> bool {
    c == ' ' || c == '\t' || c == '\n' || c == '\r'
}

/// The text with leading and trailing blank characters removed.
pub open spec fn spec_trim(s: Seq<char>) -> Seq<char>
    decreases s.len(),
{
    if s.len() == 0 {
        s
    } else if is_blank(s[0]) {
        spec_trim(s.drop_first())
    } else if is_blank(s[s.len() - 1]) {
        spec_trim(s.drop_last())
    } else {
        s
    }
}

/// A trimmed text is unchanged by trimming again.
pub proof fn lemma_trim_idempotent(s: Seq<char>)
    ensures
        spec_trim(spec_trim(s)) == spec_trim(s),
    decreases s.len(),
{
    if s.len() == 0 {
    } else if is_blank(s[0]) {
        lemma_trim_idempotent(s.drop_first());
    } else if is_blank(s[s.len() - 1]) {
        lemma_trim_idempotent(s.drop_last());
    }
}

/// Trimming ignores a wholly blank prefix.
proof fn lemma_trim_skip_prefix(s: Seq<char>, i: int)
    requires
        0 <= i <= s.len(),
        forall|k: int| 0 <= k < i ==> is_blank(s[k]),
    ensures
        spec_trim(s) == spec_trim(s.subrange(i, s.len() as int)),
    decreases i,
{
    if i == 0 {
        assert(s.subrange(0, s.len() as int) =~= s);
    } else {
        let rest = s.drop_first();
        assert(rest =~= s.subrange(1, s.len() as int));
        lemma_trim_skip_prefix(rest, i - 1);
        assert(rest.subrange(i - 1, rest.len() as int) =~= s.subrange(i, s.len() as int));
    }
}

/// Trimming ignores a wholly blank suffix.
proof fn lemma_trim_skip_suffix(s: Seq<char>, j: int)
    requires
        0 <= j <= s.len(),
        forall|k: int| j <= k < s.len() ==> is_blank(s[k]),
    ensures
        spec_trim(s) == spec_trim(s.subrange(0, j)),
    decreases s.len(),
{
    if j == s.len() {
        assert(s.subrange(0, j) =~= s);
    } else if is_blank(s[0]) {
        let rest = s.drop_first();
        assert(rest =~= s.subrange(1, s.len() as int));
        if j == 0 {
            lemma_trim_skip_suffix(rest, 0);
            assert(rest.subrange(0, 0) =~= s.subrange(0, 0));
        } else {
            lemma_trim_skip_suffix(rest, j - 1);
            assert(rest.subrange(0, j - 1) =~= s.subrange(0, j).drop_first());
            assert(s.subrange(0, j).len() > 0 && is_blank(s.subrange(0, j)[0]));
        }
    } else {
        let head = s.drop_last();
        assert(head =~= s.subrange(0, s.len() - 1));
        lemma_trim_skip_suffix(head, j);
        assert(head.subrange(0, j) =~= s.subrange(0, j));
    }
}

/// Whether the character is a blank that trimming removes.
pub fn is_blank_char(c: char) -> (b: bool)
    ensures
        b == is_blank(c),
{
    c == ' ' || c == '\t' || c == '\n' || c == '\r'
}

/// The text with leading and trailing blanks removed, as [`spec_trim`] says.
pub fn trim_blanks(s: &str) -> (t: String)
    ensures
        t@ == spec_trim(s@),
{
    let n: usize = s.unicode_len();
    let mut i: usize = 0;
    while i < n && is_blank_char(s.get_char(i))
        invariant
            0 <= i <= n,
            n == s@.len(),
            forall|k: int| 0 <= k < i ==> is_blank(s@[k]),
        decreases n - i,
    {
        i = i + 1;
    }
    let mut j: usize = n;
    while j > i && is_blank_char(s.get_char(j - 1))
        invariant
            i <= j <= n,
            n == s@.len(),
            forall|k: int| j <= k < n ==> is_blank(s@[k]),
        decreases j,
    {
        j = j - 1;
    }
    proof {
        lemma_trim_skip_prefix(s@, i as int);
        let tail = s@.subrange(i as int, n as int);
        lemma_trim_skip_suffix(tail, j - i);
        assert(tail.subrange(0, j - i) =~= s@.subrange(i as int, j as int));
        let kept = s@.subrange(i as int, j as int);
        if i < j {
            assert(!is_blank(kept[0]));
            assert(!is_blank(kept[kept.len() - 1]));
        }
        assert(spec_trim(kept) == kept);
    }
    String::from_str(s.substring_char(i, j))
}

} // verus!
