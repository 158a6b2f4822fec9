//! Trimming of the lines that a user typed.

use vstd::prelude::*;
use vstd::string::*;

verus! {

/// Whether `c` is white space: the characters that Unicode gives the
/// property `White_Space`.
pub open spec fn white_space(c: char) -> bool {
    ||| '\u{9}' <= c <= '\u{d}'
    ||| c == ' '
    ||| c == '\u{85}'
    ||| c == '\u{a0}'
    ||| c == '\u{1680}'
    ||| '\u{2000}' <= c <= '\u{200a}'
    ||| c == '\u{2028}'
    ||| c == '\u{2029}'
    ||| c == '\u{202f}'
    ||| c == '\u{205f}'
    ||| c == '\u{3000}'
}

/// Whether `c` is white space.
pub fn is_white_space(c: char) -> (r: bool)
    ensures
        r == white_space(c),
{
    ('\u{9}' <= c && c <= '\u{d}') || c == ' ' || c == '\u{85}' || c == '\u{a0}' || c
        == '\u{1680}' || ('\u{2000}' <= c && c <= '\u{200a}') || c == '\u{2028}' || c
        == '\u{2029}' || c == '\u{202f}' || c == '\u{205f}' || c == '\u{3000}'
}

/// `s` without the white space it begins with.
pub open spec fn strip_front(s: Seq<char>) -> Seq<char>
    decreases s.len(),
{
    if s.len() > 0 && white_space(s[0]) {
        strip_front(s.subrange(1, s.len() as int))
    } else {
        s
    }
}

/// `s` without the white space it ends with.
pub open spec fn strip_back(s: Seq<char>) -> Seq<char>
    decreases s.len(),
{
    if s.len() > 0 && white_space(s.last()) {
        strip_back(s.drop_last())
    } else {
        s
    }
}

/// `s` without the white space at either end.
pub open spec fn trimmed(s: Seq<char>) -> Seq<char> {
    strip_back(strip_front(s))
}

/// Whether `s` from `i` up to `j` is `s` cut back to its first and last
/// character that is no white space: all before `i` and all from `j` on is
/// white space, and the stretch, if it holds anything, begins and ends with
/// a character that is none.
pub open spec fn trims_to(s: Seq<char>, i: int, j: int) -> bool {
    &&& 0 <= i <= j <= s.len()
    &&& forall|k: int| 0 <= k < i ==> white_space(#[trigger] s[k])
    &&& forall|k: int| j <= k < s.len() ==> white_space(#[trigger] s[k])
    &&& i < j ==> !white_space(s[i]) && !white_space(s[j - 1])
}

/// Whether `s` neither begins nor ends with white space.
pub open spec fn is_trim(s: Seq<char>) -> bool {
    s.len() > 0 ==> !white_space(s.first()) && !white_space(s.last())
}

proof fn lemma_strip_front(s: Seq<char>)
    ensures
        strip_front(s).len() <= s.len(),
        strip_front(s) == s.subrange(s.len() - strip_front(s).len(), s.len() as int),
        strip_front(s).len() > 0 ==> !white_space(strip_front(s).first()),
        forall|k: int| 0 <= k < s.len() - strip_front(s).len() ==> white_space(#[trigger] s[k]),
    decreases s.len(),
{
    if s.len() > 0 && white_space(s[0]) {
        let t = s.subrange(1, s.len() as int);
        lemma_strip_front(t);
        let r = strip_front(t);
        assert(r =~= s.subrange(s.len() - r.len(), s.len() as int));
        assert forall|k: int| 0 <= k < s.len() - r.len() implies white_space(#[trigger] s[k]) by {
            if k > 0 {
                assert(s[k] == t[k - 1]);
            }
        }
    } else {
        assert(s =~= s.subrange(0, s.len() as int));
    }
}

proof fn lemma_strip_back(s: Seq<char>)
    ensures
        strip_back(s).len() <= s.len(),
        strip_back(s) == s.subrange(0, strip_back(s).len() as int),
        strip_back(s).len() > 0 ==> !white_space(strip_back(s).last()),
        forall|k: int| strip_back(s).len() <= k < s.len() ==> white_space(#[trigger] s[k]),
    decreases s.len(),
{
    if s.len() > 0 && white_space(s.last()) {
        let t = s.drop_last();
        lemma_strip_back(t);
        let r = strip_back(t);
        assert(r =~= s.subrange(0, r.len() as int));
        assert forall|k: int| r.len() <= k < s.len() implies white_space(#[trigger] s[k]) by {
            if k < s.len() - 1 {
                assert(s[k] == t[k]);
            }
        }
    } else {
        assert(s =~= s.subrange(0, s.len() as int));
    }
}

/// Trimming cuts a text back to its first and last character that is no
/// white space: the result is one stretch of the text, nothing but white
/// space is left out, and no white space is left at either end.
pub proof fn trimmed_is_the_inner_stretch(s: Seq<char>)
    ensures
        exists|i: int, j: int| #[trigger] trims_to(s, i, j) && trimmed(s) == s.subrange(i, j),
        is_trim(trimmed(s)),
{
    let f = strip_front(s);
    lemma_strip_front(s);
    lemma_strip_back(f);
    let t = strip_back(f);
    let i = s.len() - f.len();
    let j = i + t.len();
    assert(t =~= s.subrange(i, j));
    assert forall|k: int| j <= k < s.len() implies white_space(#[trigger] s[k]) by {
        assert(s[k] == f[k - i]);
    }
    if i < j {
        assert(t.first() == f.first());
        assert(s[i] == f.first());
        assert(s[j - 1] == t.last());
    }
    assert(trims_to(s, i, j));
}

/// A text that neither begins nor ends with white space is its own trim.
pub proof fn trimmed_keeps_a_trim(s: Seq<char>)
    requires
        is_trim(s),
    ensures
        trimmed(s) == s,
{
}

/// Trimming what was trimmed changes nothing.
pub proof fn trimmed_twice(s: Seq<char>)
    ensures
        trimmed(trimmed(s)) == trimmed(s),
{
    trimmed_is_the_inner_stretch(s);
    trimmed_keeps_a_trim(trimmed(s));
}

/// The text of `s` between its leading and its trailing white space.
pub fn trim(s: &str) -> (r: String)
    ensures
        r@ == trimmed(s@),
{
    let n: usize = s.unicode_len();
    let mut i: usize = 0;
    let mut more: bool = true;
    proof {
        assert(s@.subrange(0, n as int) =~= s@);
    }
    while more
        invariant
            n == s@.len(),
            i <= n,
            strip_front(s@) == strip_front(s@.subrange(i as int, n as int)),
            !more ==> i == n || !white_space(s@[i as int]),
        decreases n - i + (if more { 1int } else { 0int }),
    {
        if i < n && is_white_space(s.get_char(i)) {
            proof {
                let t = s@.subrange(i as int, n as int);
                assert(t[0] == s@[i as int]);
                assert(t.subrange(1, t.len() as int) =~= s@.subrange(i + 1, n as int));
            }
            i = i + 1;
        } else {
            more = false;
        }
    }
    let mut j: usize = n;
    more = true;
    while more
        invariant
            n == s@.len(),
            i <= j <= n,
            strip_back(s@.subrange(i as int, n as int)) == strip_back(
                s@.subrange(i as int, j as int),
            ),
            !more ==> j == i || !white_space(s@[j - 1]),
        decreases j - i + (if more { 1int } else { 0int }),
    {
        if i < j && is_white_space(s.get_char(j - 1)) {
            proof {
                let t = s@.subrange(i as int, j as int);
                assert(t.last() == s@[j - 1]);
                assert(t.drop_last() =~= s@.subrange(i as int, j - 1));
            }
            j = j - 1;
        } else {
            more = false;
        }
    }
    proof {
        let t = s@.subrange(i as int, n as int);
        assert(i < n ==> t[0] == s@[i as int]);
        assert(strip_front(t) == t);
        let u = s@.subrange(i as int, j as int);
        assert(i < j ==> u.last() == s@[j - 1]);
        assert(strip_back(u) == u);
    }
    s.substring_char(i, j).to_owned()
}

} // verus!
