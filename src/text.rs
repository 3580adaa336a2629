//! Reading and writing the pieces of a record's text form: literal tokens and
//! quoted strings without escapes.

use vstd::prelude::*;

verus! {

/// A character that stands for itself inside a quoted string: no quote, no
/// backslash, no control character.
pub open spec fn plain_char(c: char) -> bool {
    c != '"' && c != '\\' && c as u32 >= 32
}

/// A string all of whose characters are plain.
pub open spec fn plain(t: Seq<char>) -> bool {
    forall|i: int| 0 <= i < t.len() ==> plain_char(#[trigger] t[i])
}

/// `t` between double quotes.
pub open spec fn quoted(t: Seq<char>) -> Seq<char> {
    "\""@ + t + "\""@
}

/// Whether `p` stands in `s` from position `pos` on.
pub open spec fn prefix_at(s: Seq<char>, pos: int, p: Seq<char>) -> bool {
    0 <= pos && pos + p.len() <= s.len() && s.subrange(pos, pos + p.len()) == p
}

pub proof fn lemma_prefix_split(s: Seq<char>, pos: int, a: Seq<char>, b: Seq<char>)
    ensures
        prefix_at(s, pos, a + b) <==> (prefix_at(s, pos, a) && prefix_at(s, pos + a.len(), b)),
{
    if prefix_at(s, pos, a + b) {
        assert(s.subrange(pos, pos + a.len()) =~= a) by {
            assert forall|i: int| 0 <= i < a.len() implies s.subrange(pos, pos + a.len())[i]
                == a[i] by {
                assert(s.subrange(pos, pos + (a + b).len())[i] == (a + b)[i]);
            }
        }
        assert(s.subrange(pos + a.len(), pos + a.len() + b.len()) =~= b) by {
            assert forall|i: int| 0 <= i < b.len() implies s.subrange(
                pos + a.len(),
                pos + a.len() + b.len(),
            )[i] == b[i] by {
                assert(s.subrange(pos, pos + (a + b).len())[a.len() + i] == (a + b)[a.len() + i]);
            }
        }
    }
    if prefix_at(s, pos, a) && prefix_at(s, pos + a.len(), b) {
        assert(s.subrange(pos, pos + (a + b).len()) =~= a + b) by {
            assert forall|i: int| 0 <= i < (a + b).len() implies s.subrange(
                pos,
                pos + (a + b).len(),
            )[i] == (a + b)[i] by {
                if i < a.len() {
                    assert(s.subrange(pos, pos + a.len())[i] == a[i]);
                } else {
                    assert(s.subrange(pos + a.len(), pos + a.len() + b.len())[i - a.len()] == b[i
                        - a.len()]);
                }
            }
        }
    }
}

pub proof fn lemma_prefix_char(s: Seq<char>, pos: int, p: Seq<char>, i: int)
    requires
        prefix_at(s, pos, p),
        0 <= i < p.len(),
    ensures
        s[pos + i] == p[i],
{
    assert(s.subrange(pos, pos + p.len())[i] == p[i]);
}

/// Two plain strings that both stand quoted at the same position are equal.
pub proof fn lemma_quoted_unique(s: Seq<char>, pos: int, t1: Seq<char>, t2: Seq<char>)
    requires
        plain(t1),
        plain(t2),
        prefix_at(s, pos, quoted(t1)),
        prefix_at(s, pos, quoted(t2)),
    ensures
        t1 == t2,
{
    reveal_strlit("\"");
    if t1.len() < t2.len() {
        lemma_prefix_char(s, pos, quoted(t1), t1.len() as int + 1);
        lemma_prefix_char(s, pos, quoted(t2), t1.len() as int + 1);
        assert(plain_char(t2[t1.len() as int]));
    } else if t2.len() < t1.len() {
        lemma_prefix_char(s, pos, quoted(t2), t2.len() as int + 1);
        lemma_prefix_char(s, pos, quoted(t1), t2.len() as int + 1);
        assert(plain_char(t1[t2.len() as int]));
    } else {
        assert forall|i: int| 0 <= i < t1.len() implies t1[i] == t2[i] by {
            lemma_prefix_char(s, pos, quoted(t1), i + 1);
            lemma_prefix_char(s, pos, quoted(t2), i + 1);
        }
        assert(t1 =~= t2);
    }
}

/// The position after `lit` when `lit` stands in `s` at `pos`.
pub fn eat(s: &str, n: usize, pos: usize, lit: &str) -> (r: Option<usize>)
    requires
        n == s@.len(),
        pos <= n,
    ensures
        r == (if prefix_at(s@, pos as int, lit@) {
            Some((pos + lit@.len()) as usize)
        } else {
            None::<usize>
        }),
{
    let m = lit.unicode_len();
    if m > n - pos {
        return None;
    }
    let mut i: usize = 0;
    while i < m
        invariant
            n == s@.len(),
            m == lit@.len(),
            pos + m <= n,
            i <= m,
            forall|k: int| 0 <= k < i ==> s@[pos + k] == lit@[k],
        decreases m - i,
    {
        if s.get_char(pos + i) != lit.get_char(i) {
            assert(s@.subrange(pos as int, pos + m)[i as int] != lit@[i as int]);
            return None;
        }
        i += 1;
    }
    assert(s@.subrange(pos as int, pos + m) =~= lit@);
    Some(pos + m)
}

pub fn is_plain_char(c: char) -> (r: bool)
    ensures
        r == plain_char(c),
{
    c != '"' && c != '\\' && c as u32 >= 32
}

/// Position of the quote that closes a plain string starting at `pos`.
fn text_end(s: &str, n: usize, pos: usize) -> (r: Option<usize>)
    requires
        n == s@.len(),
        pos <= n,
    ensures
        r matches Some(e) ==> pos <= e < n && s@[e as int] == '"' && plain(
            s@.subrange(pos as int, e as int),
        ),
        forall|e: int|
            pos <= e < n && s@[e] == '"' && plain(#[trigger] s@.subrange(pos as int, e)) ==> r
                == Some(e as usize),
{
    let mut i: usize = pos;
    while i < n
        invariant
            n == s@.len(),
            pos <= i <= n,
            forall|k: int| pos <= k < i ==> plain_char(#[trigger] s@[k]),
        decreases n - i,
    {
        let c = s.get_char(i);
        if c == '"' {
            assert(plain(s@.subrange(pos as int, i as int)));
            assert forall|e: int|
                pos <= e < n && s@[e] == '"' && plain(#[trigger] s@.subrange(
                    pos as int,
                    e,
                )) implies e == i by {
                if e > i {
                    assert(s@.subrange(pos as int, e)[i - pos] == s@[i as int]);
                } else if e < i {
                    assert(plain_char(s@[e]));
                }
            }
            return Some(i);
        }
        if !is_plain_char(c) {
            assert forall|e: int|
                pos <= e < n && s@[e] == '"' && plain(#[trigger] s@.subrange(
                    pos as int,
                    e,
                )) implies false by {
                if e > i {
                    assert(s@.subrange(pos as int, e)[i - pos] == s@[i as int]);
                } else if e < i {
                    assert(plain_char(s@[e]));
                }
            }
            return None;
        }
        i += 1;
    }
    assert forall|e: int|
        pos <= e < n && s@[e] == '"' && plain(#[trigger] s@.subrange(pos as int, e)) implies false by {
        assert(plain_char(s@[e]));
    }
    None
}

/// The plain string quoted at `pos`, and the position after its closing
/// quote.
pub fn read_quoted(s: &str, n: usize, pos: usize) -> (r: Option<(String, usize)>)
    requires
        n == s@.len(),
        pos <= n,
    ensures
        r matches Some((t, e)) ==> plain(t@) && prefix_at(s@, pos as int, quoted(t@)) && e == pos
            + quoted(t@).len(),
        (exists|t: Seq<char>| plain(t) && #[trigger] prefix_at(s@, pos as int, quoted(t))) ==> r is Some,
{
    proof {
        reveal_strlit("\"");
    }
    let ghost any_t = exists|t: Seq<char>| plain(t) && #[trigger] prefix_at(s@, pos as int, quoted(t));
    let ghost t0: Seq<char> = if any_t {
        choose|t: Seq<char>| plain(t) && #[trigger] prefix_at(s@, pos as int, quoted(t))
    } else {
        Seq::empty()
    };
    proof {
        if any_t {
            lemma_prefix_split(s@, pos as int, "\""@ + t0, "\""@);
            lemma_prefix_split(s@, pos as int, "\""@, t0);
        }
    }
    let start = match eat(s, n, pos, "\"") {
        Some(p) => p,
        None => return None,
    };
    proof {
        if any_t {
            lemma_prefix_char(s@, pos as int, quoted(t0), t0.len() as int + 1);
            assert(quoted(t0)[t0.len() as int + 1] == '"');
            assert(plain(s@.subrange(start as int, start + t0.len())));
        }
    }
    let end = match text_end(s, n, start) {
        Some(e) => e,
        None => return None,
    };
    let t = String::from_str(s.substring_char(start, end));
    proof {
        if any_t {
            assert(end == start + t0.len());
            assert(prefix_at(s@, end as int, "\""@));
        }
    }
    let after = match eat(s, n, end, "\"") {
        Some(p) => p,
        None => return None,
    };
    proof {
        lemma_prefix_split(s@, pos as int, "\""@, t@);
        assert(prefix_at(s@, start as int, t@));
        lemma_prefix_split(s@, pos as int, "\""@ + t@, "\""@);
    }
    Some((t, after))
}

} // verus!
