//! Verified text utilities: splitting a command line on spaces and
//! substring search over image and container names.

use vstd::prelude::*;

verus! {

use vstd::string::StrSliceExecFns;
use vstd::string::StringExecFns;

/// A piece of a split command line: it holds no separator.
pub open spec fn space_free(piece: Seq<char>) -> bool {
    forall|i: int| 0 <= i < piece.len() ==> piece[i] != ' '
}

pub open spec fn all_space_free(pieces: Seq<Seq<char>>) -> bool {
    forall|i: int| 0 <= i < pieces.len() ==> space_free(#[trigger] pieces[i])
}

/// The string the pieces came from: the pieces joined by single spaces.
/// Splitting on single spaces, empty pieces kept, is the unique inverse
/// of this join over space-free pieces.
pub open spec fn join_spaces(pieces: Seq<Seq<char>>) -> Seq<char>
    decreases pieces.len(),
{
    if pieces.len() == 0 {
        Seq::empty()
    } else if pieces.len() == 1 {
        pieces[0]
    } else {
        pieces[0] + seq![' '] + join_spaces(pieces.drop_first())
    }
}

proof fn lemma_join_push(ps: Seq<Seq<char>>, p: Seq<char>)
    requires
        ps.len() >= 1,
    ensures
        join_spaces(ps.push(p)) == join_spaces(ps) + seq![' '] + p,
    decreases ps.len(),
{
    if ps.len() == 1 {
        assert(ps.push(p).drop_first() =~= seq![p]);
        assert(join_spaces(seq![p]) == p);
        assert(join_spaces(ps.push(p)) =~= join_spaces(ps) + seq![' '] + p);
    } else {
        assert(ps.push(p).drop_first() =~= ps.drop_first().push(p));
        lemma_join_push(ps.drop_first(), p);
        assert(join_spaces(ps.push(p)) =~= join_spaces(ps) + seq![' '] + p);
    }
}

proof fn lemma_join_push_concat(ps: Seq<Seq<char>>, p: Seq<char>, t: Seq<char>)
    ensures
        join_spaces(ps.push(p + t)) == join_spaces(ps.push(p)) + t,
    decreases ps.len(),
{
    if ps.len() == 0 {
        assert(join_spaces(ps.push(p + t)) == p + t);
        assert(join_spaces(ps.push(p)) == p);
    } else {
        assert(ps.push(p + t).drop_first() =~= ps.drop_first().push(p + t));
        assert(ps.push(p).drop_first() =~= ps.drop_first().push(p));
        lemma_join_push_concat(ps.drop_first(), p, t);
        assert(join_spaces(ps.push(p + t)) =~= join_spaces(ps.push(p)) + t);
    }
}

/// Splits a command line into argv on single spaces, empty pieces kept.
/// No quoting or escaping is interpreted. The result is pinned down as the
/// unique space-free piece list whose join gives the input back.
pub fn split_command(s: &str) -> (r: Vec<String>)
    ensures
        r@.len() >= 1,
        all_space_free(r.deep_view()),
        join_spaces(r.deep_view()) == s@,
{
    let n = s.unicode_len();
    let mut pieces: Vec<String> = Vec::new();
    let mut cur: String = String::new();
    let mut i: usize = 0;
    while i < n
        invariant
            i <= n,
            n == s@.len(),
            all_space_free(pieces.deep_view()),
            space_free(cur@),
            join_spaces(pieces.deep_view().push(cur@)) == s@.subrange(0, i as int),
        decreases n - i,
    {
        let c = s.get_char(i);
        proof {
            assert(s@.subrange(0, i + 1) =~= s@.subrange(0, i as int) + seq![s@[i as int]]);
        }
        if c == ' ' {
            let ghost old_pieces = pieces.deep_view();
            let ghost old_cur = cur@;
            pieces.push(cur);
            cur = String::new();
            proof {
                assert(pieces.deep_view() =~= old_pieces.push(old_cur));
                lemma_join_push(old_pieces.push(old_cur), cur@);
                assert(pieces.deep_view().push(cur@) =~= old_pieces.push(old_cur).push(cur@));
                assert(join_spaces(pieces.deep_view().push(cur@)) =~= s@.subrange(0, i + 1));
            }
        } else {
            let ghost old_cur = cur@;
            let one = s.substring_char(i, i + 1);
            cur.append(one);
            proof {
                assert(one@ =~= seq![s@[i as int]]);
                assert(cur@ == old_cur + one@);
                lemma_join_push_concat(pieces.deep_view(), old_cur, one@);
                assert(join_spaces(pieces.deep_view().push(cur@)) =~= s@.subrange(0, i + 1));
            }
        }
        i += 1;
    }
    let ghost final_pieces = pieces.deep_view().push(cur@);
    pieces.push(cur);
    proof {
        assert(pieces.deep_view() =~= final_pieces);
        assert(s@.subrange(0, n as int) =~= s@);
    }
    pieces
}

/// `needle` occurs in `hay` starting at position `i`.
pub open spec fn contains_at(hay: Seq<char>, needle: Seq<char>, i: int) -> bool {
    0 <= i && i + needle.len() <= hay.len() && hay.subrange(i, i + needle.len()) == needle
}

/// `needle` occurs somewhere in `hay`.
pub open spec fn seq_contains(hay: Seq<char>, needle: Seq<char>) -> bool {
    exists|i: int| contains_at(hay, needle, i)
}

fn matches_at(hay: &str, needle: &str, i: usize, hay_len: usize, needle_len: usize) -> (r: bool)
    requires
        hay_len == hay@.len(),
        needle_len == needle@.len(),
        i + needle_len <= hay_len,
    ensures
        r == contains_at(hay@, needle@, i as int),
{
    let mut k: usize = 0;
    while k < needle_len
        invariant
            k <= needle_len,
            hay_len == hay@.len(),
            needle_len == needle@.len(),
            i + needle_len <= hay_len,
            forall|m: int| 0 <= m < k ==> hay@[i + m] == needle@[m],
        decreases needle_len - k,
    {
        let hc = hay.get_char(i + k);
        let nc = needle.get_char(k);
        if hc != nc {
            proof {
                assert(hay@.subrange(i as int, i + needle@.len())[k as int] == hay@[i + k]);
            }
            return false;
        }
        k += 1;
    }
    proof {
        assert(hay@.subrange(i as int, i + needle@.len()) =~= needle@);
    }
    true
}

/// Whether `needle` occurs as a (contiguous) substring of `hay`.
pub fn str_contains(hay: &str, needle: &str) -> (r: bool)
    ensures
        r == seq_contains(hay@, needle@),
{
    let hay_len = hay.unicode_len();
    let needle_len = needle.unicode_len();
    if needle_len == 0 {
        proof {
            assert(hay@.subrange(0, 0) =~= needle@);
            assert(contains_at(hay@, needle@, 0));
        }
        return true;
    }
    if needle_len > hay_len {
        proof {
            assert(forall|i: int| !contains_at(hay@, needle@, i));
        }
        return false;
    }
    let mut i: usize = 0;
    while i <= hay_len - needle_len
        invariant
            1 <= needle_len <= hay_len,
            hay_len == hay@.len(),
            needle_len == needle@.len(),
            i <= hay_len - needle_len + 1,
            forall|j: int| 0 <= j < i ==> !contains_at(hay@, needle@, j),
        decreases hay_len - needle_len - i + 1,
    {
        if matches_at(hay, needle, i, hay_len, needle_len) {
            proof {
                assert(contains_at(hay@, needle@, i as int));
            }
            return true;
        }
        i += 1;
    }
    proof {
        assert(forall|j: int| contains_at(hay@, needle@, j) ==> 0 <= j <= hay@.len() - needle@.len());
        assert(forall|j: int| !contains_at(hay@, needle@, j));
    }
    false
}

} // verus!
