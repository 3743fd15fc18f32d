//! Literal search in text: splitting on every occurrence of a pattern and
//! replacing every occurrence, leftmost first and without overlap.

use vstd::prelude::*;

verus! {

/// The characters of each string, in order.
pub open spec fn strings_view(v: Seq<String>) -> Seq<Seq<char>> {
    v.map_values(|x: String| x@)
}

/// The pieces of `s[start..]` between the occurrences of `p`, where the
/// search for the next occurrence goes on at `i` and the current piece began
/// at `start`. An occurrence ends the current piece; the next piece begins
/// right after it. An empty pattern occurs at every position, once.
pub open spec fn pieces_from(s: Seq<char>, p: Seq<char>, start: int, i: int) -> Seq<Seq<char>>
    decreases s.len() + 1 - i,
{
    if i < 0 || i + p.len() > s.len() {
        seq![s.subrange(start, s.len() as int)]
    } else if s.subrange(i, i + p.len()) == p {
        seq![s.subrange(start, i)] + pieces_from(
            s,
            p,
            i + p.len(),
            if p.len() == 0 {
                i + 1
            } else {
                i + p.len()
            },
        )
    } else {
        pieces_from(s, p, start, i + 1)
    }
}

/// The pieces of `s` between the leftmost non-overlapping occurrences of `p`:
/// one more piece than there are occurrences.
pub open spec fn pieces(s: Seq<char>, p: Seq<char>) -> Seq<Seq<char>> {
    pieces_from(s, p, 0, 0)
}

/// The texts of `ps` with `sep` between each two neighbours.
pub open spec fn join(ps: Seq<Seq<char>>, sep: Seq<char>) -> Seq<char>
    decreases ps.len(),
{
    if ps.len() == 0 {
        Seq::empty()
    } else if ps.len() == 1 {
        ps[0]
    } else {
        join(ps.drop_last(), sep) + sep + ps.last()
    }
}

/// `s` with every leftmost non-overlapping occurrence of `f` replaced by `t`.
pub open spec fn replace_all(s: Seq<char>, f: Seq<char>, t: Seq<char>) -> Seq<char> {
    join(pieces(s, f), t)
}

/// Joining a first text to the rest puts the separator between them.
pub proof fn lemma_join_front(a: Seq<char>, rest: Seq<Seq<char>>, sep: Seq<char>)
    requires
        rest.len() >= 1,
    ensures
        join(seq![a] + rest, sep) == a + sep + join(rest, sep),
    decreases rest.len(),
{
    let all = seq![a] + rest;
    if rest.len() == 1 {
        assert(all.drop_last() =~= seq![a]);
        assert(all.last() == rest[0]);
        assert(join(seq![a], sep) == a);
        assert(join(rest, sep) == rest[0]);
        assert(join(all, sep) == join(all.drop_last(), sep) + sep + all.last());
    } else {
        assert(all.drop_last() =~= seq![a] + rest.drop_last());
        lemma_join_front(a, rest.drop_last(), sep);
        assert(all.last() == rest.last());
        assert(join(all, sep) == join(all.drop_last(), sep) + sep + all.last());
        assert(join(rest, sep) == join(rest.drop_last(), sep) + sep + rest.last());
        assert(join(all, sep) =~= a + sep + join(rest, sep));
    }
}

/// There is always at least one piece.
pub proof fn lemma_pieces_from_nonempty(s: Seq<char>, p: Seq<char>, start: int, i: int)
    ensures
        pieces_from(s, p, start, i).len() >= 1,
    decreases s.len() + 1 - i,
{
    if i < 0 || i + p.len() > s.len() {
    } else if s.subrange(i, i + p.len()) == p {
        lemma_pieces_from_nonempty(
            s,
            p,
            i + p.len(),
            if p.len() == 0 {
                i + 1
            } else {
                i + p.len()
            },
        );
    } else {
        lemma_pieces_from_nonempty(s, p, start, i + 1);
    }
}

/// Putting the pattern back between the pieces gives the text again.
pub proof fn lemma_join_pieces_from(s: Seq<char>, p: Seq<char>, start: int, i: int)
    requires
        0 <= start <= i,
        start <= s.len(),
    ensures
        join(pieces_from(s, p, start, i), p) == s.subrange(start, s.len() as int),
    decreases s.len() + 1 - i,
{
    if i < 0 || i + p.len() > s.len() {
    } else if s.subrange(i, i + p.len()) == p {
        let next = if p.len() == 0 {
            i + 1
        } else {
            i + p.len()
        };
        let rest = pieces_from(s, p, i + p.len(), next);
        lemma_join_pieces_from(s, p, i + p.len(), next);
        lemma_pieces_from_nonempty(s, p, i + p.len(), next);
        lemma_join_front(s.subrange(start, i), rest, p);
        assert(s.subrange(start, s.len() as int) =~= s.subrange(start, i) + p + s.subrange(
            i + p.len(),
            s.len() as int,
        ));
    } else {
        lemma_join_pieces_from(s, p, start, i + 1);
    }
}

/// Splitting a text on a pattern and joining the pieces with that pattern
/// gives the text back.
pub proof fn lemma_join_pieces(s: Seq<char>, p: Seq<char>)
    ensures
        join(pieces(s, p), p) == s,
        replace_all(s, p, p) == s,
{
    lemma_join_pieces_from(s, p, 0, 0);
    assert(s.subrange(0, s.len() as int) =~= s);
}

/// The characters of `s`, one element each.
pub fn chars_of(s: &str) -> (r: Vec<char>)
    ensures
        r@ == s@,
{
    let mut v: Vec<char> = Vec::new();
    for c in it: s.chars()
        invariant
            v@ == it.seq().take(it.index() as int),
    {
        v.push(c);
        assert(v@ =~= it.seq().take(it.index() as int + 1));
    }
    assert(v@ =~= s@);
    v
}

/// Whether `p` occurs in `s` at position `i`.
fn occurs_at(s: &Vec<char>, p: &Vec<char>, i: usize) -> (r: bool)
    requires
        i + p@.len() <= s@.len(),
    ensures
        r == (s@.subrange(i as int, i + p@.len()) == p@),
{
    let sl = s.len();
    let mut k: usize = 0;
    while k < p.len()
        invariant
            sl == s@.len(),
            k <= p@.len(),
            i + p@.len() <= s@.len(),
            s@.subrange(i as int, i + k) == p@.take(k as int),
        decreases p@.len() - k,
    {
        assert(i + k < s@.len());
        if s[i + k] != p[k] {
            assert(s@.subrange(i as int, i + p@.len())[k as int] != p@[k as int]);
            return false;
        }
        assert(s@.subrange(i as int, i + k + 1) =~= p@.take(k + 1));
        k = k + 1;
    }
    assert(p@.take(k as int) =~= p@);
    true
}

/// The pieces of `s` between the leftmost non-overlapping occurrences of `p`,
/// as `str::split` gives them.
pub fn split_literal(s: &str, p: &str) -> (r: Vec<String>)
    ensures
        strings_view(r@) == pieces(s@, p@),
        r@.len() >= 1,
{
    let sc = chars_of(s);
    let pc = chars_of(p);
    let n = sc.len();
    let m = pc.len();
    let ghost whole = pieces(s@, p@);
    let mut out: Vec<String> = Vec::new();
    let mut start: usize = 0;
    let mut i: usize = 0;
    let mut searching = true;
    while searching
        invariant
            sc@ == s@,
            pc@ == p@,
            n == s@.len(),
            m == p@.len(),
            whole == pieces(s@, p@),
            start <= i <= n,
            searching ==> strings_view(out@) + pieces_from(s@, p@, start as int, i as int)
                == whole,
            !searching ==> strings_view(out@).push(s@.subrange(start as int, n as int))
                == whole,
        decreases n - i + (if searching {
            1int
        } else {
            0int
        }),
    {
        if m <= n - i {
            if occurs_at(&sc, &pc, i) {
                let piece = s.substring_char(start, i).to_string();
                proof {
                    let rest = pieces_from(
                        s@,
                        p@,
                        i + m,
                        if m == 0 {
                            i + 1
                        } else {
                            i + m
                        },
                    );
                    assert(strings_view(out@.push(piece)) =~= strings_view(out@).push(piece@));
                    assert(strings_view(out@) + pieces_from(s@, p@, start as int, i as int)
                        =~= strings_view(out@).push(piece@) + rest);
                }
                out.push(piece);
                start = i + m;
                if m == 0 {
                    if i == n {
                        searching = false;
                        proof {
                            assert(pieces_from(s@, p@, start as int, i + 1) == seq![
                                s@.subrange(start as int, n as int),
                            ]);
                            assert(strings_view(out@) + seq![s@.subrange(start as int, n as int)]
                                =~= strings_view(out@).push(s@.subrange(start as int, n as int)));
                        }
                    } else {
                        i = i + 1;
                    }
                } else {
                    i = i + m;
                }
            } else {
                assert(m > 0) by {
                    if m == 0 {
                        assert(s@.subrange(i as int, i as int) =~= p@);
                    }
                };
                i = i + 1;
            }
        } else {
            searching = false;
            assert(strings_view(out@) + seq![s@.subrange(start as int, n as int)]
                =~= strings_view(out@).push(s@.subrange(start as int, n as int)));
        }
    }
    let last = s.substring_char(start, n).to_string();
    out.push(last);
    assert(strings_view(out@) =~= whole);
    out
}

/// The texts of `parts` with `sep` between each two neighbours.
pub fn join_with(parts: &Vec<String>, sep: &str) -> (r: String)
    ensures
        r@ == join(strings_view(parts@), sep@),
{
    let mut acc = String::new();
    let mut k: usize = 0;
    while k < parts.len()
        invariant
            k <= parts@.len(),
            acc@ == join(strings_view(parts@).take(k as int), sep@),
        decreases parts@.len() - k,
    {
        let ghost before = strings_view(parts@).take(k as int);
        let ghost after = strings_view(parts@).take(k + 1);
        assert(after.drop_last() =~= before);
        if k > 0 {
            acc.append(sep);
        }
        acc.append(parts[k].as_str());
        proof {
            if k == 0 {
                assert(acc@ =~= after[0]);
            } else {
                assert(acc@ =~= join(before, sep@) + sep@ + after.last());
            }
        }
        k = k + 1;
    }
    assert(strings_view(parts@).take(k as int) =~= strings_view(parts@));
    acc
}

/// `s` with every leftmost non-overlapping occurrence of `f` replaced by `t`,
/// as `str::replace` does it.
pub fn replace_literal(s: &str, f: &str, t: &str) -> (r: String)
    ensures
        r@ == replace_all(s@, f@, t@),
{
    let parts = split_literal(s, f);
    join_with(&parts, t)
}

} // verus!
