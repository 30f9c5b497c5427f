//! Reading the configured watch-set out of its delimited form: one string,
//! label names separated by commas, surrounding whitespace ignored, empty
//! pieces dropped. `watch_list` says exactly which names a configuration
//! string denotes, and `parse_watch_list` produces them.

use vstd::prelude::*;

verus! {

/// The whitespace that is stripped from a label name's ends.
pub open spec fn is_space(c: char) -> bool {
    c == ' ' || c == '\t' || c == '\r' || c == '\n'
}

/// `s` without leading and trailing whitespace.
pub open spec fn trimmed(s: Seq<char>) -> Seq<char>
    decreases s.len(),
{
    if s.len() > 0 && is_space(s.first()) {
        trimmed(s.drop_first())
    } else if s.len() > 0 && is_space(s.last()) {
        trimmed(s.drop_last())
    } else {
        s
    }
}

/// The pieces of `s` between its commas, untrimmed: always one piece more
/// than there are commas.
pub open spec fn raw_pieces(s: Seq<char>) -> Seq<Seq<char>>
    decreases s.len(),
{
    if s.len() == 0 {
        seq![Seq::<char>::empty()]
    } else if s.last() == ',' {
        raw_pieces(s.drop_last()).push(Seq::<char>::empty())
    } else {
        let init = raw_pieces(s.drop_last());
        init.update(init.len() - 1, init.last().push(s.last()))
    }
}

proof fn lemma_raw_pieces_nonempty(s: Seq<char>)
    ensures
        raw_pieces(s).len() >= 1,
    decreases s.len(),
{
    if s.len() == 0 {
    } else {
        lemma_raw_pieces_nonempty(s.drop_last());
    }
}

/// Each piece trimmed, the empty ones dropped, order kept.
pub open spec fn clean_pieces(ps: Seq<Seq<char>>) -> Seq<Seq<char>>
    decreases ps.len(),
{
    if ps.len() == 0 {
        Seq::<Seq<char>>::empty()
    } else {
        let rest = clean_pieces(ps.drop_last());
        let t = trimmed(ps.last());
        if t.len() > 0 {
            rest.push(t)
        } else {
            rest
        }
    }
}

/// The label names a comma-delimited configuration string denotes.
pub open spec fn watch_list(s: Seq<char>) -> Seq<Seq<char>> {
    clean_pieces(raw_pieces(s))
}

/// The character sequences of a list of strings, in order.
pub open spec fn views_of(v: Seq<String>) -> Seq<Seq<char>> {
    v.map_values(|x: String| x@)
}

fn is_space_ch(c: char) -> (r: bool)
    ensures
        r == is_space(c),
{
    c == ' ' || c == '\t' || c == '\r' || c == '\n'
}

/// Appends the piece `s[start..end]`, trimmed, unless nothing of it is
/// left.
fn push_trimmed(out: &mut Vec<String>, s: &str, start: usize, end: usize)
    requires
        start <= end <= s@.len(),
    ensures
        views_of(final(out)@) == (if trimmed(s@.subrange(start as int, end as int)).len() > 0 {
            views_of(old(out)@).push(trimmed(s@.subrange(start as int, end as int)))
        } else {
            views_of(old(out)@)
        }),
{
    let ghost piece = s@.subrange(start as int, end as int);
    let mut a = start;
    let mut b = end;
    while a < b && is_space_ch(s.get_char(a))
        invariant
            start <= a <= b <= s@.len(),
            b == end,
            trimmed(s@.subrange(a as int, b as int)) == trimmed(piece),
        decreases b - a,
    {
        proof {
            assert(s@.subrange(a as int, b as int).drop_first() =~= s@.subrange(a + 1, b as int));
        }
        a += 1;
    }
    while b > a && is_space_ch(s.get_char(b - 1))
        invariant
            start <= a <= b <= s@.len(),
            b <= end,
            trimmed(s@.subrange(a as int, b as int)) == trimmed(piece),
            a < b ==> !is_space(s@[a as int]),
        decreases b - a,
    {
        proof {
            assert(s@.subrange(a as int, b as int).drop_last() =~= s@.subrange(a as int, b - 1));
        }
        b -= 1;
    }
    if a < b {
        let t = s.substring_char(a, b);
        out.push(String::from_str(t));
        proof {
            assert(trimmed(piece) == s@.subrange(a as int, b as int));
            assert(views_of(out@) =~= views_of(old(out)@).push(trimmed(piece)));
        }
    } else {
        proof {
            assert(s@.subrange(a as int, b as int) =~= Seq::<char>::empty());
            assert(trimmed(piece).len() == 0);
        }
    }
}

/// Parses the configured watch-set: the comma-separated pieces of `s`,
/// each trimmed of surrounding whitespace, the empty ones dropped.
pub fn parse_watch_list(s: &str) -> (r: Vec<String>)
    ensures
        views_of(r@) == watch_list(s@),
{
    let len = s.unicode_len();
    let mut out: Vec<String> = Vec::new();
    let mut start: usize = 0;
    let mut i: usize = 0;
    proof {
        assert(s@.subrange(0, 0) =~= Seq::<char>::empty());
        assert(views_of(out@) =~= Seq::<Seq<char>>::empty());
    }
    while i < len
        invariant
            start <= i <= len,
            len == s@.len(),
            raw_pieces(s@.subrange(0, i as int)).last() == s@.subrange(start as int, i as int),
            views_of(out@) == clean_pieces(raw_pieces(s@.subrange(0, i as int)).drop_last()),
        decreases len - i,
    {
        let c = s.get_char(i);
        proof {
            assert(s@.subrange(0, i + 1).drop_last() =~= s@.subrange(0, i as int));
            assert(s@.subrange(0, i + 1).last() == c);
            lemma_raw_pieces_nonempty(s@.subrange(0, i as int));
        }
        if c == ',' {
            push_trimmed(&mut out, s, start, i);
            proof {
                let rp = raw_pieces(s@.subrange(0, i as int));
                let rp2 = raw_pieces(s@.subrange(0, i + 1));
                assert(rp2 == rp.push(Seq::<char>::empty()));
                assert(rp2.drop_last() =~= rp);
                assert(views_of(out@) =~= clean_pieces(rp));
                assert(rp2.last() =~= s@.subrange(i + 1, i + 1));
            }
            i += 1;
            start = i;
        } else {
            proof {
                let rp = raw_pieces(s@.subrange(0, i as int));
                let rp2 = raw_pieces(s@.subrange(0, i + 1));
                assert(rp2 == rp.update(rp.len() - 1, rp.last().push(c)));
                assert(rp2.drop_last() =~= rp.drop_last());
                assert(rp2.last() =~= s@.subrange(start as int, i + 1));
            }
            i += 1;
        }
    }
    push_trimmed(&mut out, s, start, len);
    proof {
        assert(s@.subrange(0, len as int) =~= s@);
        lemma_raw_pieces_nonempty(s@);
        assert(views_of(out@) =~= watch_list(s@));
    }
    out
}

} // verus!
