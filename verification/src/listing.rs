//! Reading the process ids out of a process listing (one id per line).
use vstd::prelude::*;
use crate::text::{chars_of, lines, lines_from, parse_u32, parse_u32_range, strip_cr, trim, trim_bounds};

verus! {

/// The process id that one line of a listing names, if it names one.
pub open spec fn line_pid(l: Seq<char>) -> Option<u32> {
    parse_u32(trim(l))
}

/// `acc` after reading line `l`: the id it names is added unless already there.
pub open spec fn add_line_pid(acc: Seq<u32>, l: Seq<char>) -> Seq<u32> {
    match line_pid(l) {
        Some(p) => if acc.contains(p) {
            acc
        } else {
            acc.push(p)
        },
        None => acc,
    }
}

/// `acc` after reading the lines `ls` in order.
pub open spec fn collect_pids(acc: Seq<u32>, ls: Seq<Seq<char>>) -> Seq<u32>
    decreases ls.len(),
{
    if ls.len() == 0 {
        acc
    } else {
        collect_pids(add_line_pid(acc, ls[0]), ls.drop_first())
    }
}

/// The distinct process ids named by the lines of `out`, in order of first
/// appearance.
pub open spec fn listed_pids(out: Seq<char>) -> Seq<u32> {
    collect_pids(seq![], lines(out))
}

pub open spec fn distinct(s: Seq<u32>) -> bool {
    forall|i: int, j: int| 0 <= i < j < s.len() ==> s[i] != s[j]
}

fn contains_pid(v: &Vec<u32>, p: u32) -> (r: bool)
    ensures
        r == v@.contains(p),
{
    let mut i: usize = 0;
    while i < v.len()
        invariant
            i <= v@.len(),
            forall|j: int| 0 <= j < i ==> v@[j] != p,
        decreases v@.len() - i,
    {
        if v[i] == p {
            assert(v@[i as int] == p);
            return true;
        }
        i = i + 1;
    }
    false
}

fn add_line(pids: &mut Vec<u32>, v: &Vec<char>, lo: usize, hi: usize)
    requires
        lo <= hi <= v@.len(),
    ensures
        final(pids)@ == add_line_pid(old(pids)@, v@.subrange(lo as int, hi as int)),
{
    let (a, b) = trim_bounds(v, lo, hi);
    match parse_u32_range(v, a, b) {
        Some(p) => {
            if !contains_pid(pids, p) {
                pids.push(p);
            }
        },
        None => {},
    }
}

proof fn lemma_collect_cons(acc: Seq<u32>, x: Seq<char>, rest: Seq<Seq<char>>)
    ensures
        collect_pids(acc, seq![x] + rest) == collect_pids(add_line_pid(acc, x), rest),
{
    let ls = seq![x] + rest;
    assert(ls[0] == x);
    assert(ls.drop_first() =~= rest);
}

/// The process ids in a listing such as `pgrep` prints: each line is trimmed
/// and read as a `u32`; lines that do not read so are skipped, and an id that
/// appeared before is not taken again.
pub fn parse_pid_listing(out: &str) -> (pids: Vec<u32>)
    ensures
        pids@ == listed_pids(out@),
        distinct(pids@),
        forall|p: u32|
            pids@.contains(p) <==> exists|k: int|
                0 <= k < lines(out@).len() && #[trigger] line_pid(lines(out@)[k]) == Some(p),
{
    let v = chars_of(out);
    let mut pids: Vec<u32> = Vec::new();
    let mut start: usize = 0;
    let mut i: usize = 0;
    assert(v@.skip(0) =~= v@);
    assert(v@.subrange(0, 0) =~= Seq::<char>::empty());
    while i < v.len()
        invariant
            v@ == out@,
            start <= i <= v@.len(),
            collect_pids(pids@, lines_from(v@.subrange(start as int, i as int), v@.skip(i as int)))
                == listed_pids(out@),
        decreases v@.len() - i,
    {
        let ghost cur = v@.subrange(start as int, i as int);
        let ghost rest = v@.skip(i as int);
        assert(rest[0] == v@[i as int]);
        assert(rest.drop_first() =~= v@.skip(i + 1));
        if v[i] == '\n' {
            let end = if i > start && v[i - 1] == '\r' {
                i - 1
            } else {
                i
            };
            assert(strip_cr(cur) =~= v@.subrange(start as int, end as int));
            let ghost old_pids = pids@;
            add_line(&mut pids, &v, start, end);
            proof {
                lemma_collect_cons(
                    old_pids,
                    strip_cr(cur),
                    lines_from(seq![], v@.skip(i + 1)),
                );
                assert(v@.subrange(i + 1, i + 1) =~= Seq::<char>::empty());
            }
            start = i + 1;
        } else {
            assert(cur.push(v@[i as int]) =~= v@.subrange(start as int, i + 1));
        }
        i = i + 1;
    }
    let ghost cur = v@.subrange(start as int, i as int);
    assert(v@.skip(i as int) =~= Seq::<char>::empty());
    if i > start {
        let ghost old_pids = pids@;
        add_line(&mut pids, &v, start, i);
        proof {
            lemma_collect_cons(old_pids, cur, seq![]);
            assert(seq![cur] + Seq::<Seq<char>>::empty() =~= seq![cur]);
        }
    }
    proof {
        lemma_collect_distinct(seq![], lines(out@));
        assert forall|p: u32|
            pids@.contains(p) <==> exists|k: int|
                0 <= k < lines(out@).len() && #[trigger] line_pid(lines(out@)[k]) == Some(
                    p,
                ) by {
            lemma_collect_contains(seq![], lines(out@), p);
        }
    }
    pids
}

proof fn lemma_collect_distinct(acc: Seq<u32>, ls: Seq<Seq<char>>)
    requires
        distinct(acc),
    ensures
        distinct(collect_pids(acc, ls)),
    decreases ls.len(),
{
    if ls.len() > 0 {
        let next = add_line_pid(acc, ls[0]);
        assert(distinct(next)) by {
            match line_pid(ls[0]) {
                Some(p) => {
                    if !acc.contains(p) {
                        assert forall|i: int, j: int| 0 <= i < j < next.len() implies next[i]
                            != next[j] by {
                            if j == acc.len() {
                                assert(next[i] == acc[i]);
                                assert(next[j] == p);
                            }
                        }
                    }
                },
                None => {},
            }
        }
        lemma_collect_distinct(next, ls.drop_first());
    }
}

proof fn lemma_collect_contains(acc: Seq<u32>, ls: Seq<Seq<char>>, p: u32)
    ensures
        collect_pids(acc, ls).contains(p) <==> (acc.contains(p) || exists|k: int|
            0 <= k < ls.len() && #[trigger] line_pid(ls[k]) == Some(p)),
    decreases ls.len(),
{
    if ls.len() > 0 {
        let next = add_line_pid(acc, ls[0]);
        let rest = ls.drop_first();
        lemma_collect_contains(next, rest, p);
        assert(next.contains(p) <==> (acc.contains(p) || line_pid(ls[0]) == Some(p))) by {
            match line_pid(ls[0]) {
                Some(q) => {
                    if !acc.contains(q) {
                        if next.contains(p) && !acc.contains(p) {
                            let w = choose|w: int| 0 <= w < next.len() && next[w] == p;
                            if w < acc.len() {
                                assert(acc[w] == next[w]);
                            }
                        }
                        if acc.contains(p) {
                            let w = choose|w: int| 0 <= w < acc.len() && acc[w] == p;
                            assert(next[w] == acc[w]);
                        }
                        if q == p {
                            assert(next[acc.len() as int] == p);
                        }
                    }
                },
                None => {},
            }
        }
        if exists|k: int| 0 <= k < ls.len() && #[trigger] line_pid(ls[k]) == Some(p) {
            let k = choose|k: int| 0 <= k < ls.len() && #[trigger] line_pid(ls[k]) == Some(p);
            if k > 0 {
                assert(rest[k - 1] == ls[k]);
            }
        }
        if exists|k: int| 0 <= k < rest.len() && #[trigger] line_pid(rest[k]) == Some(p) {
            let k = choose|k: int| 0 <= k < rest.len() && #[trigger] line_pid(rest[k]) == Some(p);
            assert(ls[k + 1] == rest[k]);
        }
    }
}

} // verus!
