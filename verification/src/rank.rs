//! Ranking of findings: a report lists findings by severity descending and,
//! within one severity, by line ascending; findings that tie on both keys
//! keep their pre-sort order (the sort is stable).

use vstd::prelude::*;

use crate::model::{severity_rank_spec, VulnView, Vulnerability};

verus! {

/// `a` may stand at or before `b` in a ranked report: `a` has the greater
/// severity, or the same severity and a line no greater.
pub open spec fn vuln_le(a: VulnView, b: VulnView) -> bool {
    ||| severity_rank_spec(a.severity) > severity_rank_spec(b.severity)
    ||| (severity_rank_spec(a.severity) == severity_rank_spec(b.severity) && a.line <= b.line)
}

/// The ranking order holds of every pair of the sequence.
pub open spec fn ranked(s: Seq<VulnView>) -> bool {
    forall|i: int, j: int| 0 <= i < j < s.len() ==> vuln_le(#[trigger] s[i], #[trigger] s[j])
}

/// Insert `v` behind every element that may stand at or before it: the
/// insertion step of a stable insertion sort.
pub open spec fn insert_ranked(v: VulnView, s: Seq<VulnView>) -> Seq<VulnView>
    decreases s.len(),
{
    if s.len() == 0 {
        seq![v]
    } else if vuln_le(s[0], v) {
        seq![s[0]] + insert_ranked(v, s.drop_first())
    } else {
        seq![v] + s
    }
}

/// Stable insertion sort by the ranking order.
pub open spec fn rank_sorted(s: Seq<VulnView>) -> Seq<VulnView>
    decreases s.len(),
{
    if s.len() == 0 {
        Seq::empty()
    } else {
        insert_ranked(s.last(), rank_sorted(s.drop_last()))
    }
}

/// The ranking order is total.
pub proof fn lemma_vuln_le_total(a: VulnView, b: VulnView)
    ensures
        vuln_le(a, b) || vuln_le(b, a),
{
}

/// Every element of an insertion is the inserted element or one of the old
/// ones.
pub proof fn lemma_insert_ranked_elems(v: VulnView, s: Seq<VulnView>)
    ensures
        insert_ranked(v, s).len() == s.len() + 1,
        forall|i: int|
            0 <= i < insert_ranked(v, s).len() ==> (#[trigger] insert_ranked(v, s)[i] == v
                || exists|j: int| 0 <= j < s.len() && s[j] == insert_ranked(v, s)[i]),
    decreases s.len(),
{
    if s.len() == 0 {
    } else if vuln_le(s[0], v) {
        lemma_insert_ranked_elems(v, s.drop_first());
        let r = insert_ranked(v, s);
        let rr = insert_ranked(v, s.drop_first());
        assert forall|i: int| 0 <= i < r.len() implies (#[trigger] r[i] == v
            || exists|j: int| 0 <= j < s.len() && s[j] == r[i]) by {
            if i == 0 {
                assert(s[0] == r[0]);
            } else {
                assert(r[i] == rr[i - 1]);
                if rr[i - 1] != v {
                    let e = rr[i - 1];
                    let j = choose|j: int| 0 <= j < s.drop_first().len() && s.drop_first()[j] == e;
                    assert(s[j + 1] == e);
                }
            }
        }
    }
}

/// Insertion keeps the sequence ranked.
pub proof fn lemma_insert_ranked_sorted(v: VulnView, s: Seq<VulnView>)
    requires
        ranked(s),
    ensures
        ranked(insert_ranked(v, s)),
    decreases s.len(),
{
    if s.len() == 0 {
    } else if vuln_le(s[0], v) {
        assert(ranked(s.drop_first()));
        lemma_insert_ranked_sorted(v, s.drop_first());
        lemma_insert_ranked_elems(v, s.drop_first());
        let r = insert_ranked(v, s);
        let rr = insert_ranked(v, s.drop_first());
        assert forall|i: int, j: int| 0 <= i < j < r.len() implies vuln_le(
            #[trigger] r[i],
            #[trigger] r[j],
        ) by {
            if i == 0 {
                assert(r[0] == s[0]);
                assert(r[j] == rr[j - 1]);
                if rr[j - 1] == v {
                } else {
                    let k = choose|k: int|
                        0 <= k < s.drop_first().len() && s.drop_first()[k] == rr[j - 1];
                    assert(s[k + 1] == rr[j - 1]);
                    assert(vuln_le(s[0], s[k + 1]));
                }
            } else {
                assert(r[i] == rr[i - 1]);
                assert(r[j] == rr[j - 1]);
            }
        }
    } else {
        lemma_vuln_le_total(v, s[0]);
        let r = insert_ranked(v, s);
        assert forall|i: int, j: int| 0 <= i < j < r.len() implies vuln_le(
            #[trigger] r[i],
            #[trigger] r[j],
        ) by {
            if i == 0 {
                if j >= 1 {
                    assert(r[j] == s[j - 1]);
                    if j - 1 > 0 {
                        assert(vuln_le(s[0], s[j - 1]));
                    }
                }
            } else {
                assert(r[i] == s[i - 1]);
                assert(r[j] == s[j - 1]);
            }
        }
    }
}

/// A sort by the ranking order leaves the sequence ranked.
pub proof fn lemma_rank_sorted_sorted(s: Seq<VulnView>)
    ensures
        ranked(rank_sorted(s)),
    decreases s.len(),
{
    if s.len() > 0 {
        lemma_rank_sorted_sorted(s.drop_last());
        lemma_insert_ranked_sorted(s.last(), rank_sorted(s.drop_last()));
    }
}

/// Positional form of the insertion step: inserting at the first position
/// whose element may not stand before `v` is the same as `insert_ranked`.
proof fn lemma_insert_ranked_at(v: VulnView, s: Seq<VulnView>, p: int)
    requires
        0 <= p <= s.len(),
        forall|k: int| 0 <= k < p ==> vuln_le(#[trigger] s[k], v),
        p < s.len() ==> !vuln_le(s[p], v),
    ensures
        insert_ranked(v, s) =~= s.subrange(0, p) + seq![v] + s.subrange(p, s.len() as int),
    decreases s.len(),
{
    if s.len() == 0 {
    } else if p == 0 {
    } else {
        assert(vuln_le(s[0], v));
        lemma_insert_ranked_at(v, s.drop_first(), p - 1);
        assert(s.drop_first().subrange(0, p - 1) =~= s.subrange(1, p));
        assert(s.drop_first().subrange(p - 1, s.drop_first().len() as int) =~= s.subrange(
            p,
            s.len() as int,
        ));
        assert(seq![s[0]] + (s.subrange(1, p) + seq![v] + s.subrange(p, s.len() as int))
            =~= s.subrange(0, p) + seq![v] + s.subrange(p, s.len() as int));
    }
}

/// Whether `a` may stand at or before `b` in a ranked report.
pub fn vuln_le_exec(a: &Vulnerability, b: &Vulnerability) -> (r: bool)
    ensures
        r == vuln_le(a@, b@),
{
    let ra = a.severity.rank();
    let rb = b.severity.rank();
    ra > rb || (ra == rb && a.line <= b.line)
}

/// Insert one finding into a ranked vector, behind every finding that may
/// stand at or before it.
fn insert_vuln(out: &mut Vec<Vulnerability>, v: Vulnerability)
    ensures
        final(out).deep_view() == insert_ranked(v@, old(out).deep_view()),
{
    let n = out.len();
    let mut p: usize = 0;
    while p < n && vuln_le_exec(&out[p], &v)
        invariant
            n == out@.len(),
            p <= n,
            *out == *old(out),
            forall|k: int| 0 <= k < p ==> vuln_le(#[trigger] out.deep_view()[k], v@),
        decreases n - p,
    {
        p = p + 1;
    }
    proof {
        lemma_insert_ranked_at(v@, out.deep_view(), p as int);
    }
    let ghost pre = out.deep_view();
    out.insert(p, v);
    proof {
        assert(out.deep_view() =~= pre.subrange(0, p as int) + seq![v@] + pre.subrange(
            p as int,
            pre.len() as int,
        ));
    }
}

/// Sort findings for a report: severity descending, then line ascending,
/// ties kept in their pre-sort order.
pub fn sort_findings(input: Vec<Vulnerability>) -> (r: Vec<Vulnerability>)
    ensures
        r.deep_view() == rank_sorted(input.deep_view()),
{
    let ghost orig = input.deep_view();
    let mut rest = input;
    let mut out: Vec<Vulnerability> = Vec::new();
    let ghost mut i: int = 0;
    proof {
        assert(rest.deep_view() =~= orig.subrange(0, orig.len() as int));
        assert(out.deep_view() =~= rank_sorted(orig.subrange(0, 0)));
    }
    while rest.len() > 0
        invariant
            0 <= i <= orig.len(),
            rest.deep_view() == orig.subrange(i, orig.len() as int),
            out.deep_view() == rank_sorted(orig.subrange(0, i)),
        decreases rest@.len(),
    {
        let ghost prefix = orig.subrange(0, i);
        let ghost next = orig.subrange(0, i + 1);
        let ghost pre_rest = rest.deep_view();
        let ghost pre_at: Seq<Vulnerability> = rest@;
        proof {
            assert(pre_rest.len() == pre_at.len());
            assert(i < orig.len());
        }
        let v = rest.remove(0);
        proof {
            assert(v == pre_at[0]);
            assert(pre_rest[0] == pre_at[0].deep_view());
            assert(v@ == orig[i]);
            assert(rest@ =~= pre_at.subrange(1, pre_at.len() as int));
            assert forall|k: int| 0 <= k < rest@.len() implies #[trigger] rest.deep_view()[k]
                == orig.subrange(i + 1, orig.len() as int)[k] by {
                assert(rest.deep_view()[k] == rest@[k].deep_view());
                assert(rest@[k] == pre_at[k + 1]);
                assert(pre_rest[k + 1] == pre_at[k + 1].deep_view());
                assert(pre_rest[k + 1] == orig[i + 1 + k]);
            }
            assert(rest.deep_view() =~= orig.subrange(i + 1, orig.len() as int));
            assert(next.drop_last() =~= prefix);
            assert(next.last() == orig[i]);
        }
        insert_vuln(&mut out, v);
        proof {
            i = i + 1;
        }
    }
    proof {
        assert(orig.subrange(i, orig.len() as int) =~= rest.deep_view());
        assert(i == orig.len());
        assert(orig.subrange(0, orig.len() as int) =~= orig);
    }
    out
}

} // verus!
