//! The stable merge at the heart of history unification: records are sorted
//! by their extracted timestamp with a stable insertion sort, so records
//! with equal timestamps — in particular the many without one, all carrying
//! timestamp 0 — keep their provider-then-arrival order.

use vstd::prelude::*;

use crate::record::{recs, Record, RecordView};

verus! {

broadcast use vstd::seq_lib::group_seq_lib_default, Seq::lemma_filter_push;

/// Non-decreasing by timestamp.
pub open spec fn ts_sorted(s: Seq<RecordView>) -> bool {
    forall|i: int, j: int| 0 <= i <= j < s.len() ==> s[i].ts <= s[j].ts
}

/// Stable insertion of `x` into `s`: `x` goes after every record whose
/// timestamp is less than or equal to its own.
pub open spec fn insert_by_ts(x: RecordView, s: Seq<RecordView>) -> Seq<RecordView>
    decreases s.len(),
{
    if s.len() == 0 {
        seq![x]
    } else if s[0].ts <= x.ts {
        seq![s[0]] + insert_by_ts(x, s.drop_first())
    } else {
        seq![x] + s
    }
}

/// Stable sort by timestamp: records are inserted in input order, each after
/// all earlier records with a timestamp less than or equal to its own.
pub open spec fn sort_by_ts(s: Seq<RecordView>) -> Seq<RecordView>
    decreases s.len(),
{
    if s.len() == 0 {
        Seq::empty()
    } else {
        insert_by_ts(s.last(), sort_by_ts(s.drop_last()))
    }
}

/// `insert_by_ts` splits `s` exactly at the first index whose timestamp
/// exceeds `x.ts`.
proof fn lemma_insert_at(x: RecordView, s: Seq<RecordView>, j: int)
    requires
        0 <= j <= s.len(),
        forall|k: int| 0 <= k < j ==> s[k].ts <= x.ts,
        j < s.len() ==> s[j].ts > x.ts,
    ensures
        insert_by_ts(x, s) == s.take(j) + seq![x] + s.skip(j),
    decreases j,
{
    if j == 0 {
        if s.len() == 0 {
            assert(insert_by_ts(x, s) =~= s.take(0) + seq![x] + s.skip(0));
        } else {
            assert(s[0].ts > x.ts);
            assert(insert_by_ts(x, s) =~= s.take(0) + seq![x] + s.skip(0));
        }
    } else {
        assert(s[0].ts <= x.ts);
        let rest = s.drop_first();
        assert(forall|k: int| 0 <= k < j - 1 ==> rest[k].ts <= x.ts);
        lemma_insert_at(x, rest, j - 1);
        assert(insert_by_ts(x, s) == seq![s[0]] + (rest.take(j - 1) + seq![x] + rest.skip(j - 1)));
        assert(seq![s[0]] + rest.take(j - 1) =~= s.take(j));
        assert(rest.skip(j - 1) =~= s.skip(j));
        assert(seq![s[0]] + (rest.take(j - 1) + seq![x] + rest.skip(j - 1)) =~= s.take(j) + seq![x]
            + s.skip(j));
    }
}

/// Inserting into a sorted sequence keeps it sorted.
proof fn lemma_insert_sorted(x: RecordView, s: Seq<RecordView>)
    requires
        ts_sorted(s),
    ensures
        ts_sorted(insert_by_ts(x, s)),
    decreases s.len(),
{
    if s.len() == 0 {
    } else if s[0].ts <= x.ts {
        let rest = s.drop_first();
        lemma_insert_sorted(x, rest);
        let out = seq![s[0]] + insert_by_ts(x, rest);
        assert forall|i: int, j: int| 0 <= i <= j < out.len() implies out[i].ts <= out[j].ts by {
            if 0 < j {
                assert(out[j] == insert_by_ts(x, rest)[j - 1]);
                lemma_insert_member(x, rest, j - 1);
            }
            if 0 < i {
                assert(out[i] == insert_by_ts(x, rest)[i - 1]);
            }
        }
    } else {
    }
}

/// Every element of `insert_by_ts(x, s)` is `x` or an element of `s`.
proof fn lemma_insert_member(x: RecordView, s: Seq<RecordView>, i: int)
    requires
        0 <= i < insert_by_ts(x, s).len(),
    ensures
        insert_by_ts(x, s)[i] == x || exists|k: int| 0 <= k < s.len() && insert_by_ts(x, s)[i]
            == s[k],
    decreases s.len(),
{
    if s.len() == 0 {
    } else if s[0].ts <= x.ts {
        if i > 0 {
            lemma_insert_member(x, s.drop_first(), i - 1);
            if insert_by_ts(x, s)[i] != x {
                let k = choose|k: int|
                    0 <= k < s.drop_first().len() && insert_by_ts(x, s.drop_first())[i - 1]
                        == s.drop_first()[k];
                assert(insert_by_ts(x, s)[i] == s[k + 1]);
            }
        } else {
            assert(insert_by_ts(x, s)[0] == s[0]);
        }
    } else {
        if i > 0 {
            assert(insert_by_ts(x, s)[i] == s[i - 1]);
        }
    }
}

/// The sorted sequence is sorted.
pub proof fn lemma_sort_sorted(s: Seq<RecordView>)
    ensures
        ts_sorted(sort_by_ts(s)),
    decreases s.len(),
{
    if s.len() > 0 {
        lemma_sort_sorted(s.drop_last());
        lemma_insert_sorted(s.last(), sort_by_ts(s.drop_last()));
    }
}

/// Insertion adds exactly the inserted record, as multisets.
proof fn lemma_insert_multiset(x: RecordView, s: Seq<RecordView>)
    ensures
        insert_by_ts(x, s).to_multiset() == s.to_multiset().insert(x),
    decreases s.len(),
{
    broadcast use vstd::seq_lib::group_to_multiset_ensures;

    if s.len() == 0 {
        assert(insert_by_ts(x, s) =~= Seq::<RecordView>::empty().push(x));
        assert(insert_by_ts(x, s).to_multiset() =~= s.to_multiset().insert(x));
    } else if s[0].ts <= x.ts {
        let rest = s.drop_first();
        lemma_insert_multiset(x, rest);
        vstd::seq_lib::lemma_multiset_commutative(seq![s[0]], insert_by_ts(x, rest));
        vstd::seq_lib::lemma_multiset_commutative(seq![s[0]], rest);
        assert(seq![s[0]] + rest =~= s);
        assert(insert_by_ts(x, s).to_multiset() =~= s.to_multiset().insert(x));
    } else {
        vstd::seq_lib::lemma_multiset_commutative(seq![x], s);
        assert(insert_by_ts(x, s).to_multiset() =~= s.to_multiset().insert(x));
    }
}

/// Sorting permutes the records: nothing is lost, nothing is added.
pub proof fn lemma_sort_permutes(s: Seq<RecordView>)
    ensures
        sort_by_ts(s).to_multiset() == s.to_multiset(),
    decreases s.len(),
{
    broadcast use vstd::seq_lib::group_to_multiset_ensures;

    if s.len() > 0 {
        lemma_sort_permutes(s.drop_last());
        lemma_insert_multiset(s.last(), sort_by_ts(s.drop_last()));
        assert(s.drop_last().push(s.last()) =~= s);
        assert(s.drop_last().push(s.last()).to_multiset() == s.drop_last().to_multiset().insert(
            s.last(),
        ));
    }
}

/// A sequence without a single record of timestamp `t` filters to nothing.
proof fn lemma_filter_none(s: Seq<RecordView>, t: i64)
    requires
        forall|i: int| 0 <= i < s.len() ==> s[i].ts != t,
    ensures
        s.filter(|r: RecordView| r.ts == t) == Seq::<RecordView>::empty(),
    decreases s.len(),
{
    reveal(Seq::filter);
    if s.len() > 0 {
        lemma_filter_none(s.drop_last(), t);
    }
}

/// Stable insertion with respect to one timestamp class: inserting a record
/// of timestamp `t` appends it to the class, inserting any other record
/// leaves the class unchanged.
proof fn lemma_insert_filter(x: RecordView, s: Seq<RecordView>, t: i64)
    requires
        ts_sorted(s),
    ensures
        insert_by_ts(x, s).filter(|r: RecordView| r.ts == t) == if x.ts == t {
            s.filter(|r: RecordView| r.ts == t).push(x)
        } else {
            s.filter(|r: RecordView| r.ts == t)
        },
    decreases s.len(),
{
    reveal(Seq::filter);
    let pred = |r: RecordView| r.ts == t;
    if s.len() == 0 {
        assert(insert_by_ts(x, s) =~= Seq::<RecordView>::empty().push(x));
        assert(Seq::<RecordView>::empty().push(x).filter(pred) == if pred(x) {
            Seq::<RecordView>::empty().filter(pred).push(x)
        } else {
            Seq::<RecordView>::empty().filter(pred)
        });
        assert(s.filter(pred) == Seq::<RecordView>::empty());
    } else if s[0].ts <= x.ts {
        let rest = s.drop_first();
        lemma_insert_filter(x, rest, t);
        Seq::filter_distributes_over_add(seq![s[0]], insert_by_ts(x, rest), pred);
        Seq::filter_distributes_over_add(seq![s[0]], rest, pred);
        assert(seq![s[0]] + rest =~= s);
        if x.ts == t {
            assert(seq![s[0]].filter(pred) + rest.filter(pred).push(x) =~= (seq![s[0]].filter(pred)
                + rest.filter(pred)).push(x));
        }
    } else {
        // x goes in front: every record of s has a timestamp above x.ts.
        Seq::filter_distributes_over_add(seq![x], s, pred);
        if x.ts == t {
            assert(forall|i: int| 0 <= i < s.len() ==> s[i].ts != t);
            lemma_filter_none(s, t);
            assert(seq![x].filter(pred) =~= Seq::<RecordView>::empty().push(x));
            assert(seq![x].filter(pred) + s.filter(pred) =~= s.filter(pred).push(x));
        } else {
            assert(seq![x].filter(pred) =~= Seq::<RecordView>::empty());
            assert(seq![x].filter(pred) + s.filter(pred) =~= s.filter(pred));
        }
    }
}

/// The records of `s` carrying timestamp `t`, in order.
pub open spec fn ts_class(s: Seq<RecordView>, t: i64) -> Seq<RecordView> {
    s.filter(|r: RecordView| r.ts == t)
}

/// Stability: sorting keeps the relative order of records with equal
/// timestamps — each timestamp class of the output reads exactly as it does
/// in the input.
pub proof fn lemma_sort_stable(s: Seq<RecordView>, t: i64)
    ensures
        sort_by_ts(s).filter(|r: RecordView| r.ts == t) == s.filter(|r: RecordView| r.ts == t),
    decreases s.len(),
{
    reveal(Seq::filter);
    let pred = |r: RecordView| r.ts == t;
    if s.len() > 0 {
        let x = s.last();
        let ss = sort_by_ts(s.drop_last());
        lemma_sort_stable(s.drop_last(), t);
        lemma_sort_sorted(s.drop_last());
        lemma_insert_filter(x, ss, t);
    }
}

/// Sorting keeps the number of records.
pub proof fn lemma_sort_len(s: Seq<RecordView>)
    ensures
        sort_by_ts(s).len() == s.len(),
    decreases s.len(),
{
    if s.len() > 0 {
        lemma_sort_len(s.drop_last());
        lemma_insert_len(s.last(), sort_by_ts(s.drop_last()));
    }
}

proof fn lemma_insert_len(x: RecordView, s: Seq<RecordView>)
    ensures
        insert_by_ts(x, s).len() == s.len() + 1,
    decreases s.len(),
{
    if s.len() > 0 && s[0].ts <= x.ts {
        lemma_insert_len(x, s.drop_first());
    }
}

/// Sort records by timestamp with a stable insertion sort.
pub fn sort_records(input: Vec<Record>) -> (r: Vec<Record>)
    ensures
        recs(r@) == sort_by_ts(recs(input@)),
{
    let n = input.len();
    let mut out: Vec<Record> = Vec::new();
    let mut i: usize = 0;
    while i < n
        invariant
            n == input@.len(),
            i <= n,
            recs(out@) == sort_by_ts(recs(input@).take(i as int)),
        decreases n - i,
    {
        let x = input[i].duplicate();
        let m = out.len();
        let mut j: usize = 0;
        while j < m && out[j].ts <= x.ts
            invariant
                m == out@.len(),
                j <= m,
                x@ == recs(input@)[i as int],
                forall|k: int| 0 <= k < j ==> recs(out@)[k].ts <= x@.ts,
            decreases m - j,
        {
            j = j + 1;
        }
        proof {
            lemma_sort_len(recs(input@).take(i as int));
            if j < out@.len() {
                assert(recs(out@)[j as int].ts > x@.ts);
            }
            lemma_insert_at(x@, recs(out@), j as int);
        }
        let ghost before = out@;
        out.insert(j, x);
        proof {
            assert(recs(out@) =~= recs(before).take(j as int) + seq![x@] + recs(before).skip(
                j as int,
            ));
            assert(recs(input@).take(i + 1 as int).drop_last() =~= recs(input@).take(i as int));
            assert(recs(input@).take(i + 1 as int).last() == recs(input@)[i as int]);
        }
        i = i + 1;
    }
    proof {
        assert(recs(input@).take(n as int) =~= recs(input@));
    }
    out
}

} // verus!
