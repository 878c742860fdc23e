//! Merging of per-stop fetch results into one arrival list: successful
//! stops contribute their arrivals in stop-fetch order, failed stops
//! contribute nothing, and the concatenation is sorted by seconds until
//! arrival with a stable insertion sort (ties keep stop-fetch order).

use vstd::prelude::*;
use vstd::seq_lib::group_to_multiset_ensures;
use crate::emtmadrid::{ArrivalTime, FetchError};

verus! {

/// Ascending by seconds until arrival.
pub open spec fn sorted_by_arrival(s: Seq<ArrivalTime>) -> bool {
    forall|i: int, j: int|
        0 <= i < j < s.len() ==> s[i].seconds_until_arrival <= s[j].seconds_until_arrival
}

/// `a` inserted into `s` after every element whose key is at most `a`'s:
/// on a sorted `s` this keeps it sorted, and an element equal in key to
/// `a` keeps its place before `a`.
pub open spec fn insert_stable(s: Seq<ArrivalTime>, a: ArrivalTime) -> Seq<ArrivalTime>
    decreases s.len(),
{
    if s.len() == 0 {
        seq![a]
    } else if a.seconds_until_arrival < s.last().seconds_until_arrival {
        insert_stable(s.drop_last(), a).push(s.last())
    } else {
        s.push(a)
    }
}

/// Stable insertion sort of `s`, ascending by seconds until arrival.
pub open spec fn sort_by_arrival(s: Seq<ArrivalTime>) -> Seq<ArrivalTime>
    decreases s.len(),
{
    if s.len() == 0 {
        s
    } else {
        insert_stable(sort_by_arrival(s.drop_last()), s.last())
    }
}

/// The concatenation, in stop-fetch order, of the arrivals of the
/// successful results; failures contribute nothing.
pub open spec fn successful_arrivals(rs: Seq<Result<Vec<ArrivalTime>, FetchError>>)
    -> Seq<ArrivalTime>
    decreases rs.len(),
{
    if rs.len() == 0 {
        Seq::empty()
    } else {
        (match rs[0] {
            Ok(v) => v@,
            Err(_) => Seq::empty(),
        }) + successful_arrivals(rs.drop_first())
    }
}

proof fn lemma_insert_stable_len(s: Seq<ArrivalTime>, a: ArrivalTime)
    ensures
        insert_stable(s, a).len() == s.len() + 1,
    decreases s.len(),
{
    if s.len() > 0 && a.seconds_until_arrival < s.last().seconds_until_arrival {
        lemma_insert_stable_len(s.drop_last(), a);
    }
}

proof fn lemma_insert_stable_multiset(s: Seq<ArrivalTime>, a: ArrivalTime)
    ensures
        insert_stable(s, a).to_multiset() == s.to_multiset().insert(a),
    decreases s.len(),
{
    broadcast use group_to_multiset_ensures;

    if s.len() == 0 {
        assert(seq![a] =~= Seq::<ArrivalTime>::empty().push(a));
        assert(insert_stable(s, a).to_multiset() =~= s.to_multiset().insert(a));
    } else if a.seconds_until_arrival < s.last().seconds_until_arrival {
        lemma_insert_stable_multiset(s.drop_last(), a);
        assert(s =~= s.drop_last().push(s.last()));
        assert(s.to_multiset() =~= s.drop_last().to_multiset().insert(s.last()));
        assert(insert_stable(s, a).to_multiset() =~= s.drop_last().to_multiset().insert(
            a,
        ).insert(s.last()));
        assert(s.drop_last().to_multiset().insert(a).insert(s.last())
            =~= s.drop_last().to_multiset().insert(s.last()).insert(a));
    } else {
        assert(insert_stable(s, a).to_multiset() =~= s.to_multiset().insert(a));
    }
}

proof fn lemma_insert_stable_keys_le(s: Seq<ArrivalTime>, a: ArrivalTime, bound: u64)
    requires
        forall|i: int| 0 <= i < s.len() ==> (#[trigger] s[i]).seconds_until_arrival <= bound,
        a.seconds_until_arrival <= bound,
    ensures
        forall|i: int|
            0 <= i < insert_stable(s, a).len() ==> (#[trigger] insert_stable(s, a)[i])
                .seconds_until_arrival <= bound,
    decreases s.len(),
{
    if s.len() == 0 {
    } else if a.seconds_until_arrival < s.last().seconds_until_arrival {
        assert(forall|i: int|
            0 <= i < s.drop_last().len() ==> (#[trigger] s.drop_last()[i]).seconds_until_arrival
                <= bound);
        lemma_insert_stable_keys_le(s.drop_last(), a, bound);
        let t = insert_stable(s.drop_last(), a);
        assert(s.last() == s[s.len() - 1]);
        assert(forall|i: int|
            0 <= i < t.len() ==> t.push(s.last())[i] == #[trigger] t[i]);
        assert(t.push(s.last())[t.len() as int] == s.last());
    }
}

proof fn lemma_insert_stable_sorted(s: Seq<ArrivalTime>, a: ArrivalTime)
    requires
        sorted_by_arrival(s),
    ensures
        sorted_by_arrival(insert_stable(s, a)),
    decreases s.len(),
{
    if s.len() == 0 {
    } else if a.seconds_until_arrival < s.last().seconds_until_arrival {
        let d = s.drop_last();
        assert(sorted_by_arrival(d));
        lemma_insert_stable_sorted(d, a);
        assert(forall|i: int|
            0 <= i < d.len() ==> (#[trigger] d[i]).seconds_until_arrival
                <= s.last().seconds_until_arrival);
        lemma_insert_stable_keys_le(d, a, s.last().seconds_until_arrival);
        lemma_insert_stable_len(d, a);
        let t = insert_stable(d, a);
        assert(forall|i: int, j: int|
            0 <= i < j < t.push(s.last()).len() ==> t.push(s.last())[i].seconds_until_arrival
                <= t.push(s.last())[j].seconds_until_arrival) by {
            assert(forall|i: int|
                0 <= i < t.len() ==> t.push(s.last())[i] == #[trigger] t[i]);
        }
    } else {
        assert(forall|i: int|
            0 <= i < s.len() ==> (#[trigger] s[i]).seconds_until_arrival
                <= a.seconds_until_arrival);
        assert(forall|i: int| 0 <= i < s.len() ==> s.push(a)[i] == #[trigger] s[i]);
    }
}

/// The sort yields an ascending permutation of its input, of the same
/// length.
pub proof fn lemma_sort_by_arrival_ensures(s: Seq<ArrivalTime>)
    ensures
        sorted_by_arrival(sort_by_arrival(s)),
        sort_by_arrival(s).to_multiset() == s.to_multiset(),
        sort_by_arrival(s).len() == s.len(),
    decreases s.len(),
{
    broadcast use group_to_multiset_ensures;

    if s.len() == 0 {
    } else {
        let d = s.drop_last();
        lemma_sort_by_arrival_ensures(d);
        lemma_insert_stable_sorted(sort_by_arrival(d), s.last());
        lemma_insert_stable_multiset(sort_by_arrival(d), s.last());
        lemma_insert_stable_len(sort_by_arrival(d), s.last());
        assert(s =~= d.push(s.last()));
        assert(s.to_multiset() =~= d.to_multiset().insert(s.last()));
        assert(sort_by_arrival(s).to_multiset() =~= sort_by_arrival(d).to_multiset().insert(
            s.last(),
        ));
    }
}

/// Sorting an already sorted sequence leaves it unchanged, so merging is
/// idempotent under re-sorting: feeding a merge's output back in yields
/// the same ordered output.
pub proof fn lemma_sort_of_sorted(s: Seq<ArrivalTime>)
    requires
        sorted_by_arrival(s),
    ensures
        sort_by_arrival(s) == s,
    decreases s.len(),
{
    if s.len() == 0 {
    } else {
        let d = s.drop_last();
        assert(sorted_by_arrival(d));
        lemma_sort_of_sorted(d);
        if s.len() == 1 {
            assert(insert_stable(d, s.last()) =~= s);
        } else {
            assert(d.last().seconds_until_arrival <= s.last().seconds_until_arrival);
            assert(insert_stable(d, s.last()) == d.push(s.last()));
            assert(d.push(s.last()) =~= s);
        }
    }
}

/// Sorting twice yields what sorting once yields.
pub proof fn lemma_merge_resort_idempotent(s: Seq<ArrivalTime>)
    ensures
        sort_by_arrival(sort_by_arrival(s)) == sort_by_arrival(s),
{
    lemma_sort_by_arrival_ensures(s);
    lemma_sort_of_sorted(sort_by_arrival(s));
}

/// With two stops, one failing and one succeeding, exactly the successful
/// stop's arrivals remain to be sorted; with both failing, nothing does.
pub proof fn lemma_merge_partial_success(
    bad: Result<Vec<ArrivalTime>, FetchError>,
    good: Vec<ArrivalTime>,
)
    requires
        bad is Err,
    ensures
        successful_arrivals(seq![bad, Ok(good)]) == good@,
        successful_arrivals(seq![Ok(good), bad]) == good@,
{
    let none = Seq::<Result<Vec<ArrivalTime>, FetchError>>::empty();
    assert(successful_arrivals(none) == Seq::<ArrivalTime>::empty());
    assert(seq![bad].drop_first() =~= none);
    assert(successful_arrivals(seq![bad]) =~= Seq::<ArrivalTime>::empty());
    assert(seq![Ok::<Vec<ArrivalTime>, FetchError>(good)].drop_first() =~= none);
    assert(successful_arrivals(seq![Ok::<Vec<ArrivalTime>, FetchError>(good)]) =~= good@);
    assert(seq![bad, Ok::<Vec<ArrivalTime>, FetchError>(good)].drop_first() =~= seq![
        Ok::<Vec<ArrivalTime>, FetchError>(good),
    ]);
    assert(seq![Ok::<Vec<ArrivalTime>, FetchError>(good), bad].drop_first() =~= seq![bad]);
    assert(successful_arrivals(seq![bad, Ok::<Vec<ArrivalTime>, FetchError>(good)]) =~= good@);
    assert(successful_arrivals(seq![Ok::<Vec<ArrivalTime>, FetchError>(good), bad]) =~= good@);
}

/// The merge comes out empty only when no stop contributed an arrival:
/// any successful stop with at least one arrival makes it non-empty.
pub proof fn lemma_merge_nonempty(rs: Seq<Result<Vec<ArrivalTime>, FetchError>>, i: int)
    requires
        0 <= i < rs.len(),
        rs[i] matches Ok(v) && v@.len() > 0,
    ensures
        successful_arrivals(rs).len() > 0,
    decreases rs.len(),
{
    if i == 0 {
    } else {
        assert(rs.drop_first()[i - 1] == rs[i]);
        lemma_merge_nonempty(rs.drop_first(), i - 1);
    }
}

/// With every stop failing the merge has nothing to sort.
pub proof fn lemma_merge_all_failed(rs: Seq<Result<Vec<ArrivalTime>, FetchError>>)
    requires
        forall|i: int| 0 <= i < rs.len() ==> (#[trigger] rs[i]) is Err,
    ensures
        successful_arrivals(rs) == Seq::<ArrivalTime>::empty(),
    decreases rs.len(),
{
    if rs.len() > 0 {
        assert(forall|i: int|
            0 <= i < rs.drop_first().len() ==> (#[trigger] rs.drop_first()[i]) is Err);
        lemma_merge_all_failed(rs.drop_first());
        assert(successful_arrivals(rs) =~= Seq::<ArrivalTime>::empty());
    }
}

fn insert_sorted(v: Vec<ArrivalTime>, a: ArrivalTime) -> (r: Vec<ArrivalTime>)
    ensures
        r@ == insert_stable(v@, a),
    decreases v@.len(),
{
    let mut v = v;
    if v.len() == 0 {
        v.push(a);
        proof {
            assert(v@ =~= seq![a]);
        }
        v
    } else {
        let n = v.len();
        if a.seconds_until_arrival < v[n - 1].seconds_until_arrival {
            proof {
                assert(v@[n - 1] == v@.last());
            }
            let last = v.pop().unwrap();
            let mut r = insert_sorted(v, a);
            r.push(last);
            r
        } else {
            v.push(a);
            v
        }
    }
}

fn sort_arrivals(v: Vec<ArrivalTime>) -> (r: Vec<ArrivalTime>)
    ensures
        r@ == sort_by_arrival(v@),
    decreases v@.len(),
{
    let mut v = v;
    if v.len() == 0 {
        return v;
    }
    let last = v.pop().unwrap();
    let s = sort_arrivals(v);
    insert_sorted(s, last)
}

/// Merges per-stop fetch results into one list of arrivals, ascending by
/// seconds until arrival.
pub struct ArrivalAggregator;

impl ArrivalAggregator {
    /// For each stop, a success contributes its arrivals and a failure
    /// contributes nothing; the concatenation is stably sorted ascending
    /// by seconds until arrival. The result is empty only when no
    /// successful stop reported an arrival; the merge itself never fails.
    pub fn merge(results: Vec<Result<Vec<ArrivalTime>, FetchError>>) -> (r: Vec<ArrivalTime>)
        ensures
            r@ == sort_by_arrival(successful_arrivals(results@)),
            sorted_by_arrival(r@),
            r@.to_multiset() == successful_arrivals(results@).to_multiset(),
            r@.len() == successful_arrivals(results@).len(),
    {
        let ghost rs0 = results@;
        let mut results = results;
        let mut all: Vec<ArrivalTime> = Vec::new();
        proof {
            assert(all@ + successful_arrivals(results@) =~= successful_arrivals(rs0));
        }
        while results.len() > 0
            invariant
                all@ + successful_arrivals(results@) == successful_arrivals(rs0),
            decreases results@.len(),
        {
            let ghost before = results@;
            let head = results.remove(0);
            proof {
                assert(results@ =~= before.drop_first());
            }
            match head {
                Ok(mut v) => {
                    all.append(&mut v);
                },
                Err(_) => {},
            }
            proof {
                assert(all@ + successful_arrivals(results@) =~= successful_arrivals(rs0));
            }
        }
        proof {
            assert(successful_arrivals(results@) =~= Seq::<ArrivalTime>::empty());
            assert(all@ =~= all@ + successful_arrivals(results@));
            lemma_sort_by_arrival_ensures(successful_arrivals(rs0));
        }
        sort_arrivals(all)
    }
}

} // verus!
