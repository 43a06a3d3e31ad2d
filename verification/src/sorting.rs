use vstd::prelude::*;

use crate::tasks::{
    Task, SortOrder, sort_key, task_key, is_dated, datetime_key, undated_stamp,
};

verus! {

/// A collection is in order when no task's key exceeds a later task's.
pub open spec fn sorted_by_key(s: Seq<Task>, order: SortOrder, today: u32) -> bool {
    forall|i: int, j: int|
        0 <= i < j < s.len() ==> sort_key(s[i], order, today) <= sort_key(s[j], order, today)
}

/// Where a task lands when inserted into an ordered collection: after
/// every task whose key does not exceed its own, so that ties keep
/// their earlier arrivals in front.
pub open spec fn insert_sorted(x: Task, s: Seq<Task>, order: SortOrder, today: u32) -> Seq<Task>
    decreases s.len(),
{
    if s.len() == 0 {
        seq![x]
    } else if sort_key(s[0], order, today) <= sort_key(x, order, today) {
        seq![s[0]] + insert_sorted(x, s.drop_first(), order, today)
    } else {
        seq![x] + s
    }
}

/// The ordered form of a collection: tasks are inserted one at a time
/// in fetch order, which makes the result a stable sort of the input.
pub open spec fn sort_spec(s: Seq<Task>, order: SortOrder, today: u32) -> Seq<Task>
    decreases s.len(),
{
    if s.len() == 0 {
        Seq::empty()
    } else {
        insert_sorted(s.last(), sort_spec(s.drop_last(), order, today), order, today)
    }
}

/// Inserting adds exactly the new task: the result holds the old tasks
/// and the new one, as a multiset.
proof fn lemma_insert_sorted_multiset(x: Task, s: Seq<Task>, order: SortOrder, today: u32)
    ensures
        insert_sorted(x, s, order, today).len() == s.len() + 1,
        insert_sorted(x, s, order, today).to_multiset() =~= s.to_multiset().insert(x),
    decreases s.len(),
{
    broadcast use vstd::seq_lib::group_to_multiset_ensures;
    broadcast use vstd::multiset::group_multiset_axioms;

    if s.len() == 0 {
        assert(seq![x] =~= Seq::empty().push(x));
    } else if sort_key(s[0], order, today) <= sort_key(x, order, today) {
        let tail = insert_sorted(x, s.drop_first(), order, today);
        lemma_insert_sorted_multiset(x, s.drop_first(), order, today);
        vstd::seq_lib::lemma_multiset_commutative(seq![s[0]], tail);
        vstd::seq_lib::lemma_multiset_commutative(seq![s[0]], s.drop_first());
        assert(s =~= seq![s[0]] + s.drop_first());
        assert(seq![s[0]] =~= Seq::empty().push(s[0]));
        assert(insert_sorted(x, s, order, today).to_multiset() =~= s.to_multiset().insert(x));
    } else {
        let r = seq![x] + s;
        vstd::seq_lib::lemma_multiset_commutative(seq![x], s);
        assert(seq![x] =~= Seq::empty().push(x));
        assert(r.to_multiset() =~= s.to_multiset().insert(x));
    }
}

/// Every task of an insertion's result is the inserted task or one of
/// the old ones.
proof fn lemma_insert_sorted_contains(x: Task, s: Seq<Task>, order: SortOrder, today: u32)
    ensures
        forall|e: Task| #[trigger]
            insert_sorted(x, s, order, today).contains(e) ==> (e == x || s.contains(e)),
{
    broadcast use vstd::seq_lib::group_to_multiset_ensures;
    broadcast use vstd::multiset::group_multiset_axioms;

    lemma_insert_sorted_multiset(x, s, order, today);
    let r = insert_sorted(x, s, order, today);
    assert forall|e: Task| #[trigger] r.contains(e) implies (e == x || s.contains(e)) by {
        assert(r.to_multiset().count(e) > 0);
        if e != x {
            assert(s.to_multiset().insert(x).count(e) == s.to_multiset().count(e));
        }
    }
}

/// Inserting into an ordered collection keeps it ordered.
proof fn lemma_insert_sorted_sorted(x: Task, s: Seq<Task>, order: SortOrder, today: u32)
    requires
        sorted_by_key(s, order, today),
    ensures
        sorted_by_key(insert_sorted(x, s, order, today), order, today),
    decreases s.len(),
{
    let r = insert_sorted(x, s, order, today);
    if s.len() == 0 {
    } else if sort_key(s[0], order, today) <= sort_key(x, order, today) {
        let tail = insert_sorted(x, s.drop_first(), order, today);
        assert(sorted_by_key(s.drop_first(), order, today));
        lemma_insert_sorted_sorted(x, s.drop_first(), order, today);
        lemma_insert_sorted_contains(x, s.drop_first(), order, today);
        assert forall|i: int, j: int| 0 <= i < j < r.len() implies sort_key(
            r[i],
            order,
            today,
        ) <= sort_key(r[j], order, today) by {
            if i == 0 {
                assert(r[0] == s[0]);
                assert(tail[j - 1] == r[j]);
                assert(tail.contains(tail[j - 1]));
                if tail[j - 1] == x {
                } else {
                    assert(s.drop_first().contains(tail[j - 1]));
                    let m = choose|m: int|
                        0 <= m < s.drop_first().len() && s.drop_first()[m] == tail[j - 1];
                    assert(s[m + 1] == tail[j - 1]);
                }
            } else {
                assert(r[i] == tail[i - 1] && r[j] == tail[j - 1]);
            }
        }
    } else {
        assert forall|i: int, j: int| 0 <= i < j < r.len() implies sort_key(
            r[i],
            order,
            today,
        ) <= sort_key(r[j], order, today) by {
            if i == 0 {
                assert(r[j] == s[j - 1]);
                if j - 1 > 0 {
                    assert(sort_key(s[0], order, today) <= sort_key(s[j - 1], order, today));
                }
            } else {
                assert(r[i] == s[i - 1] && r[j] == s[j - 1]);
            }
        }
    }
}

/// When every task's key stays within the new task's, insertion is
/// simply appending: nothing moves.
proof fn lemma_insert_sorted_at_end(x: Task, s: Seq<Task>, order: SortOrder, today: u32)
    requires
        forall|i: int| 0 <= i < s.len() ==> sort_key(s[i], order, today) <= sort_key(
            x,
            order,
            today,
        ),
    ensures
        insert_sorted(x, s, order, today) == s.push(x),
    decreases s.len(),
{
    if s.len() == 0 {
        assert(seq![x] =~= s.push(x));
    } else {
        assert(sort_key(s[0], order, today) <= sort_key(x, order, today));
        assert(forall|i: int|
            0 <= i < s.drop_first().len() ==> sort_key(#[trigger] s.drop_first()[i], order, today)
                <= sort_key(x, order, today));
        lemma_insert_sorted_at_end(x, s.drop_first(), order, today);
        assert(seq![s[0]] + s.drop_first().push(x) =~= s.push(x));
    }
}

/// Where the ordered position of the new task lies: right after the
/// leading run of keys within its own, the insertion is an `insert` at
/// that index.
proof fn lemma_insert_sorted_split(
    x: Task,
    s: Seq<Task>,
    order: SortOrder,
    today: u32,
    pos: int,
)
    requires
        0 <= pos <= s.len(),
        forall|j: int| 0 <= j < pos ==> sort_key(s[j], order, today) <= sort_key(x, order, today),
        pos < s.len() ==> sort_key(s[pos], order, today) > sort_key(x, order, today),
    ensures
        insert_sorted(x, s, order, today) == s.insert(pos, x),
    decreases pos,
{
    if pos == 0 {
        if s.len() == 0 {
            assert(seq![x] =~= s.insert(0, x));
        } else {
            assert(sort_key(s[0], order, today) > sort_key(x, order, today));
            assert(seq![x] + s =~= s.insert(0, x));
        }
    } else {
        assert(sort_key(s[0], order, today) <= sort_key(x, order, today));
        assert(forall|j: int|
            0 <= j < pos - 1 ==> sort_key(#[trigger] s.drop_first()[j], order, today) <= sort_key(
                x,
                order,
                today,
            ));
        assert(pos - 1 < s.drop_first().len() ==> sort_key(
            s.drop_first()[pos - 1],
            order,
            today,
        ) > sort_key(x, order, today));
        lemma_insert_sorted_split(x, s.drop_first(), order, today, pos - 1);
        assert(seq![s[0]] + s.drop_first().insert(pos - 1, x) =~= s.insert(pos, x));
    }
}

/// Sorting yields an ordered collection.
pub proof fn lemma_sort_spec_sorted(s: Seq<Task>, order: SortOrder, today: u32)
    ensures
        sorted_by_key(sort_spec(s, order, today), order, today),
    decreases s.len(),
{
    if s.len() > 0 {
        lemma_sort_spec_sorted(s.drop_last(), order, today);
        lemma_insert_sorted_sorted(s.last(), sort_spec(s.drop_last(), order, today), order, today);
    }
}

/// Sorting permutes: the result holds exactly the fetched tasks.
pub proof fn lemma_sort_spec_multiset(s: Seq<Task>, order: SortOrder, today: u32)
    ensures
        sort_spec(s, order, today).len() == s.len(),
        sort_spec(s, order, today).to_multiset() =~= s.to_multiset(),
    decreases s.len(),
{
    broadcast use vstd::seq_lib::group_to_multiset_ensures;

    if s.len() > 0 {
        lemma_sort_spec_multiset(s.drop_last(), order, today);
        lemma_insert_sorted_multiset(
            s.last(),
            sort_spec(s.drop_last(), order, today),
            order,
            today,
        );
        assert(s =~= s.drop_last().push(s.last()));
    }
}

/// An already ordered collection is its own sort: sorting moves
/// nothing it does not have to.
pub proof fn lemma_sort_spec_of_sorted(s: Seq<Task>, order: SortOrder, today: u32)
    requires
        sorted_by_key(s, order, today),
    ensures
        sort_spec(s, order, today) == s,
    decreases s.len(),
{
    if s.len() > 0 {
        assert(sorted_by_key(s.drop_last(), order, today));
        lemma_sort_spec_of_sorted(s.drop_last(), order, today);
        assert(forall|i: int|
            0 <= i < s.drop_last().len() ==> sort_key(#[trigger] s.drop_last()[i], order, today)
                <= sort_key(s.last(), order, today));
        lemma_insert_sorted_at_end(s.last(), s.drop_last(), order, today);
        assert(s.drop_last().push(s.last()) =~= s);
    }
}

/// Sorting is idempotent: sorting a collection a second time, under
/// the same policy, changes nothing.
pub proof fn lemma_sort_idempotent(s: Seq<Task>, order: SortOrder, today: u32)
    ensures
        sort_spec(sort_spec(s, order, today), order, today) == sort_spec(s, order, today),
{
    lemma_sort_spec_sorted(s, order, today);
    lemma_sort_spec_of_sorted(sort_spec(s, order, today), order, today);
}

/// Under the chronological policy every dated task comes before every
/// undated one, and the dated tasks run in non-decreasing date order.
pub proof fn lemma_sort_datetime_order(s: Seq<Task>, today: u32)
    ensures
        forall|i: int, j: int|
            0 <= i < j < sort_spec(s, SortOrder::Datetime, today).len() && is_dated(
                #[trigger] sort_spec(s, SortOrder::Datetime, today)[j],
            ) ==> is_dated(#[trigger] sort_spec(s, SortOrder::Datetime, today)[i]),
        forall|i: int, j: int|
            0 <= i < j < sort_spec(s, SortOrder::Datetime, today).len() && is_dated(
                #[trigger] sort_spec(s, SortOrder::Datetime, today)[i],
            ) && is_dated(#[trigger] sort_spec(s, SortOrder::Datetime, today)[j]) ==> datetime_key(
                sort_spec(s, SortOrder::Datetime, today)[i],
            ) <= datetime_key(sort_spec(s, SortOrder::Datetime, today)[j]),
{
    let r = sort_spec(s, SortOrder::Datetime, today);
    lemma_sort_spec_sorted(s, SortOrder::Datetime, today);
    assert forall|t: Task| is_dated(t) implies datetime_key(t) < undated_stamp() by {
        lemma_dated_key_below_sentinel(t);
    }
    assert forall|t: Task| !is_dated(t) implies datetime_key(t) == undated_stamp() by {}
}

/// A dated task's key always lies below the undated sentinel, and an
/// undated task's key is exactly the sentinel.
pub proof fn lemma_dated_key_below_sentinel(t: Task)
    ensures
        is_dated(t) ==> datetime_key(t) < undated_stamp(),
        !is_dated(t) ==> datetime_key(t) == undated_stamp(),
{
}

/// The tasks whose key is exactly `k`, as a predicate.
pub open spec fn key_pred(order: SortOrder, today: u32, k: int) -> spec_fn(Task) -> bool {
    |t: Task| sort_key(t, order, today) == k
}

/// A one-task sequence filters to itself or to nothing.
proof fn lemma_filter_singleton(x: Task, pred: spec_fn(Task) -> bool)
    ensures
        seq![x].filter(pred) == (if pred(x) {
            seq![x]
        } else {
            Seq::<Task>::empty()
        }),
{
    reveal_with_fuel(Seq::<_>::filter, 2);
    assert(seq![x].drop_last() =~= Seq::<Task>::empty());
    if pred(x) {
        assert(Seq::<Task>::empty().push(x) =~= seq![x]);
    }
}

/// When no task passes the predicate, the filter is empty.
proof fn lemma_filter_none(s: Seq<Task>, pred: spec_fn(Task) -> bool)
    requires
        forall|i: int| 0 <= i < s.len() ==> !pred(#[trigger] s[i]),
    ensures
        s.filter(pred) == Seq::<Task>::empty(),
    decreases s.len(),
{
    reveal_with_fuel(Seq::<_>::filter, 2);
    if s.len() > 0 {
        assert(forall|i: int| 0 <= i < s.drop_last().len() ==> !pred(#[trigger] s.drop_last()[i]));
        lemma_filter_none(s.drop_last(), pred);
    }
}

/// How insertion behaves under a single-key filter: the inserted task
/// lands at that filter's end when its key matches, and is invisible
/// to every other key.
proof fn lemma_insert_sorted_filter(x: Task, s: Seq<Task>, order: SortOrder, today: u32, k: int)
    requires
        sorted_by_key(s, order, today),
    ensures
        insert_sorted(x, s, order, today).filter(key_pred(order, today, k)) == (if sort_key(
            x,
            order,
            today,
        ) == k {
            s.filter(key_pred(order, today, k)).push(x)
        } else {
            s.filter(key_pred(order, today, k))
        }),
    decreases s.len(),
{
    broadcast use vstd::seq_lib::group_seq_properties;

    let pred = key_pred(order, today, k);
    if s.len() == 0 {
        reveal_with_fuel(Seq::<_>::filter, 2);
        lemma_filter_singleton(x, pred);
        if pred(x) {
            assert(Seq::<Task>::empty().filter(pred).push(x) =~= seq![x]);
        }
    } else if sort_key(s[0], order, today) <= sort_key(x, order, today) {
        let tail = insert_sorted(x, s.drop_first(), order, today);
        assert(sorted_by_key(s.drop_first(), order, today));
        lemma_insert_sorted_filter(x, s.drop_first(), order, today, k);
        Seq::filter_distributes_over_add(seq![s[0]], tail, pred);
        Seq::filter_distributes_over_add(seq![s[0]], s.drop_first(), pred);
        lemma_filter_singleton(s[0], pred);
        assert(s =~= seq![s[0]] + s.drop_first());
        if sort_key(x, order, today) == k {
            assert(seq![s[0]].filter(pred) + s.drop_first().filter(pred).push(x) =~= (seq![
                s[0],
            ].filter(pred) + s.drop_first().filter(pred)).push(x));
        }
    } else {
        Seq::filter_distributes_over_add(seq![x], s, pred);
        lemma_filter_singleton(x, pred);
        if sort_key(x, order, today) == k {
            assert(forall|i: int|
                0 <= i < s.len() ==> sort_key(#[trigger] s[i], order, today) >= sort_key(
                    s[0],
                    order,
                    today,
                ));
            assert(forall|i: int| 0 <= i < s.len() ==> !pred(#[trigger] s[i]));
            lemma_filter_none(s, pred);
            assert(seq![x] + Seq::<Task>::empty() =~= Seq::<Task>::empty().push(x));
        } else {
            assert(Seq::<Task>::empty() + s.filter(pred) =~= s.filter(pred));
        }
    }
}

/// Law: sorting is stable. Among tasks of any one key, the sorted
/// collection keeps exactly the fetch order; ties are never swapped.
pub proof fn lemma_sort_stable(s: Seq<Task>, order: SortOrder, today: u32, k: int)
    ensures
        sort_spec(s, order, today).filter(key_pred(order, today, k)) == s.filter(
            key_pred(order, today, k),
        ),
    decreases s.len(),
{
    let pred = key_pred(order, today, k);
    if s.len() == 0 {
        reveal_with_fuel(Seq::<_>::filter, 1);
    } else {
        let rest = sort_spec(s.drop_last(), order, today);
        lemma_sort_stable(s.drop_last(), order, today, k);
        lemma_sort_spec_sorted(s.drop_last(), order, today);
        lemma_insert_sorted_filter(s.last(), rest, order, today, k);
        reveal_with_fuel(Seq::<_>::filter, 2);
        assert(s.filter(pred) == (if pred(s.last()) {
            s.drop_last().filter(pred).push(s.last())
        } else {
            s.drop_last().filter(pred)
        }));
    }
}

/// Orders a task collection by the chosen policy: chronological, or by
/// descending value score, with ties left in fetch order either way.
/// The value score weighs overdue-ness against the given current day,
/// so that the ordering is a pure function of its arguments; reading
/// the clock is the caller's business.
pub fn sort(tasks: Vec<Task>, order: SortOrder, today: u32) -> (r: Vec<Task>)
    ensures
        r@ == sort_spec(tasks@, order, today),
{
    let ghost orig: Seq<Task> = tasks@;
    let mut input = tasks;
    let mut out: Vec<Task> = Vec::new();
    while input.len() > 0
        invariant
            input@ =~= orig.skip(orig.len() - input@.len()),
            out@ == sort_spec(orig.take(orig.len() - input@.len()), order, today),
            input@.len() <= orig.len(),
        decreases input@.len(),
    {
        let ghost p: int = orig.len() - input@.len();
        let t = input.remove(0);
        proof {
            assert(t == orig[p]);
            assert(input@ =~= orig.skip(p + 1));
        }
        insert_by_key(&mut out, t, order, today);
        proof {
            assert(orig.take(p + 1).drop_last() =~= orig.take(p));
            assert(orig.take(p + 1).last() == orig[p]);
        }
    }
    proof {
        assert(orig.take(orig.len() as int) =~= orig);
    }
    out
}

/// Inserts one task into an ordered vector, after every task whose key
/// does not exceed its own.
fn insert_by_key(out: &mut Vec<Task>, t: Task, order: SortOrder, today: u32)
    ensures
        final (out)@ == insert_sorted(t, old(out)@, order, today),
{
    let key_t = task_key(&t, order, today);
    let mut idx: usize = 0;
    while idx < out.len() && task_key(&out[idx], order, today) <= key_t
        invariant
            idx <= out@.len(),
            *out == *old(out),
            key_t as int == sort_key(t, order, today),
            forall|j: int|
                0 <= j < idx ==> sort_key(out@[j], order, today) <= sort_key(t, order, today),
        decreases out@.len() - idx,
    {
        idx = idx + 1;
    }
    proof {
        lemma_insert_sorted_split(t, out@, order, today, idx as int);
    }
    out.insert(idx, t);
}

} // verus!
