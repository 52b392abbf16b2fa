//! What a query over a table yields: the rows that match, in table order.
//!
//! A table is a sequence of rows and a query a predicate on rows; the rows
//! that match are `table.filter(pred)`. The lemmas here let a scan from the
//! front of a table speak about that sequence.

use vstd::prelude::*;

verus! {

/// The first element of a sequence, if it has one.
pub open spec fn first_of<T>(rows: Seq<T>) -> Option<T> {
    if rows.len() > 0 {
        Some(rows[0])
    } else {
        None
    }
}

/// Looking at one more row extends the matches of the prefix by that row, or
/// leaves them as they are.
pub proof fn lemma_scan_step<T>(rows: Seq<T>, pred: spec_fn(T) -> bool, i: int)
    requires
        0 <= i < rows.len(),
    ensures
        rows.take(i + 1).filter(pred) == if pred(rows[i]) {
            rows.take(i).filter(pred).push(rows[i])
        } else {
            rows.take(i).filter(pred)
        },
{
    assert(rows.take(i + 1) =~= rows.take(i).push(rows[i]));
    Seq::lemma_filter_push(rows.take(i), rows[i], pred);
}

/// The empty prefix has no match.
pub proof fn lemma_scan_start<T>(rows: Seq<T>, pred: spec_fn(T) -> bool)
    ensures
        rows.take(0).filter(pred) == Seq::<T>::empty(),
{
    reveal(Seq::filter);
    assert(rows.take(0).len() == 0);
}

/// The whole table is its own longest prefix.
pub proof fn lemma_scan_end<T>(rows: Seq<T>, pred: spec_fn(T) -> bool)
    ensures
        rows.take(rows.len() as int).filter(pred) == rows.filter(pred),
{
    assert(rows.take(rows.len() as int) =~= rows);
}

/// A row that matches, with no match before it, is the first match.
pub proof fn lemma_first_match<T>(rows: Seq<T>, pred: spec_fn(T) -> bool, i: int)
    requires
        0 <= i < rows.len(),
        pred(rows[i]),
        rows.take(i).filter(pred).len() == 0,
    ensures
        first_of(rows.filter(pred)) == Some(rows[i]),
{
    lemma_scan_step(rows, pred, i);
    rows.take(i + 1).lemma_filter_monotone(rows, pred);
    let found = rows.take(i + 1).filter(pred);
    assert(found.len() == 1);
    assert(found[0] == rows[i]);
    assert(rows.filter(pred)[0] == found[0]);
}

/// No row matches exactly when the query yields nothing.
pub proof fn lemma_no_match<T>(rows: Seq<T>, pred: spec_fn(T) -> bool)
    ensures
        rows.filter(pred).len() == 0 <==> forall|i: int|
            0 <= i < rows.len() ==> !pred(#[trigger] rows[i]),
    decreases rows.len(),
{
    reveal(Seq::filter);
    if rows.len() > 0 {
        let front = rows.drop_last();
        lemma_no_match(front, pred);
        if rows.filter(pred).len() == 0 {
            assert forall|i: int| 0 <= i < rows.len() implies !pred(#[trigger] rows[i]) by {
                if i < rows.len() - 1 {
                    assert(front[i] == rows[i]);
                }
            }
        }
        if forall|i: int| 0 <= i < rows.len() ==> !pred(#[trigger] rows[i]) {
            assert forall|i: int| 0 <= i < front.len() implies !pred(#[trigger] front[i]) by {
                assert(front[i] == rows[i]);
            }
            assert(!pred(rows[rows.len() - 1]));
        }
    }
}

/// Every row that a query yields is a row of the table and matches.
pub proof fn lemma_match_is_row<T>(rows: Seq<T>, pred: spec_fn(T) -> bool, k: int)
    requires
        0 <= k < rows.filter(pred).len(),
    ensures
        pred(rows.filter(pred)[k]),
        exists|i: int| 0 <= i < rows.len() && #[trigger] rows[i] == rows.filter(pred)[k],
    decreases rows.len(),
{
    reveal(Seq::filter);
    if rows.len() > 0 {
        let front = rows.drop_last();
        let last = rows[rows.len() - 1];
        if pred(last) && k == front.filter(pred).len() {
            assert(rows[rows.len() - 1] == rows.filter(pred)[k]);
        } else {
            lemma_match_is_row(front, pred, k);
            let i = choose|i: int| 0 <= i < front.len() && #[trigger] front[i] == front.filter(pred)[k];
            assert(rows[i] == rows.filter(pred)[k]);
        }
    }
}

/// Where at most one row can match, a row that matches is the whole answer.
pub proof fn lemma_only_match<T>(rows: Seq<T>, pred: spec_fn(T) -> bool, i: int)
    requires
        0 <= i < rows.len(),
        pred(rows[i]),
        forall|j: int| 0 <= j < rows.len() && j != i ==> !pred(#[trigger] rows[j]),
    ensures
        rows.filter(pred) == seq![rows[i]],
{
    let front = rows.take(i);
    let back = rows.skip(i + 1);
    assert(rows =~= front.push(rows[i]) + back);
    lemma_no_match(front, pred);
    lemma_no_match(back, pred);
    assert forall|j: int| 0 <= j < front.len() implies !pred(#[trigger] front[j]) by {
        assert(front[j] == rows[j]);
    }
    assert forall|j: int| 0 <= j < back.len() implies !pred(#[trigger] back[j]) by {
        assert(back[j] == rows[j + i + 1]);
    }
    Seq::lemma_filter_push(front, rows[i], pred);
    Seq::filter_distributes_over_add(front.push(rows[i]), back, pred);
    assert(rows.filter(pred) =~= seq![rows[i]]);
}

/// Changing every row does not change how many rows match, where the second
/// query asks of a changed row what the first asks of the row as it was.
pub proof fn lemma_count_rewritten<T>(
    rows: Seq<T>,
    rewrite: spec_fn(T) -> T,
    before: spec_fn(T) -> bool,
    after: spec_fn(T) -> bool,
)
    requires
        forall|i: int| 0 <= i < rows.len() ==> after(rewrite(#[trigger] rows[i])) == before(rows[i]),
    ensures
        rows.map_values(rewrite).filter(after).len() == rows.filter(before).len(),
    decreases rows.len(),
{
    reveal(Seq::filter);
    if rows.len() > 0 {
        let front = rows.drop_last();
        assert forall|i: int| 0 <= i < front.len() implies after(rewrite(#[trigger] front[i]))
            == before(front[i]) by {
            assert(front[i] == rows[i]);
        }
        lemma_count_rewritten(front, rewrite, before, after);
        assert(rows.map_values(rewrite).drop_last() =~= front.map_values(rewrite));
        assert(rows.map_values(rewrite).last() == rewrite(rows[rows.len() - 1]));
    } else {
        assert(rows.map_values(rewrite).len() == 0);
    }
}

/// The rows that a query yields stand in the order of the table: where a key
/// rises along the table, it rises along the answer.
pub proof fn lemma_filter_keeps_order<T>(
    rows: Seq<T>,
    pred: spec_fn(T) -> bool,
    key: spec_fn(T) -> int,
)
    requires
        forall|i: int, j: int|
            0 <= i < j < rows.len() ==> key(#[trigger] rows[i]) < key(#[trigger] rows[j]),
    ensures
        forall|i: int, j: int|
            0 <= i < j < rows.filter(pred).len() ==> key(#[trigger] rows.filter(pred)[i]) < key(
                #[trigger] rows.filter(pred)[j],
            ),
    decreases rows.len(),
{
    reveal(Seq::filter);
    if rows.len() > 0 {
        let front = rows.drop_last();
        let last = rows.last();
        assert forall|i: int, j: int| 0 <= i < j < front.len() implies key(#[trigger] front[i])
            < key(#[trigger] front[j]) by {
            assert(front[i] == rows[i]);
            assert(front[j] == rows[j]);
        }
        lemma_filter_keeps_order(front, pred, key);
        let answer = rows.filter(pred);
        let before = front.filter(pred);
        assert forall|i: int, j: int| 0 <= i < j < answer.len() implies key(#[trigger] answer[i])
            < key(#[trigger] answer[j]) by {
            if j < before.len() {
                assert(answer[i] == before[i]);
                assert(answer[j] == before[j]);
            } else {
                assert(answer[j] == last);
                assert(answer[i] == before[i]);
                lemma_match_is_row(front, pred, i);
                let m = choose|m: int| 0 <= m < front.len() && #[trigger] front[m] == before[i];
                assert(rows[m] == front[m]);
                assert(rows[rows.len() - 1] == last);
            }
        }
    }
}

/// A query that every row matches yields the whole table.
pub proof fn lemma_all_match<T>(rows: Seq<T>, pred: spec_fn(T) -> bool)
    requires
        forall|i: int| 0 <= i < rows.len() ==> pred(#[trigger] rows[i]),
    ensures
        rows.filter(pred) == rows,
    decreases rows.len(),
{
    reveal(Seq::filter);
    if rows.len() > 0 {
        let front = rows.drop_last();
        assert forall|i: int| 0 <= i < front.len() implies pred(#[trigger] front[i]) by {
            assert(front[i] == rows[i]);
        }
        lemma_all_match(front, pred);
        assert(pred(rows[rows.len() - 1]));
        assert(front.push(rows.last()) =~= rows);
    }
}

/// Asking a query of its own answer yields that answer.
pub proof fn lemma_filter_twice<T>(rows: Seq<T>, pred: spec_fn(T) -> bool)
    ensures
        rows.filter(pred).filter(pred) == rows.filter(pred),
{
    let once = rows.filter(pred);
    assert forall|k: int| 0 <= k < once.len() implies pred(#[trigger] once[k]) by {
        lemma_match_is_row(rows, pred, k);
    }
    lemma_all_match(once, pred);
}

/// The answer to one query holds no more matches of another than the table
/// does.
pub proof fn lemma_count_after_filter<T>(
    rows: Seq<T>,
    kept: spec_fn(T) -> bool,
    pred: spec_fn(T) -> bool,
)
    ensures
        rows.filter(kept).filter(pred).len() <= rows.filter(pred).len(),
    decreases rows.len(),
{
    reveal(Seq::filter);
    if rows.len() > 0 {
        let front = rows.drop_last();
        lemma_count_after_filter(front, kept, pred);
        if kept(rows.last()) {
            Seq::lemma_filter_push(front.filter(kept), rows.last(), pred);
        }
    }
}

} // verus!
