//! What holds of a store across several operations and several readers.
use crate::state::{opt_seq, ReadStep, StreamState};
use crate::stream::reader_step;
use vstd::pervasive::cloned;
use vstd::prelude::*;

verus! {

/// After the first `k` appends of `values` to an empty open store, the store
/// holds the first `k` of them.
proof fn lemma_appended_prefix<T>(values: Seq<T>, stores: Seq<StreamState<T>>, k: int)
    requires
        stores.len() == values.len() + 1,
        stores[0].values() == Seq::<T>::empty(),
        forall|j: int| 0 <= j < values.len() ==> #[trigger] stores[j].push_spec(values[j], stores[j + 1]),
        0 <= k <= values.len(),
    ensures
        stores[k].values() == values.take(k),
    decreases k,
{
    if k > 0 {
        lemma_appended_prefix(values, stores, k - 1);
        let j = k - 1;
        assert(stores[j].push_spec(values[j], stores[j + 1]));
        assert(values.take(k) =~= values.take(k - 1).push(values[k - 1]));
    } else {
        assert(values.take(0) =~= Seq::<T>::empty());
    }
}

/// Appending `values` one by one to an empty open store and then freezing it
/// leaves a frozen store that holds exactly `values`, in order.
///
/// `stores[k]` is the store after the first `k` appends.
pub proof fn lemma_appends_then_freeze<T>(values: Seq<T>, stores: Seq<StreamState<T>>, frozen: StreamState<T>)
    requires
        stores.len() == values.len() + 1,
        stores[0] is OpenWritable,
        stores[0].values() == Seq::<T>::empty(),
        forall|k: int| 0 <= k < values.len() ==> #[trigger] stores[k].push_spec(values[k], stores[k + 1]),
        stores.last().close_spec(None, frozen),
    ensures
        frozen is Closed,
        frozen.values() == values,
{
    lemma_appended_prefix(values, stores, values.len() as int);
    assert(values.take(values.len() as int) =~= values);
    assert(frozen.values() =~= stores.last().values() + opt_seq::<T>(None));
}

/// Freezing with a final value leaves the same frozen values as appending
/// that value and then freezing without one.
pub proof fn lemma_close_with_final<T>(
    open: StreamState<T>,
    value: T,
    closed_at_once: StreamState<T>,
    appended: StreamState<T>,
    closed_after: StreamState<T>,
)
    requires
        open is OpenWritable,
        open.close_spec(Some(value), closed_at_once),
        open.push_spec(value, appended),
        appended.close_spec(None, closed_after),
    ensures
        closed_at_once is Closed,
        closed_after is Closed,
        closed_at_once.values() == closed_after.values(),
{
    assert(closed_at_once.values() =~= closed_after.values());
}

/// Once a reader has been told that there are no more values, every further
/// poll of it tells the same, and neither the store nor the cursor moves.
pub proof fn lemma_done_is_final<T: Clone>(
    pre: StreamState<T>,
    cursor: nat,
    post: StreamState<T>,
    next: nat,
    step: ReadStep<T>,
    after: StreamState<T>,
    last: nat,
)
    requires
        reader_step(pre, cursor, ReadStep::Done, post, next),
        reader_step(post, next, step, after, last),
    ensures
        step is Done,
        after == post,
        last == next,
{
}

/// Polling a reader at cursor `start` on a frozen store delivers the frozen
/// values from `start` on, one per poll, each once and in order, and then
/// only reports that there are no more.
///
/// `stores[k]` and `cursors[k]` are the store and the cursor before poll `k`,
/// which receives `steps[k]`.
pub proof fn lemma_replay<T: Clone>(
    stores: Seq<StreamState<T>>,
    cursors: Seq<nat>,
    steps: Seq<ReadStep<T>>,
)
    requires
        stores.len() == steps.len() + 1,
        cursors.len() == steps.len() + 1,
        stores[0] is Closed,
        cursors[0] <= stores[0].values().len(),
        forall|k: int|
            0 <= k < steps.len() ==> #[trigger] reader_step(
                stores[k],
                cursors[k],
                steps[k],
                stores[k + 1],
                cursors[k + 1],
            ),
    ensures
        forall|k: int| 0 <= k < stores.len() ==> #[trigger] stores[k] == stores[0],
        forall|k: int|
            0 <= k < steps.len() && cursors[0] + k < stores[0].values().len() ==> {
                &&& #[trigger] steps[k] is Ready
                &&& cloned(stores[0].values()[cursors[0] + k], steps[k]->Ready_0)
            },
        forall|k: int|
            0 <= k < steps.len() && cursors[0] + k >= stores[0].values().len() ==> #[trigger] steps[k] is Done,
{
    let n = stores[0].values().len();
    assert forall|k: int| 0 <= k < stores.len() implies #[trigger] stores[k] == stores[0]
        && cursors[k] == if cursors[0] + k < n { cursors[0] + k } else { n as int } by {
        lemma_replay_upto(stores, cursors, steps, k);
    }
    assert forall|k: int| 0 <= k < steps.len() && cursors[0] + k < n implies {
        &&& #[trigger] steps[k] is Ready
        &&& cloned(stores[0].values()[cursors[0] + k], steps[k]->Ready_0)
    } by {
        lemma_replay_upto(stores, cursors, steps, k);
        assert(reader_step(stores[k], cursors[k], steps[k], stores[k + 1], cursors[k + 1]));
    }
    assert forall|k: int| 0 <= k < steps.len() && cursors[0] + k >= n implies #[trigger] steps[k] is Done by {
        lemma_replay_upto(stores, cursors, steps, k);
        assert(reader_step(stores[k], cursors[k], steps[k], stores[k + 1], cursors[k + 1]));
    }
}

proof fn lemma_replay_upto<T: Clone>(
    stores: Seq<StreamState<T>>,
    cursors: Seq<nat>,
    steps: Seq<ReadStep<T>>,
    k: int,
)
    requires
        stores.len() == steps.len() + 1,
        cursors.len() == steps.len() + 1,
        stores[0] is Closed,
        cursors[0] <= stores[0].values().len(),
        forall|j: int|
            0 <= j < steps.len() ==> #[trigger] reader_step(
                stores[j],
                cursors[j],
                steps[j],
                stores[j + 1],
                cursors[j + 1],
            ),
        0 <= k < stores.len(),
    ensures
        stores[k] == stores[0],
        cursors[k] == if cursors[0] + k < stores[0].values().len() {
            cursors[0] + k
        } else {
            stores[0].values().len() as int
        },
    decreases k,
{
    if k > 0 {
        lemma_replay_upto(stores, cursors, steps, k - 1);
        let j = k - 1;
        assert(reader_step(stores[j], cursors[j], steps[j], stores[j + 1], cursors[j + 1]));
    }
}

/// Every operation on a store keeps the values it held and can only add new
/// ones at the end: appending, freezing, and any read at any position.
pub proof fn lemma_operations_only_append<T: Clone>(
    pre: StreamState<T>,
    value: T,
    last: Option<T>,
    index: int,
    step: ReadStep<T>,
    post: StreamState<T>,
)
    ensures
        pre.push_spec(value, post) ==> pre.values().is_prefix_of(post.values()),
        pre.close_spec(last, post) ==> pre.values().is_prefix_of(post.values()),
        pre.read_spec(index, step, post) ==> pre.values().is_prefix_of(post.values()),
{
}

/// Along a history in which each store only appends to the one before, every
/// store's values are a prefix of every later store's.
proof fn lemma_history_prefix<T>(history: Seq<StreamState<T>>, i: int, j: int)
    requires
        forall|k: int|
            0 <= k < history.len() - 1 ==> (#[trigger] history[k]).values().is_prefix_of(
                history[k + 1].values(),
            ),
        0 <= i <= j < history.len(),
    ensures
        history[i].values().is_prefix_of(history[j].values()),
    decreases j - i,
{
    if i < j {
        lemma_history_prefix(history, i + 1, j);
        assert(history[i].values().is_prefix_of(history[i + 1].values()));
    }
}

/// One reader's polls, wherever they fall among the operations of other
/// readers and writers on the same store, deliver the store's values in its
/// one order: each delivered value is a clone of the value that the store
/// finally holds at the reader's cursor, and the cursor moves on by exactly
/// one per delivery, so nothing is skipped, repeated or reordered.
///
/// `history` is the sequence of states of the store, each obtained from the
/// one before by an operation that only appends. The reader's poll `m`
/// happens between `history[at[m]]` and `history[at[m] + 1]`, with cursor
/// `cursors[m]`, and receives `steps[m]`.
pub proof fn lemma_readers_agree<T: Clone>(
    history: Seq<StreamState<T>>,
    at: Seq<int>,
    cursors: Seq<nat>,
    steps: Seq<ReadStep<T>>,
)
    requires
        forall|k: int|
            0 <= k < history.len() - 1 ==> (#[trigger] history[k]).values().is_prefix_of(
                history[k + 1].values(),
            ),
        at.len() == steps.len(),
        cursors.len() == steps.len() + 1,
        forall|m: int| 0 <= m < at.len() ==> 0 <= #[trigger] at[m] && at[m] + 1 < history.len(),
        forall|m: int|
            0 <= m < steps.len() ==> #[trigger] reader_step(
                history[at[m]],
                cursors[m],
                steps[m],
                history[at[m] + 1],
                cursors[m + 1],
            ),
    ensures
        forall|m: int|
            0 <= m < steps.len() && #[trigger] steps[m] is Ready ==> {
                &&& cursors[m] < history.last().values().len()
                &&& cloned(history.last().values()[cursors[m] as int], steps[m]->Ready_0)
                &&& cursors[m + 1] == cursors[m] + 1
            },
        forall|m: int| 0 <= m < steps.len() && !(#[trigger] steps[m] is Ready) ==> cursors[m + 1] == cursors[m],
{
    assert forall|m: int| 0 <= m < steps.len() && #[trigger] steps[m] is Ready implies {
        &&& cursors[m] < history.last().values().len()
        &&& cloned(history.last().values()[cursors[m] as int], steps[m]->Ready_0)
        &&& cursors[m + 1] == cursors[m] + 1
    } by {
        assert(reader_step(history[at[m]], cursors[m], steps[m], history[at[m] + 1], cursors[m + 1]));
        lemma_history_prefix(history, at[m] + 1, history.len() - 1);
    }
    assert forall|m: int| 0 <= m < steps.len() && !(#[trigger] steps[m] is Ready) implies cursors[m + 1]
        == cursors[m] by {
        assert(reader_step(history[at[m]], cursors[m], steps[m], history[at[m] + 1], cursors[m + 1]));
    }
}

} // verus!
