//! What a store does, told as a history.
//!
//! The slot of a store is one atomic pointer, so each call on it takes effect
//! at one instant, however many callers are at work; that is the promise of
//! the atomic swap, and it is taken as given here. The calls of all callers
//! then form one sequence. This module says what is current after such a
//! sequence and what each `load` in it observes, and proves, for every
//! sequence, what readers and writers can rely on.

use crate::rule::Rule;
use vstd::prelude::*;

verus! {

/// One call on a store, whoever made it.
pub enum Call<T> {
    /// A `load`.
    Load,
    /// A `store` of the given snapshot.
    Store(T),
}

/// The snapshot that is current once `calls` have taken effect, in this
/// order, on a store that was set up with `initial`.
pub open spec fn current<T>(initial: T, calls: Seq<Call<T>>) -> T
    decreases calls.len(),
{
    if calls.len() == 0 {
        initial
    } else {
        match calls.last() {
            Call::Store(snapshot) => snapshot,
            Call::Load => current(initial, calls.drop_last()),
        }
    }
}

/// What the call at position `at` finds in the store: the snapshot that is
/// current after the calls before it. Where that call is a `load`, this is
/// the snapshot it returns.
pub open spec fn observed<T>(initial: T, calls: Seq<Call<T>>, at: int) -> T {
    current(initial, calls.take(at))
}

/// Whether `snapshot` was published before position `at`: the store was set
/// up with it, or an earlier call stored it.
pub open spec fn published_before<T>(initial: T, calls: Seq<Call<T>>, at: int, snapshot: T) -> bool {
    snapshot == initial || exists|i: int|
        0 <= i < at && #[trigger] calls[i] == Call::Store(snapshot)
}

/// Whether, of the calls before position `at`, the one at `latest` is the
/// last that stores.
pub open spec fn latest_store_before<T>(calls: Seq<Call<T>>, at: int, latest: int) -> bool {
    &&& 0 <= latest < at
    &&& calls[latest] is Store
    &&& forall|j: int| latest < j < at ==> #[trigger] calls[j] is Load
}

/// Among the calls before `at` one stores; so one of them is the last to.
proof fn lemma_latest_store_exists<T>(calls: Seq<Call<T>>, at: int, stored_at: int) -> (latest: int)
    requires
        0 <= stored_at < at <= calls.len(),
        calls[stored_at] is Store,
    ensures
        stored_at <= latest,
        latest_store_before(calls, at, latest),
    decreases at - stored_at,
{
    if exists|j: int| stored_at < j < at && #[trigger] calls[j] is Store {
        let next = choose|j: int| stored_at < j < at && #[trigger] calls[j] is Store;
        lemma_latest_store_exists(calls, at, next)
    } else {
        stored_at
    }
}

/// The last writer wins. What is current is what the last `store` was given,
/// whatever was stored before it and however many calls loaded since; where no
/// call stored, the initial snapshot is still current. Nothing is ever merged.
pub proof fn last_store_decides<T>(initial: T, calls: Seq<Call<T>>)
    ensures
        (forall|j: int| 0 <= j < calls.len() ==> #[trigger] calls[j] is Load) ==> current(
            initial,
            calls,
        ) == initial,
        forall|latest: int| #[trigger]
            latest_store_before(calls, calls.len() as int, latest) ==> current(initial, calls)
                == calls[latest]->Store_0,
    decreases calls.len(),
{
    if calls.len() > 0 {
        let before = calls.drop_last();
        last_store_decides(initial, before);
        assert forall|latest: int| #[trigger]
            latest_store_before(calls, calls.len() as int, latest) implies current(initial, calls)
            == calls[latest]->Store_0 by {
            if calls.last() is Load {
                assert(latest_store_before(before, before.len() as int, latest));
            }
        }
    }
}

/// Every `load` returns a snapshot that was published before it: the initial
/// one, or one that an earlier `store` was given. This holds of every sequence
/// of calls, so of every way in which the calls of any number of callers fall
/// into order.
pub proof fn load_returns_a_published_snapshot<T>(initial: T, calls: Seq<Call<T>>, at: int)
    requires
        0 <= at <= calls.len(),
    ensures
        published_before(initial, calls, at, observed(initial, calls, at)),
    decreases at,
{
    if at > 0 && calls[at - 1] is Load {
        load_returns_a_published_snapshot(initial, calls, at - 1);
        assert(calls.take(at).drop_last() == calls.take(at - 1));
    }
}

/// Where a rule admits every snapshot that a call stores, each `load` returns
/// the initial snapshot or one that the rule admits. This is what the contract
/// of `ConfigStore::load` promises.
pub proof fn load_returns_the_initial_or_an_admitted_snapshot<T, R: Rule<T>>(
    initial: T,
    calls: Seq<Call<T>>,
    at: int,
)
    requires
        0 <= at <= calls.len(),
        forall|i: int|
            0 <= i < calls.len() && #[trigger] calls[i] is Store ==> R::admits(calls[i]->Store_0),
    ensures
        observed(initial, calls, at) == initial || R::admits(observed(initial, calls, at)),
{
    load_returns_a_published_snapshot(initial, calls, at);
}

/// Once a `store` has taken effect, every later `load` returns the snapshot of
/// the last `store` before that `load`; and this `store` is the given one or a
/// later one, never an earlier one. Where no call in between stores, the
/// `load` returns the very snapshot that the given `store` published.
pub proof fn load_after_store_returns_it_or_a_later_one<T>(
    initial: T,
    calls: Seq<Call<T>>,
    stored_at: int,
    at: int,
)
    requires
        0 <= stored_at < at <= calls.len(),
        calls[stored_at] is Store,
    ensures
        exists|latest: int|
            stored_at <= latest && #[trigger] latest_store_before(calls, at, latest) && observed(
                initial,
                calls,
                at,
            ) == calls[latest]->Store_0,
        (forall|j: int| stored_at < j < at ==> #[trigger] calls[j] is Load) ==> observed(
            initial,
            calls,
            at,
        ) == calls[stored_at]->Store_0,
{
    let seen = calls.take(at);
    let latest = lemma_latest_store_exists(calls, at, stored_at);
    last_store_decides(initial, seen);
    assert(latest_store_before(seen, seen.len() as int, latest));
}

/// Two calls observe different snapshots only where a `store` took effect
/// between them: calls that no `store` separates observe the same snapshot.
pub proof fn calls_without_a_store_between_observe_the_same<T>(
    initial: T,
    calls: Seq<Call<T>>,
    first: int,
    second: int,
)
    requires
        0 <= first <= second <= calls.len(),
        forall|j: int| first <= j < second ==> #[trigger] calls[j] is Load,
    ensures
        observed(initial, calls, second) == observed(initial, calls, first),
    decreases second - first,
{
    if first < second {
        calls_without_a_store_between_observe_the_same(initial, calls, first, second - 1);
        assert(calls.take(second).drop_last() == calls.take(second - 1));
    }
}

/// What a call observed stays what it was, whatever calls follow: a handle
/// taken before a `store` still shows the snapshot it was taken for, while a
/// `load` after that `store` returns the new one.
pub proof fn observation_outlasts_later_calls<T>(
    initial: T,
    calls: Seq<Call<T>>,
    at: int,
    later: Seq<Call<T>>,
)
    requires
        0 <= at <= calls.len(),
    ensures
        observed(initial, calls + later, at) == observed(initial, calls, at),
{
    assert((calls + later).take(at) == calls.take(at));
}

} // verus!
