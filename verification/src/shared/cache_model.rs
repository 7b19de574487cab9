//! A model of the world an operation runs in, and what holds of every run.
//!
//! The cache is a map from keys to cached values that answers every request
//! and loses nothing; expiry is left out, so what is said of a cached entry
//! holds for as long as the entry lives. The store is any function from
//! calls to answers. Running an operation means performing each action it
//! asks for against that world until it asks to finish.

use vstd::prelude::*;
use crate::shared::cache_aside::{
    ActionView,
    CachedView,
    EventView,
    OutcomeView,
    PlanView,
    PolicyView,
    Response,
    ServiceErrorView,
};
use crate::shared::crud_repository::{CallShape, ProcedureCallView};
use crate::shared::db::mysql::entity_of;
use crate::shared::db::row::{ColumnView, MappingErrorView};
use crate::shared::service::{
    FlowView,
    StepView,
    advance,
    answered,
    begin,
    call_store,
    drop_next,
    finish,
    settle,
};

verus! {

/// What a healthy cache answers to `action`.
pub open spec fn cache_reply<V>(cache: Map<Seq<char>, CachedView<V>>, action: ActionView<V>)
    -> EventView<V> {
    match action {
        ActionView::CacheGet { key, many } => EventView::Cached(
            Ok(
                if cache.dom().contains(key) {
                    Some(cache[key])
                } else {
                    None
                },
            ),
        ),
        ActionView::CacheDelete { key } => EventView::Dropped(Ok(())),
        _ => EventView::Stored(Ok(())),
    }
}

/// The cache after `action` was performed.
pub open spec fn cache_after<V>(cache: Map<Seq<char>, CachedView<V>>, action: ActionView<V>)
    -> Map<Seq<char>, CachedView<V>> {
    match action {
        ActionView::CacheSet { key, value, ttl } => cache.insert(key, value),
        ActionView::CacheDelete { key } => cache.remove(key),
        _ => cache,
    }
}

/// How a run ended: the outcome, the cache it left, and the store calls it
/// made, in order.
pub struct Run<V> {
    pub outcome: OutcomeView<V>,
    pub cache: Map<Seq<char>, CachedView<V>>,
    pub calls: Seq<ProcedureCallView>,
}

/// Runs an operation from `step` on: every cache action is performed on
/// `cache`, every store call is answered by `store`. None where the
/// operation has not ended after `fuel` actions.
pub open spec fn run<R: Response>(
    step: StepView<R::V>,
    cache: Map<Seq<char>, CachedView<R::V>>,
    store: spec_fn(ProcedureCallView) -> EventView<R::V>,
    calls: Seq<ProcedureCallView>,
    fuel: nat,
) -> Option<Run<R::V>>
    decreases fuel,
{
    match step.action {
        ActionView::Finish(outcome) => Some(Run { outcome, cache, calls }),
        ActionView::Call(call) => if fuel == 0 {
            None
        } else {
            run::<R>(
                advance::<R>(step.flow, store(call)),
                cache,
                store,
                calls.push(call),
                (fuel - 1) as nat,
            )
        },
        action => if fuel == 0 {
            None
        } else {
            run::<R>(
                advance::<R>(step.flow, cache_reply(cache, action)),
                cache_after(cache, action),
                store,
                calls,
                (fuel - 1) as nat,
            )
        },
    }
}

/// Whether `outcome` shows something that a read keeps in the cache.
pub open spec fn shows<V>(outcome: OutcomeView<V>) -> bool {
    outcome is Found || outcome is Listed
}

/// A read never needs more than this many actions.
pub open spec fn read_fuel() -> nat {
    4
}

/// After a read that missed the cache and found something, the same read is
/// answered from the cache: it gives the same data, leaves the cache as it
/// is, and makes no store call, whatever the store would answer by then.
pub proof fn read_fills_cache_then_hits<R: Response>(
    plan: PlanView,
    key: Seq<char>,
    cache: Map<Seq<char>, CachedView<R::V>>,
    store: spec_fn(ProcedureCallView) -> EventView<R::V>,
    later_store: spec_fn(ProcedureCallView) -> EventView<R::V>,
)
    requires
        plan.policy == (PolicyView::ReadThrough { key }),
        !cache.dom().contains(key),
        run::<R>(begin(plan), cache, store, Seq::empty(), read_fuel()) matches Some(first) && shows(
            first.outcome,
        ),
    ensures
        ({
            let first = run::<R>(begin(plan), cache, store, Seq::empty(), read_fuel())->Some_0;
            &&& first.calls == seq![plan.call]
            &&& first.cache.dom().contains(key)
            &&& run::<R>(begin(plan), first.cache, later_store, Seq::empty(), read_fuel()) == Some(
                Run { outcome: first.outcome, cache: first.cache, calls: Seq::empty() },
            )
        }),
{
    reveal_with_fuel(run, 5);
    let asked = begin::<R::V>(plan);
    let missed = advance::<R>(asked.flow, cache_reply(cache, asked.action));
    assert(missed.action == ActionView::<R::V>::Call(plan.call));
    let answer = answered::<R>(plan, store(plan.call));
    let calls = Seq::<ProcedureCallView>::empty().push(plan.call);
    assert(calls =~= seq![plan.call]);
    let settled = advance::<R>(missed.flow, store(plan.call));
    match answer {
        None => {
            assert(settled == finish::<R::V>(
                plan,
                OutcomeView::Failed(ServiceErrorView::Protocol),
            ));
        },
        Some(outcome) => {
            assert(settled == settle::<R>(plan, outcome));
            if shows(outcome) {
                let kept = cache_after(cache, settled.action);
                let stored = advance::<R>(settled.flow, cache_reply(cache, settled.action));
                assert(stored == finish::<R::V>(plan, outcome));
                assert(kept.dom().contains(key));
            }
        },
    }
}

/// The cache without the entries under `keys`.
pub open spec fn without<V>(cache: Map<Seq<char>, CachedView<V>>, keys: Seq<Seq<char>>) -> Map<
    Seq<char>,
    CachedView<V>,
>
    decreases keys.len(),
{
    if keys.len() == 0 {
        cache
    } else {
        without(cache.remove(keys[0]), keys.skip(1))
    }
}

/// Dropping keys removes exactly those keys and changes no other entry.
pub proof fn lemma_without<V>(
    cache: Map<Seq<char>, CachedView<V>>,
    keys: Seq<Seq<char>>,
    k: Seq<char>,
)
    ensures
        without(cache, keys).dom().contains(k) <==> cache.dom().contains(k) && !keys.contains(k),
        without(cache, keys).dom().contains(k) ==> without(cache, keys)[k] == cache[k],
    decreases keys.len(),
{
    if keys.len() > 0 {
        lemma_without(cache.remove(keys[0]), keys.skip(1), k);
        if keys.contains(k) {
            let i = choose|i: int| 0 <= i < keys.len() && keys[i] == k;
            if i > 0 {
                assert(keys.skip(1)[i - 1] == k);
            }
        }
        if keys.skip(1).contains(k) {
            let i = choose|i: int| 0 <= i < keys.skip(1).len() && keys.skip(1)[i] == k;
            assert(keys[i + 1] == k);
        }
    }
}

/// Once the store has answered, an operation that still has `stale` keys to
/// drop ends with the outcome it holds, in a cache without those keys, and
/// makes no further store call.
pub proof fn lemma_drops<R: Response>(
    plan: PlanView,
    stale: Seq<Seq<char>>,
    outcome: OutcomeView<R::V>,
    cache: Map<Seq<char>, CachedView<R::V>>,
    store: spec_fn(ProcedureCallView) -> EventView<R::V>,
    calls: Seq<ProcedureCallView>,
    fuel: nat,
)
    requires
        run::<R>(drop_next(plan, stale, outcome), cache, store, calls, fuel) is Some,
    ensures
        run::<R>(drop_next(plan, stale, outcome), cache, store, calls, fuel) == Some(
            Run { outcome, cache: without(cache, stale), calls },
        ),
    decreases stale.len(),
{
    reveal_with_fuel(run, 2);
    if stale.len() > 0 {
        let step = drop_next(plan, stale, outcome);
        let next = advance::<R>(step.flow, cache_reply(cache, step.action));
        assert(next == drop_next(plan, stale.skip(1), outcome));
        lemma_drops::<R>(
            plan,
            stale.skip(1),
            outcome,
            cache.remove(stale[0]),
            store,
            calls,
            (fuel - 1) as nat,
        );
    }
}

/// After a create or an update that succeeded, the cache holds the entity as
/// the store answered it and none of the lists that hold it. A read of the
/// entity is then answered from the cache with that same state, without a
/// store call.
///
/// This asks that the entity's own key is not also the key of one of its
/// lists.
pub proof fn write_is_seen_by_read<R: Response>(
    write: PlanView,
    read: PlanView,
    cache: Map<Seq<char>, CachedView<R::V>>,
    store: spec_fn(ProcedureCallView) -> EventView<R::V>,
    later_store: spec_fn(ProcedureCallView) -> EventView<R::V>,
    fuel: nat,
)
    requires
        write.policy == PolicyView::WriteThrough,
        read.call.shape != CallShape::FetchList,
        run::<R>(begin(write), cache, store, Seq::empty(), fuel) matches Some(done)
            && done.outcome matches OutcomeView::Found(response) && read.policy == (
        PolicyView::ReadThrough { key: R::key_of(response) }) && !R::list_keys_of(
            response,
        ).contains(R::key_of(response)),
    ensures
        ({
            let done = run::<R>(begin(write), cache, store, Seq::empty(), fuel)->Some_0;
            let response = done.outcome->Found_0;
            &&& done.calls == seq![write.call]
            &&& done.cache == without(
                cache.insert(R::key_of(response), CachedView::One(response)),
                R::list_keys_of(response),
            )
            &&& forall|k: Seq<char>| #[trigger]
                R::list_keys_of(response).contains(k) ==> !done.cache.dom().contains(k)
            &&& run::<R>(begin(read), done.cache, later_store, Seq::empty(), read_fuel()) == Some(
                Run { outcome: done.outcome, cache: done.cache, calls: Seq::empty() },
            )
        }),
{
    reveal_with_fuel(run, 5);
    let called = begin::<R::V>(write);
    let calls = Seq::<ProcedureCallView>::empty().push(write.call);
    assert(calls =~= seq![write.call]);
    let settled = advance::<R>(called.flow, store(write.call));
    match answered::<R>(write, store(write.call)) {
        None => {},
        Some(outcome) => {
            assert(settled == settle::<R>(write, outcome));
            match outcome {
                OutcomeView::Found(response) => {
                    let kept = cache.insert(R::key_of(response), CachedView::One(response));
                    let stale = R::list_keys_of(response);
                    let stored = advance::<R>(settled.flow, cache_reply(cache, settled.action));
                    assert(stored == drop_next(write, stale, outcome));
                    lemma_drops::<R>(write, stale, outcome, kept, store, calls, (fuel - 2) as nat);
                    lemma_without(kept, stale, R::key_of(response));
                    assert forall|k: Seq<char>| #[trigger] stale.contains(k) implies !without(
                        kept,
                        stale,
                    ).dom().contains(k) by {
                        lemma_without(kept, stale, k);
                    }
                },
                _ => {},
            }
        },
    }
}

/// Create, then get: what a create showed, the read that follows shows
/// again.
///
/// The store keeps what it was given: it answers the create with a row
/// and, nothing else having written since, the read of that entity with
/// the same row. Then the create shows the entity of that row, and the read
/// shows it too: out of the cache and without a store call where the
/// service has a cache, out of the store where it has none.
///
/// With a cache this asks that the entity's own key is not also the key of
/// one of its lists.
pub proof fn created_is_read_back<R: Response>(
    create: PlanView,
    read: PlanView,
    row: Seq<ColumnView>,
    response: R::V,
    cache: Map<Seq<char>, CachedView<R::V>>,
    store: spec_fn(ProcedureCallView) -> EventView<R::V>,
    fuel: nat,
)
    requires
        create.call.shape == CallShape::FetchOne,
        read.call.shape == CallShape::FetchOptional,
        store(create.call) == EventView::<R::V>::One(Ok(row)),
        store(read.call) == EventView::<R::V>::Row(Ok(Some(row))),
        entity_of::<R::Entity>(row) is Ok,
        R::of_entity(entity_of::<R::Entity>(row)->Ok_0) == Ok::<R::V, MappingErrorView>(response),
        (create.policy == PolicyView::WriteThrough && read.policy == (PolicyView::ReadThrough {
            key: R::key_of(response),
        }) && !R::list_keys_of(response).contains(R::key_of(response))) || (create.policy
            == PolicyView::Bypass && read.policy == PolicyView::Bypass),
        fuel >= 2 + R::list_keys_of(response).len(),
    ensures
        run::<R>(begin(create), cache, store, Seq::empty(), fuel) is Some,
        ({
            let created = run::<R>(begin(create), cache, store, Seq::empty(), fuel)->Some_0;
            let got = run::<R>(begin(read), created.cache, store, Seq::empty(), read_fuel());
            &&& created.outcome == OutcomeView::Found(response)
            &&& created.calls == seq![create.call]
            &&& got is Some
            &&& got->Some_0.outcome == OutcomeView::Found(response)
            &&& create.policy == PolicyView::WriteThrough ==> got->Some_0.calls
                == Seq::<ProcedureCallView>::empty()
        }),
{
    reveal_with_fuel(run, 5);
    let outcome = OutcomeView::<R::V>::Found(response);
    let called = begin::<R::V>(create);
    let calls = Seq::<ProcedureCallView>::empty().push(create.call);
    assert(calls =~= seq![create.call]);
    assert(answered::<R>(create, store(create.call)) == Some(outcome));
    assert(answered::<R>(read, store(read.call)) == Some(outcome));
    let settled = advance::<R>(called.flow, store(create.call));
    assert(settled == settle::<R>(create, outcome));
    if create.policy == PolicyView::WriteThrough {
        let kept = cache.insert(R::key_of(response), CachedView::One(response));
        let stale = R::list_keys_of(response);
        let stored = advance::<R>(settled.flow, cache_reply(cache, settled.action));
        assert(stored == drop_next(create, stale, outcome));
        lemma_drops_end::<R>(create, stale, outcome, kept, store, calls, (fuel - 2) as nat);
        lemma_drops::<R>(create, stale, outcome, kept, store, calls, (fuel - 2) as nat);
        write_is_seen_by_read::<R>(create, read, cache, store, store, fuel);
    } else {
        let asked = begin::<R::V>(read);
        let answer = advance::<R>(asked.flow, store(read.call));
        assert(answer == finish::<R::V>(read, outcome));
    }
}

/// After a delete that the store carried out, none of its keys is in the
/// cache. A read under one of them misses the cache and calls the store, so
/// it shows what the store holds by then.
pub proof fn delete_is_seen_by_read<R: Response>(
    delete: PlanView,
    keys: Seq<Seq<char>>,
    read: PlanView,
    key: Seq<char>,
    cache: Map<Seq<char>, CachedView<R::V>>,
    store: spec_fn(ProcedureCallView) -> EventView<R::V>,
    fuel: nat,
)
    requires
        delete.policy == (PolicyView::Invalidate { keys }),
        delete.call.shape == CallShape::Execute,
        read.policy == (PolicyView::ReadThrough { key }),
        keys.contains(key),
        store(delete.call) == EventView::<R::V>::Executed(Ok(())),
        run::<R>(begin(delete), cache, store, Seq::empty(), fuel) is Some,
    ensures
        ({
            let done = run::<R>(begin(delete), cache, store, Seq::empty(), fuel)->Some_0;
            let asked = begin::<R::V>(read);
            &&& done.outcome == OutcomeView::<R::V>::Done
            &&& done.calls == seq![delete.call]
            &&& done.cache == without(cache, keys)
            &&& forall|k: Seq<char>| #[trigger] keys.contains(k) ==> !done.cache.dom().contains(k)
            &&& cache_reply(done.cache, asked.action) == EventView::<R::V>::Cached(Ok(None))
            &&& advance::<R>(asked.flow, cache_reply(done.cache, asked.action)) == call_store::<
                R::V,
            >(read)
        }),
{
    reveal_with_fuel(run, 2);
    let called = begin::<R::V>(delete);
    let calls = Seq::<ProcedureCallView>::empty().push(delete.call);
    assert(calls =~= seq![delete.call]);
    let outcome = OutcomeView::<R::V>::Done;
    let settled = advance::<R>(called.flow, store(delete.call));
    assert(settled == drop_next(delete, keys, outcome));
    lemma_drops::<R>(delete, keys, outcome, cache, store, calls, (fuel - 1) as nat);
    assert forall|k: Seq<char>| #[trigger] keys.contains(k) implies !without(
        cache,
        keys,
    ).dom().contains(k) by {
        lemma_without(cache, keys, k);
    }
}

/// Delete, then get: after a delete that the store carried out, a read of
/// the entity from a store that no longer holds it ends as not found,
/// whatever the cache held before the delete. The read asks the store once
/// and caches nothing.
pub proof fn deleted_is_not_found<R: Response>(
    delete: PlanView,
    keys: Seq<Seq<char>>,
    read: PlanView,
    key: Seq<char>,
    cache: Map<Seq<char>, CachedView<R::V>>,
    store: spec_fn(ProcedureCallView) -> EventView<R::V>,
    later_store: spec_fn(ProcedureCallView) -> EventView<R::V>,
    fuel: nat,
)
    requires
        delete.policy == (PolicyView::Invalidate { keys }),
        delete.call.shape == CallShape::Execute,
        read.policy == (PolicyView::ReadThrough { key }),
        read.call.shape == CallShape::FetchOptional,
        keys.contains(key),
        store(delete.call) == EventView::<R::V>::Executed(Ok(())),
        later_store(read.call) == EventView::<R::V>::Row(Ok(None)),
        fuel >= 1 + keys.len(),
    ensures
        run::<R>(begin(delete), cache, store, Seq::empty(), fuel) is Some,
        ({
            let done = run::<R>(begin(delete), cache, store, Seq::empty(), fuel)->Some_0;
            &&& done.outcome == OutcomeView::<R::V>::Done
            &&& run::<R>(begin(read), done.cache, later_store, Seq::empty(), read_fuel()) == Some(
                Run {
                    outcome: OutcomeView::<R::V>::NotFound,
                    cache: done.cache,
                    calls: seq![read.call],
                },
            )
        }),
{
    reveal_with_fuel(run, 3);
    let calls = Seq::<ProcedureCallView>::empty().push(delete.call);
    let settled = advance::<R>(begin::<R::V>(delete).flow, store(delete.call));
    assert(settled == drop_next(delete, keys, OutcomeView::<R::V>::Done));
    lemma_drops_end::<R>(
        delete,
        keys,
        OutcomeView::<R::V>::Done,
        cache,
        store,
        calls,
        (fuel - 1) as nat,
    );
    delete_is_seen_by_read::<R>(delete, keys, read, key, cache, store, fuel);
    assert(Seq::<ProcedureCallView>::empty().push(read.call) =~= seq![read.call]);
}

/// A delete that the store did not carry out leaves the cache as it was,
/// and ends with the plan's own failure text.
pub proof fn failed_delete_leaves_cache<R: Response>(
    delete: PlanView,
    keys: Seq<Seq<char>>,
    cache: Map<Seq<char>, CachedView<R::V>>,
    store: spec_fn(ProcedureCallView) -> EventView<R::V>,
)
    requires
        delete.policy == (PolicyView::Invalidate { keys }),
        delete.call.shape == CallShape::Execute,
        store(delete.call) matches EventView::Executed(Err(_)),
    ensures
        run::<R>(begin(delete), cache, store, Seq::empty(), 1) == Some(
            Run {
                outcome: OutcomeView::<R::V>::Failed(ServiceErrorView::Repository(delete.failure)),
                cache,
                calls: seq![delete.call],
            },
        ),
{
    reveal_with_fuel(run, 3);
    assert(Seq::<ProcedureCallView>::empty().push(delete.call) =~= seq![delete.call]);
}

/// A failing cache ends an operation with the plan's own text, whatever the
/// cache client said: two failures that differ in their message give the
/// same outcome.
pub proof fn cache_failure_shows_no_cause<R: Response>(
    flow: FlowView<R::V>,
    one: Seq<char>,
    other: Seq<char>,
)
    ensures
        advance::<R>(flow, EventView::Cached(Err(one))) == advance::<R>(
            flow,
            EventView::Cached(Err(other)),
        ),
        advance::<R>(flow, EventView::Stored(Err(one))) == advance::<R>(
            flow,
            EventView::Stored(Err(other)),
        ),
        advance::<R>(flow, EventView::Dropped(Err(one))) == advance::<R>(
            flow,
            EventView::Dropped(Err(other)),
        ),
        flow.stage is Lookup ==> advance::<R>(flow, EventView::Cached(Err(one))).action
            == ActionView::<R::V>::Finish(
            OutcomeView::Failed(ServiceErrorView::Cache(flow.plan.failure)),
        ),
{
}

/// An update of an identity that the store does not know ends as not found:
/// it is no failure, nothing is cached, and no entity is made up.
pub proof fn update_of_missing_is_not_found<R: Response>(
    plan: PlanView,
    cache: Map<Seq<char>, CachedView<R::V>>,
    store: spec_fn(ProcedureCallView) -> EventView<R::V>,
)
    requires
        plan.policy == PolicyView::WriteThrough || plan.policy == PolicyView::Bypass,
        plan.call.shape == CallShape::FetchOptional,
        store(plan.call) == EventView::<R::V>::Row(Ok(None)),
    ensures
        run::<R>(begin(plan), cache, store, Seq::empty(), 1) == Some(
            Run { outcome: OutcomeView::<R::V>::NotFound, cache, calls: seq![plan.call] },
        ),
{
    reveal_with_fuel(run, 3);
    assert(Seq::<ProcedureCallView>::empty().push(plan.call) =~= seq![plan.call]);
}

/// An operation that still has `stale` keys to drop ends after as many
/// actions as there are keys.
pub proof fn lemma_drops_end<R: Response>(
    plan: PlanView,
    stale: Seq<Seq<char>>,
    outcome: OutcomeView<R::V>,
    cache: Map<Seq<char>, CachedView<R::V>>,
    store: spec_fn(ProcedureCallView) -> EventView<R::V>,
    calls: Seq<ProcedureCallView>,
    fuel: nat,
)
    requires
        fuel >= stale.len(),
    ensures
        run::<R>(drop_next(plan, stale, outcome), cache, store, calls, fuel) is Some,
    decreases stale.len(),
{
    reveal_with_fuel(run, 2);
    if stale.len() > 0 {
        let step = drop_next(plan, stale, outcome);
        let next = advance::<R>(step.flow, cache_reply(cache, step.action));
        assert(next == drop_next(plan, stale.skip(1), outcome));
        lemma_drops_end::<R>(
            plan,
            stale.skip(1),
            outcome,
            cache.remove(stale[0]),
            store,
            calls,
            (fuel - 1) as nat,
        );
    }
}

/// The largest number of keys that an operation may have to drop: those of
/// a delete, or the lists that hold the entity that the store answered.
pub open spec fn keys_to_drop<R: Response>(
    plan: PlanView,
    store: spec_fn(ProcedureCallView) -> EventView<R::V>,
) -> nat {
    match plan.policy {
        PolicyView::Invalidate { keys } => keys.len(),
        PolicyView::WriteThrough => match answered::<R>(plan, store(plan.call)) {
            Some(OutcomeView::Found(response)) => R::list_keys_of(response).len(),
            _ => 0,
        },
        _ => 0,
    }
}

/// Every operation ends: against a cache that answers and whatever the
/// store answers, it asks to finish after at most three actions and the
/// keys it has to drop.
pub proof fn every_operation_ends<R: Response>(
    plan: PlanView,
    cache: Map<Seq<char>, CachedView<R::V>>,
    store: spec_fn(ProcedureCallView) -> EventView<R::V>,
    fuel: nat,
)
    requires
        fuel >= 3 + keys_to_drop::<R>(plan, store),
    ensures
        run::<R>(begin(plan), cache, store, Seq::empty(), fuel) is Some,
{
    reveal_with_fuel(run, 4);
    let first = begin::<R::V>(plan);
    let calls = Seq::<ProcedureCallView>::empty().push(plan.call);
    match plan.policy {
        PolicyView::ReadThrough { key } => {
            let looked = advance::<R>(first.flow, cache_reply(cache, first.action));
            if looked.action is Call {
                let settled = advance::<R>(looked.flow, store(plan.call));
                if settled.action is CacheSet {
                    let stored = advance::<R>(settled.flow, cache_reply(cache, settled.action));
                    assert(stored.action is Finish);
                }
            }
        },
        PolicyView::Bypass => {},
        PolicyView::WriteThrough => {
            let settled = advance::<R>(first.flow, store(plan.call));
            match answered::<R>(plan, store(plan.call)) {
                Some(OutcomeView::Found(response)) => {
                    let outcome = OutcomeView::<R::V>::Found(response);
                    let kept = cache_after(cache, settled.action);
                    let stored = advance::<R>(settled.flow, cache_reply(cache, settled.action));
                    assert(stored == drop_next(plan, R::list_keys_of(response), outcome));
                    lemma_drops_end::<R>(
                        plan,
                        R::list_keys_of(response),
                        outcome,
                        kept,
                        store,
                        calls,
                        (fuel - 2) as nat,
                    );
                },
                _ => {},
            }
        },
        PolicyView::Invalidate { keys } => {
            let settled = advance::<R>(first.flow, store(plan.call));
            match answered::<R>(plan, store(plan.call)) {
                Some(OutcomeView::Done) => {
                    let outcome = OutcomeView::<R::V>::Done;
                    assert(settled == drop_next(plan, keys, outcome));
                    lemma_drops_end::<R>(
                        plan,
                        keys,
                        outcome,
                        cache,
                        store,
                        calls,
                        (fuel - 1) as nat,
                    );
                },
                _ => {},
            }
        },
    }
}

} // verus!
