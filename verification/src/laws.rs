//! What holds of the orchestrator's plans, whatever the inputs.

use crate::effects::{
    lemma_orderly_concat, lemma_perform_all_concat, lemma_perform_all_push,
    lemma_subscribe_count_concat, orderly, perform_all, spell_set, subscribe_count, Effect, World,
};
use crate::events::{launch_of, launches_of, reordered, EventLoop, Launch, TriggerEvent};
use crate::outcome::{BuiltinError, FunctionOutcome};
use crate::recovery::{
    lemma_recovery_subscribes_once, planned_effects, recoverable_count, recoveries,
    RegisteredSpell, Skip,
};
use crate::service::{named, resolved, service_named, Builtin, CustomServiceView, ServiceFunction};
use crate::sorcerer::builtin_services;
use crate::spell_builtins::{installation, removal, replacement};
use crate::trigger::{Subscription, TriggerConfig, MAX_PERIOD_SEC};
use crate::worker_builtins::{
    activation, activation_of, deactivation, deactivation_of, teardown, worker_removal,
};
use crate::workers::{
    activated, deactivated, has_worker, is_active, knows_id, lemma_moved_none, lemma_moved_one,
    moved, removed, well_formed, Worker, WorkerState,
};
use serde_json::Value;
use vstd::prelude::*;

verus! {

/// Performing up to three effects is performing one after the other.
proof fn lemma_perform_three(w: World, a: Effect, b: Effect, c: Effect)
    ensures
        perform_all(w, seq![a]) == a.perform(w),
        perform_all(w, seq![a, b]) == b.perform(a.perform(w)),
        perform_all(w, seq![a, b, c]) == c.perform(b.perform(a.perform(w))),
        orderly(w, seq![a]) == a.admissible(w),
        orderly(w, seq![a, b]) == (a.admissible(w) && b.admissible(a.perform(w))),
        orderly(w, seq![a, b, c]) == (a.admissible(w) && b.admissible(a.perform(w)) && c.admissible(
            b.perform(a.perform(w)),
        )),
{
    let none = Seq::<Effect>::empty();
    assert(seq![a, b] =~= none.push(a).push(b));
    assert(seq![a, b, c] =~= none.push(a).push(b).push(c));
    lemma_perform_all_push(w, none, a);
    lemma_perform_all_push(w, none.push(a), b);
    lemma_perform_all_push(w, none.push(a).push(b), c);
}

/// The set of the spells is that of all but the last, and the last.
proof fn lemma_spell_set_last(spells: Seq<String>)
    requires
        spells.len() > 0,
    ensures
        spell_set(spells) == spell_set(spells.drop_last()).insert(spells.last()@),
{
    let rest = spells.drop_last();
    assert forall|id: Seq<char>| spell_set(spells).contains(id) == spell_set(rest).insert(
        spells.last()@,
    ).contains(id) by {
        if spell_set(spells).contains(id) {
            let i = choose|i: int| 0 <= i < spells.len() && (#[trigger] spells[i])@ == id;
            if i < rest.len() {
                assert(rest[i]@ == id);
            }
        }
    }
}

/// Where every spell is recoverable, the recoverable spells are all of them.
proof fn lemma_all_recoverable(spells: Seq<RegisteredSpell>, now_sec: u64)
    requires
        forall|i: int| 0 <= i < spells.len() ==> (#[trigger] spells[i]).recoverable(now_sec),
    ensures
        recoverable_count(spells, now_sec) == spells.len(),
    decreases spells.len(),
{
    if spells.len() > 0 {
        lemma_all_recoverable(spells.drop_last(), now_sec);
    }
}

/// The effects that recovery plans for the last of the spells.
spec fn last_recovery(spells: Seq<RegisteredSpell>, now_sec: u64, metrics: bool) -> Seq<Effect> {
    match spells.last().recovery(now_sec, metrics).outcome {
        Ok(effects) => effects,
        Err(_) => Seq::empty(),
    }
}

/// The effects of recovery are those for all spells but the last, then
/// those for the last.
proof fn lemma_planned_effects_last(spells: Seq<RegisteredSpell>, now_sec: u64, metrics: bool)
    requires
        spells.len() > 0,
    ensures
        planned_effects(recoveries(spells, now_sec, metrics)) == planned_effects(
            recoveries(spells.drop_last(), now_sec, metrics),
        ) + last_recovery(spells, now_sec, metrics),
{
    assert(recoveries(spells, now_sec, metrics).drop_last() =~= recoveries(
        spells.drop_last(),
        now_sec,
        metrics,
    ));
}

/// Recovery asks for one subscription for each spell that is recoverable,
/// and for no other.
pub proof fn law_recovery_subscribes_the_recoverable(
    spells: Seq<RegisteredSpell>,
    now_sec: u64,
    metrics: bool,
)
    ensures
        subscribe_count(planned_effects(recoveries(spells, now_sec, metrics))) == recoverable_count(
            spells,
            now_sec,
        ),
    decreases spells.len(),
{
    if spells.len() > 0 {
        let rest = recoveries(spells.drop_last(), now_sec, metrics);
        lemma_planned_effects_last(spells, now_sec, metrics);
        law_recovery_subscribes_the_recoverable(spells.drop_last(), now_sec, metrics);
        lemma_recovery_subscribes_once(spells.last(), now_sec, metrics);
        lemma_subscribe_count_concat(
            planned_effects(rest),
            last_recovery(spells, now_sec, metrics),
        );
    }
}

/// Where each of the registered spells has a valid trigger configuration
/// that can be rescheduled, recovery asks for as many subscriptions as
/// there are spells, and the recovery of each spell starts with the
/// request to subscribe it to what is left of its configuration.
pub proof fn law_recovery_subscribes_every_valid_spell(
    spells: Seq<RegisteredSpell>,
    now_sec: u64,
    metrics: bool,
)
    requires
        forall|i: int| 0 <= i < spells.len() ==> (#[trigger] spells[i]).recoverable(now_sec),
    ensures
        subscribe_count(planned_effects(recoveries(spells, now_sec, metrics))) == spells.len(),
        forall|i: int|
            0 <= i < spells.len() ==> {
                let recovery = #[trigger] recoveries(spells, now_sec, metrics)[i];
                &&& recovery.spell_id == spells[i].spell_id
                &&& recovery.outcome is Ok
                &&& recovery.outcome->Ok_0.len() > 0
                &&& recovery.outcome->Ok_0[0] == Effect::Subscribe {
                    spell_id: spells[i].spell_id,
                    subscription: spells[i].decision(now_sec)->Ok_0.0,
                }
            },
{
    law_recovery_subscribes_the_recoverable(spells, now_sec, metrics);
    lemma_all_recoverable(spells, now_sec);
}

/// The effects of recovery delete no spell and no worker, and store no
/// configuration: the spell registry, the stored configurations and the
/// worker registry are after them as they were before.
pub proof fn law_recovery_keeps_the_registry(
    w: World,
    spells: Seq<RegisteredSpell>,
    now_sec: u64,
    metrics: bool,
)
    ensures
        perform_all(w, planned_effects(recoveries(spells, now_sec, metrics))).owners == w.owners,
        perform_all(w, planned_effects(recoveries(spells, now_sec, metrics))).configs == w.configs,
        perform_all(w, planned_effects(recoveries(spells, now_sec, metrics))).workers == w.workers,
    decreases spells.len(),
{
    if spells.len() > 0 {
        let rest = planned_effects(recoveries(spells.drop_last(), now_sec, metrics));
        lemma_planned_effects_last(spells, now_sec, metrics);
        law_recovery_keeps_the_registry(w, spells.drop_last(), now_sec, metrics);
        lemma_perform_all_concat(w, rest, last_recovery(spells, now_sec, metrics));
        if let Ok((subscription, period_sec)) = spells.last().decision(now_sec) {
            let first = Effect::Subscribe { spell_id: spells.last().spell_id, subscription };
            let second = Effect::ObserveStartedSpell { period_sec };
            lemma_perform_three(perform_all(w, rest), first, second, second);
        }
    }
}

/// A spell whose trigger configuration is malformed, or cannot be
/// rescheduled, is skipped by recovery: its recovery holds the reason and
/// no effect. It stays in the spell registry, as every spell does.
pub proof fn law_unrecoverable_spell_is_skipped_and_kept(
    w: World,
    spells: Seq<RegisteredSpell>,
    i: int,
    now_sec: u64,
    metrics: bool,
)
    requires
        0 <= i < spells.len(),
        !spells[i].recoverable(now_sec),
    ensures
        recoveries(spells, now_sec, metrics)[i].spell_id == spells[i].spell_id,
        recoveries(spells, now_sec, metrics)[i].outcome is Err,
        perform_all(w, planned_effects(recoveries(spells, now_sec, metrics))).owners == w.owners,
{
    law_recovery_keeps_the_registry(w, spells, now_sec, metrics);
}

/// Where no two of the registered spells share an identifier and none of
/// them has a live subscription, recovery subscribes no spell twice: each
/// request to subscribe meets a spell without subscription, and after
/// recovery a registered spell has a live subscription exactly if it is
/// recoverable.
pub proof fn law_recovery_subscribes_no_spell_twice(
    w: World,
    spells: Seq<RegisteredSpell>,
    now_sec: u64,
    metrics: bool,
)
    requires
        forall|i: int, j: int|
            0 <= i < j < spells.len() ==> (#[trigger] spells[i]).spell_id@ != (
            #[trigger] spells[j]).spell_id@,
        forall|i: int| 0 <= i < spells.len() ==> !w.live.contains_key((#[trigger] spells[i]).spell_id@),
    ensures
        orderly(w, planned_effects(recoveries(spells, now_sec, metrics))),
        forall|i: int|
            0 <= i < spells.len() ==> (perform_all(
                w,
                planned_effects(recoveries(spells, now_sec, metrics)),
            ).live.contains_key((#[trigger] spells[i]).spell_id@) <==> spells[i].recoverable(now_sec)),
        forall|id: Seq<char>|
            (forall|i: int| 0 <= i < spells.len() ==> (#[trigger] spells[i]).spell_id@ != id)
                ==> perform_all(
                w,
                planned_effects(recoveries(spells, now_sec, metrics)),
            ).live.contains_key(id) == w.live.contains_key(id),
    decreases spells.len(),
{
    if spells.len() > 0 {
        let front = spells.drop_last();
        let rest = planned_effects(recoveries(front, now_sec, metrics));
        let tail = last_recovery(spells, now_sec, metrics);
        let last = spells.last();
        lemma_planned_effects_last(spells, now_sec, metrics);
        assert forall|i: int| 0 <= i < front.len() implies !w.live.contains_key(
            (#[trigger] front[i]).spell_id@,
        ) by {}
        assert forall|i: int, j: int| 0 <= i < j < front.len() implies (#[trigger] front[i]).spell_id@
            != (#[trigger] front[j]).spell_id@ by {}
        law_recovery_subscribes_no_spell_twice(w, front, now_sec, metrics);
        lemma_perform_all_concat(w, rest, tail);
        lemma_orderly_concat(w, rest, tail);
        let before = perform_all(w, rest);
        assert forall|i: int| 0 <= i < front.len() implies (#[trigger] front[i]).spell_id@
            != last.spell_id@ by {}
        if let Ok((subscription, period_sec)) = last.decision(now_sec) {
            let first = Effect::Subscribe { spell_id: last.spell_id, subscription };
            let second = Effect::ObserveStartedSpell { period_sec };
            lemma_perform_three(before, first, second, second);
        }
        let after = perform_all(w, rest + tail);
        assert forall|i: int| 0 <= i < spells.len() implies (after.live.contains_key(
            (#[trigger] spells[i]).spell_id@,
        ) <==> spells[i].recoverable(now_sec)) by {
            if i < front.len() {
                assert(front[i] == spells[i]);
            }
        }
        assert forall|id: Seq<char>|
            (forall|i: int|
                0 <= i < spells.len() ==> (#[trigger] spells[i]).spell_id@
                    != id) implies after.live.contains_key(id) == w.live.contains_key(id) by {
            assert forall|i: int| 0 <= i < front.len() implies (#[trigger] front[i]).spell_id@
                != id by {}
        }
    }
}

/// Every event launches its own run, whatever the order in which the
/// events come: there are as many runs as events, each run is that of its
/// event alone, and the runs of the events in another order are the same
/// runs in that order. No event is dropped.
pub proof fn law_every_event_launches_in_any_order(
    events: Seq<TriggerEvent>,
    order: Seq<int>,
    ttl_ms: u64,
)
    requires
        forall|i: int| 0 <= i < order.len() ==> 0 <= #[trigger] order[i] < events.len(),
    ensures
        launches_of(events, ttl_ms).len() == events.len(),
        forall|i: int|
            0 <= i < events.len() ==> #[trigger] launches_of(events, ttl_ms)[i] == launch_of(
                events[i],
                ttl_ms,
            ),
        launches_of(reordered(events, order), ttl_ms) == reordered(
            launches_of(events, ttl_ms),
            order,
        ),
{
}

/// An open loop that is handed events, and not the closing of the channel,
/// launches the run of every one of them, in their order, whatever their
/// number and whatever runs are still under way, and stays open. Once the
/// channel was closed the loop launches nothing.
pub proof fn law_open_loop_launches_every_event(
    event_loop: EventLoop,
    events: Seq<TriggerEvent>,
    given: Seq<Option<TriggerEvent>>,
)
    ensures
        !event_loop.closed ==> event_loop.fed(events.map_values(|e: TriggerEvent| Some(e)))
            == (event_loop, launches_of(events, event_loop.ttl_ms)),
        event_loop.closed ==> event_loop.fed(given) == (event_loop, Seq::<Launch>::empty()),
    decreases events.len(), given.len(),
{
    if !event_loop.closed {
        let all = events.map_values(|e: TriggerEvent| Some(e));
        if events.len() > 0 {
            law_open_loop_launches_every_event(event_loop, events.drop_last(), given);
            assert(all.drop_last() =~= events.drop_last().map_values(|e: TriggerEvent| Some(e)));
        }
    } else if given.len() > 0 {
        law_open_loop_launches_every_event(event_loop, events, given.drop_last());
    }
}

/// Installing a spell that has no live subscription subscribes it at most
/// once, to what its configuration asks for, and stores the configuration.
/// No spell is deleted.
pub proof fn law_installation_subscribes(w: World, spell_id: String, config: TriggerConfig)
    requires
        config.subscription() is Ok,
        !w.live.contains_key(spell_id@),
    ensures
        orderly(w, installation(spell_id, config)),
        perform_all(w, installation(spell_id, config)) == (World {
            live: match config.subscription()->Ok_0 {
                Some(subscription) => w.live.insert(spell_id@, subscription),
                None => w.live,
            },
            configs: w.configs.insert(spell_id@, config),
            ..w
        }),
{
    let store = Effect::StoreTriggerConfig { spell_id, config };
    match config.subscription()->Ok_0 {
        Some(subscription) => {
            let subscribe = Effect::Subscribe { spell_id, subscription };
            lemma_perform_three(w, store, subscribe, subscribe);
            assert(installation(spell_id, config) =~= seq![store, subscribe]);
        },
        None => {
            lemma_perform_three(w, store, store, store);
        },
    }
}

/// Replacing the trigger configuration of a spell never subscribes the
/// spell while it has a live subscription, whatever was live before. After
/// it the spell has exactly the subscription that the new configuration
/// asks for, and the new configuration is stored. No spell is deleted.
pub proof fn law_replacement_resubscribes(w: World, spell_id: String, config: TriggerConfig)
    requires
        config.subscription() is Ok,
    ensures
        orderly(w, replacement(spell_id, config)),
        perform_all(w, replacement(spell_id, config)) == (World {
            live: match config.subscription()->Ok_0 {
                Some(subscription) => w.live.insert(spell_id@, subscription),
                None => w.live.remove(spell_id@),
            },
            configs: w.configs.insert(spell_id@, config),
            ..w
        }),
{
    let store = Effect::StoreTriggerConfig { spell_id, config };
    let drop = Effect::Unsubscribe { spell_id };
    match config.subscription()->Ok_0 {
        Some(subscription) => {
            let subscribe = Effect::Subscribe { spell_id, subscription };
            lemma_perform_three(w, store, drop, subscribe);
            assert(replacement(spell_id, config) =~= seq![store, drop, subscribe]);
            assert(w.live.remove(spell_id@).insert(spell_id@, subscription) =~= w.live.insert(
                spell_id@,
                subscription,
            ));
        },
        None => {
            lemma_perform_three(w, store, drop, drop);
        },
    }
}

/// Removing a spell drops its subscription before the spell is deleted,
/// whatever was live before. After it the spell has no subscription and is
/// not registered.
pub proof fn law_removal_unsubscribes_then_deletes(w: World, spell_id: String)
    ensures
        orderly(w, removal(spell_id)),
        !perform_all(w, removal(spell_id)).live.contains_key(spell_id@),
        !perform_all(w, removal(spell_id)).owners.contains_key(spell_id@),
{
    let drop = Effect::Unsubscribe { spell_id };
    let delete = Effect::RemoveSpell { spell_id };
    lemma_perform_three(w, drop, delete, delete);
}

/// After the effects of activation every one of the spells has the
/// periodic subscription, and no spell was subscribed while it had a live
/// subscription, whatever was live before.
pub proof fn law_activation_subscribes(w: World, spells: Seq<String>, period_sec: u32)
    ensures
        orderly(w, activation(spells, period_sec)),
        forall|i: int|
            0 <= i < spells.len() ==> {
                let live = perform_all(w, activation(spells, period_sec)).live;
                live.contains_key(#[trigger] spells[i]@) && live[spells[i]@]
                    == Subscription::spec_periodic(period_sec)
            },
        perform_all(w, activation(spells, period_sec)).owners == w.owners,
        perform_all(w, activation(spells, period_sec)).workers == w.workers,
    decreases spells.len(),
{
    if spells.len() > 0 {
        let rest = spells.drop_last();
        let s = spells.last();
        law_activation_subscribes(w, rest, period_sec);
        let before = perform_all(w, activation(rest, period_sec));
        let group = activation_of(s, period_sec);
        lemma_perform_all_concat(w, activation(rest, period_sec), group);
        lemma_orderly_concat(w, activation(rest, period_sec), group);
        lemma_perform_three(before, group[0], group[1], group[2]);
        let after = perform_all(w, activation(spells, period_sec));
        assert forall|i: int| 0 <= i < spells.len() implies after.live.contains_key(
            #[trigger] spells[i]@,
        ) && after.live[spells[i]@] == Subscription::spec_periodic(period_sec) by {
            if i < rest.len() {
                assert(rest[i] == spells[i]);
            }
        }
    }
}

/// After the effects of deactivation none of the spells has a live
/// subscription, and each has the empty configuration stored; the
/// subscriptions of other spells, and the registries, are as before.
pub proof fn law_deactivation_unsubscribes(w: World, spells: Seq<String>)
    ensures
        orderly(w, deactivation(spells)),
        perform_all(w, deactivation(spells)).live == w.live.remove_keys(spell_set(spells)),
        forall|i: int|
            0 <= i < spells.len() ==> {
                let configs = perform_all(w, deactivation(spells)).configs;
                configs.contains_key(#[trigger] spells[i]@) && configs[spells[i]@]
                    == TriggerConfig::empty()
            },
        perform_all(w, deactivation(spells)).owners == w.owners,
        perform_all(w, deactivation(spells)).workers == w.workers,
    decreases spells.len(),
{
    if spells.len() > 0 {
        let rest = spells.drop_last();
        let s = spells.last();
        law_deactivation_unsubscribes(w, rest);
        let before = perform_all(w, deactivation(rest));
        let group = deactivation_of(s);
        lemma_perform_all_concat(w, deactivation(rest), group);
        lemma_orderly_concat(w, deactivation(rest), group);
        lemma_perform_three(before, group[0], group[1], group[1]);
        lemma_spell_set_last(spells);
        let after = perform_all(w, deactivation(spells));
        assert forall|i: int| 0 <= i < spells.len() implies after.configs.contains_key(
            #[trigger] spells[i]@,
        ) && after.configs[spells[i]@] == TriggerConfig::empty() by {
            if i < rest.len() {
                assert(rest[i] == spells[i]);
            }
        }
    }
}

/// After the requests that drop the subscriptions of the spells none of
/// them has a live subscription; all else is as before.
pub proof fn law_teardown_unsubscribes(w: World, spells: Seq<String>)
    ensures
        orderly(w, teardown(spells)),
        perform_all(w, teardown(spells)) == (World {
            live: w.live.remove_keys(spell_set(spells)),
            ..w
        }),
    decreases spells.len(),
{
    if spells.len() == 0 {
        assert(w.live.remove_keys(spell_set(spells)) =~= w.live);
    } else {
        let rest = spells.drop_last();
        assert(teardown(spells).drop_last() =~= teardown(rest));
        law_teardown_unsubscribes(w, rest);
        lemma_spell_set_last(spells);
        assert(perform_all(w, teardown(spells)).live =~= w.live.remove_keys(spell_set(spells)));
    }
}

/// Activating a worker and then deactivating it leaves the worker
/// registered and not active, and leaves none of its spells with a live
/// subscription.
pub proof fn law_activate_then_deactivate(
    workers: Seq<Worker>,
    worker_id: Seq<char>,
    spells: Seq<String>,
    period_sec: u32,
    w: World,
)
    requires
        well_formed(workers),
        has_worker(workers, worker_id),
    ensures
        ({
            let after = deactivated(activated(workers, worker_id), worker_id);
            well_formed(after) && has_worker(after, worker_id) && !is_active(after, worker_id)
        }),
        ({
            let world = perform_all(
                perform_all(w, activation(spells, period_sec)),
                deactivation(spells),
            );
            forall|i: int| 0 <= i < spells.len() ==> !world.live.contains_key(#[trigger] spells[i]@)
        }),
{
    let i = choose|i: int| 0 <= i < workers.len() && (#[trigger] workers[i]).is_worker(worker_id);
    let activate = |s: WorkerState| WorkerState::Active;
    let deactivate = |s: WorkerState|
        if s == WorkerState::Active {
            WorkerState::Inactive
        } else {
            s
        };
    lemma_moved_one(workers, worker_id, activate, i);
    let mid = activated(workers, worker_id);
    lemma_moved_one(mid, worker_id, deactivate, i);
    let after = deactivated(mid, worker_id);
    assert(after[i].is_worker(worker_id));
    assert forall|k: int| 0 <= k < after.len() && (#[trigger] after[k]).worker_id@ == worker_id
        implies after[k].state != WorkerState::Active by {}
    let world0 = perform_all(w, activation(spells, period_sec));
    law_deactivation_unsubscribes(world0, spells);
    let world = perform_all(world0, deactivation(spells));
    assert forall|k: int| 0 <= k < spells.len() implies !world.live.contains_key(
        #[trigger] spells[k]@,
    ) by {}
}

/// The removal of a worker first drops the subscription of each of its
/// spells and then, as its last effect, removes the worker. After it none
/// of the spells has a live subscription and the worker is removed for
/// good: its record stays, so that its identifier is never used again, and
/// a second removal finds no worker and would change nothing.
pub proof fn law_remove_tears_down_then_deletes(w: World, worker_id: String, spells: Seq<String>)
    requires
        well_formed(w.workers),
        has_worker(w.workers, worker_id@),
    ensures
        worker_removal(worker_id, spells).drop_last() == teardown(spells),
        worker_removal(worker_id, spells).last() == (Effect::RemoveWorker { worker_id }),
        perform_all(w, worker_removal(worker_id, spells)) == (World {
            live: w.live.remove_keys(spell_set(spells)),
            workers: removed(w.workers, worker_id@),
            ..w
        }),
        forall|i: int|
            0 <= i < spells.len() ==> !perform_all(
                w,
                worker_removal(worker_id, spells),
            ).live.contains_key(#[trigger] spells[i]@),
        well_formed(removed(w.workers, worker_id@)),
        !has_worker(removed(w.workers, worker_id@), worker_id@),
        knows_id(removed(w.workers, worker_id@), worker_id@),
        removed(removed(w.workers, worker_id@), worker_id@) == removed(w.workers, worker_id@),
{
    let workers = w.workers;
    let id = worker_id@;
    let i = choose|i: int| 0 <= i < workers.len() && (#[trigger] workers[i]).is_worker(id);
    let remove = |s: WorkerState| WorkerState::Removed;
    lemma_moved_one(workers, id, remove, i);
    let after = removed(workers, id);
    assert(after[i].worker_id@ == id);
    assert forall|k: int| 0 <= k < after.len() implies !(#[trigger] after[k]).is_worker(id) by {}
    lemma_moved_none(after, id, remove);
    law_teardown_unsubscribes(w, spells);
    lemma_perform_all_push(w, teardown(spells), Effect::RemoveWorker { worker_id });
    let world = perform_all(w, worker_removal(worker_id, spells));
    assert forall|k: int| 0 <= k < spells.len() implies !world.live.contains_key(
        #[trigger] spells[k]@,
    ) by {}
}

/// Where `spells` holds every spell that the registry lists for the
/// worker, the removal of the worker leaves no subscription behind: the
/// worker is removed only once none of its spells has a live subscription.
pub proof fn law_remove_leaves_no_orphan(w: World, worker_id: String, spells: Seq<String>)
    requires
        forall|spell: Seq<char>|
            #![trigger w.owners.contains_key(spell)]
            w.owners.contains_key(spell) && w.owners[spell] == worker_id@ ==> spell_set(
                spells,
            ).contains(spell),
    ensures
        orderly(w, worker_removal(worker_id, spells)),
        !perform_all(w, worker_removal(worker_id, spells)).has_live_spell_of(worker_id@),
{
    law_teardown_unsubscribes(w, spells);
    lemma_perform_all_push(w, teardown(spells), Effect::RemoveWorker { worker_id });
    let before = perform_all(w, teardown(spells));
    assert forall|spell: Seq<char>| #[trigger]
        before.live.contains_key(spell) implies !(before.owners.contains_key(spell)
        && before.owners[spell] == worker_id@) by {}
}

/// Nothing leads out of removal: once a worker is removed, no step of it
/// changes the registry.
pub proof fn law_removed_is_final(
    workers: Seq<Worker>,
    worker_id: Seq<char>,
    step: spec_fn(WorkerState) -> WorkerState,
)
    requires
        well_formed(workers),
    ensures
        moved(removed(workers, worker_id), worker_id, step) == removed(workers, worker_id),
        activated(removed(workers, worker_id), worker_id) == removed(workers, worker_id),
        deactivated(removed(workers, worker_id), worker_id) == removed(workers, worker_id),
{
    let after = removed(workers, worker_id);
    assert forall|k: int| 0 <= k < after.len() implies !(#[trigger] after[k]).is_worker(
        worker_id,
    ) by {}
    lemma_moved_none(after, worker_id, step);
    lemma_moved_none(after, worker_id, |s: WorkerState| WorkerState::Active);
    lemma_moved_none(
        after,
        worker_id,
        |s: WorkerState|
            if s == WorkerState::Active {
                WorkerState::Inactive
            } else {
                s
            },
    );
}

/// What activation and deactivation store decides what recovery does
/// after a restart: a spell with the empty configuration of a deactivated
/// worker is skipped, and a spell with the periodic configuration of an
/// active worker, of a period from one second to `MAX_PERIOD_SEC`, gets
/// its periodic subscription back at any time.
pub proof fn law_recovery_agrees_with_activation(
    spell_id: String,
    owner: String,
    period_sec: u32,
    now_sec: u64,
)
    ensures
        (RegisteredSpell {
            spell_id,
            owner: Some(owner),
            config: Some(TriggerConfig::empty()),
        }).decision(now_sec) == Err::<(Subscription, u32), Skip>(Skip::Empty),
        0 < period_sec <= MAX_PERIOD_SEC ==> (RegisteredSpell {
            spell_id,
            owner: Some(owner),
            config: Some(TriggerConfig::periodic(period_sec)),
        }).decision(now_sec) == Ok::<(Subscription, u32), Skip>(
            (Subscription::spec_periodic(period_sec), period_sec),
        ),
{
}

/// A handler that returns nothing hands no value to the calling script,
/// whatever its result holds; a handler that returns a value hands on
/// exactly one where it succeeds; a failure hands on the error alone.
pub proof fn law_return_slots(function: ServiceFunction, result: Result<Value, BuiltinError>)
    ensures
        !function.returns_value ==> function.outcome(result).slots() == 0,
        function.returns_value && result is Ok ==> function.outcome(result).slots() == 1,
        result matches Err(e) ==> function.outcome(result) == FunctionOutcome::Failed(e),
{
}

/// A handler that a name resolves to is one of the listed handlers.
proof fn lemma_named_is_listed(functions: Seq<(Seq<char>, ServiceFunction)>, name: Seq<char>)
    ensures
        named(functions, name) matches Some(f) ==> exists|i: int|
            0 <= i < functions.len() && (#[trigger] functions[i]).1 == f,
    decreases functions.len(),
{
    if functions.len() > 0 && functions.last().0 != name {
        lemma_named_is_listed(functions.drop_last(), name);
        if let Some(f) = named(functions.drop_last(), name) {
            let i = choose|i: int|
                0 <= i < functions.drop_last().len() && (#[trigger] functions.drop_last()[i]).1 == f;
            assert(functions[i].1 == f);
        }
    }
}

/// A service that a name resolves to is one of the listed services.
proof fn lemma_service_is_listed(services: Seq<(Seq<char>, CustomServiceView)>, name: Seq<char>)
    ensures
        service_named(services, name) matches Some(s) ==> exists|i: int|
            0 <= i < services.len() && (#[trigger] services[i]).1 == s,
    decreases services.len(),
{
    if services.len() > 0 && services.last().0 != name {
        lemma_service_is_listed(services.drop_last(), name);
        if let Some(s) = service_named(services.drop_last(), name) {
            let i = choose|i: int|
                0 <= i < services.drop_last().len() && (#[trigger] services.drop_last()[i]).1 == s;
            assert(services[i].1 == s);
        }
    }
}

/// Of all that the builtin services resolve a call to, the check whether
/// a deal is active, and nothing else, runs in the context for blocking
/// work; and each handler returns a value exactly if its builtin does.
/// `worker.is_active` resolves to that check.
pub proof fn law_only_is_active_blocks(service: Seq<char>, function: Seq<char>)
    ensures
        resolved(builtin_services(), service, function) matches Some(f) ==> f == f.builtin.handler()
            && (f.blocking <==> f.builtin == Builtin::WorkerIsActive),
        resolved(builtin_services(), "worker"@, "is_active"@) == Some(
            Builtin::WorkerIsActive.handler(),
        ),
{
    let services = builtin_services();
    lemma_service_is_listed(services, service);
    if let Some(s) = service_named(services, service) {
        lemma_named_is_listed(s.functions, function);
    }
}

} // verus!
