//! Effects: what the orchestrator asks of the services around it, and a
//! model of those services against which its plans are judged.
//!
//! The orchestrator performs nothing itself. Each of its operations hands
//! back a list of effects. The caller performs them in order and, where one
//! fails, leaves out the rest of the list.

use crate::trigger::{Subscription, TriggerConfig};
use crate::workers::{removed, Worker};
use vstd::prelude::*;

verus! {

/// One request to a service outside the orchestrator.
#[derive(Debug, PartialEq, Eq)]
pub enum Effect {
    /// Ask the trigger service to watch `subscription` for the spell.
    Subscribe { spell_id: String, subscription: Subscription },
    /// Ask the trigger service to drop what it watches for the spell.
    Unsubscribe { spell_id: String },
    /// Store `config` as the spell's trigger configuration.
    StoreTriggerConfig { spell_id: String, config: TriggerConfig },
    /// Delete the spell from the spell registry.
    RemoveSpell { spell_id: String },
    /// Count a started spell under its clock period.
    ObserveStartedSpell { period_sec: u32 },
    /// Remove the worker from the worker registry, with `Workers::remove`.
    RemoveWorker { worker_id: String },
}

impl Clone for Effect {
    fn clone(&self) -> (r: Self)
        ensures
            r == *self,
    {
        match self {
            Effect::Subscribe { spell_id, subscription } => Effect::Subscribe {
                spell_id: spell_id.clone(),
                subscription: *subscription,
            },
            Effect::Unsubscribe { spell_id } => Effect::Unsubscribe { spell_id: spell_id.clone() },
            Effect::StoreTriggerConfig { spell_id, config } => Effect::StoreTriggerConfig {
                spell_id: spell_id.clone(),
                config: *config,
            },
            Effect::RemoveSpell { spell_id } => Effect::RemoveSpell { spell_id: spell_id.clone() },
            Effect::ObserveStartedSpell { period_sec } => Effect::ObserveStartedSpell {
                period_sec: *period_sec,
            },
            Effect::RemoveWorker { worker_id } => Effect::RemoveWorker {
                worker_id: worker_id.clone(),
            },
        }
    }
}

/// The services around the orchestrator, as far as effects change them.
/// Spells and peers are named by the characters of their identifiers.
pub struct World {
    /// The live subscriptions of the trigger service, by spell.
    pub live: Map<Seq<char>, Subscription>,
    /// The spells that the spell registry holds, each with its owner.
    pub owners: Map<Seq<char>, Seq<char>>,
    /// The stored trigger configurations, by spell.
    pub configs: Map<Seq<char>, TriggerConfig>,
    /// The periods under which started spells were counted, oldest first.
    pub started: Seq<u32>,
    /// The records of the worker registry.
    pub workers: Seq<Worker>,
}

impl World {
    /// Some spell of `owner` has a live subscription.
    pub open spec fn has_live_spell_of(self, owner: Seq<char>) -> bool {
        exists|spell: Seq<char>|
            #![trigger self.live.contains_key(spell)]
            self.live.contains_key(spell) && self.owners.contains_key(spell) && self.owners[spell]
                == owner
    }
}

impl Effect {
    /// The effect is a request to subscribe.
    pub open spec fn is_subscribe(self) -> bool {
        self is Subscribe
    }

    /// The world after the effect was performed.
    pub open spec fn perform(self, w: World) -> World {
        match self {
            Effect::Subscribe { spell_id, subscription } => World {
                live: w.live.insert(spell_id@, subscription),
                ..w
            },
            Effect::Unsubscribe { spell_id } => World { live: w.live.remove(spell_id@), ..w },
            Effect::StoreTriggerConfig { spell_id, config } => World {
                configs: w.configs.insert(spell_id@, config),
                ..w
            },
            Effect::RemoveSpell { spell_id } => World {
                owners: w.owners.remove(spell_id@),
                configs: w.configs.remove(spell_id@),
                ..w
            },
            Effect::ObserveStartedSpell { period_sec } => World {
                started: w.started.push(period_sec),
                ..w
            },
            Effect::RemoveWorker { worker_id } => World {
                workers: removed(w.workers, worker_id@),
                ..w
            },
        }
    }

    /// The effect may be performed in `w`: a spell is subscribed only while
    /// it has no live subscription, a spell is deleted only while it has
    /// none, and a worker is removed only while none of its spells has one.
    pub open spec fn admissible(self, w: World) -> bool {
        match self {
            Effect::Subscribe { spell_id, .. } => !w.live.contains_key(spell_id@),
            Effect::RemoveSpell { spell_id } => !w.live.contains_key(spell_id@),
            Effect::RemoveWorker { worker_id } => !w.has_live_spell_of(worker_id@),
            _ => true,
        }
    }
}

/// The world after the effects were performed in order.
pub open spec fn perform_all(w: World, effects: Seq<Effect>) -> World
    decreases effects.len(),
{
    if effects.len() == 0 {
        w
    } else {
        effects.last().perform(perform_all(w, effects.drop_last()))
    }
}

/// Every effect of the list is admissible at its turn.
pub open spec fn orderly(w: World, effects: Seq<Effect>) -> bool
    decreases effects.len(),
{
    effects.len() == 0 || (orderly(w, effects.drop_last()) && effects.last().admissible(
        perform_all(w, effects.drop_last()),
    ))
}

/// The number of requests to subscribe in the list.
pub open spec fn subscribe_count(effects: Seq<Effect>) -> nat
    decreases effects.len(),
{
    if effects.len() == 0 {
        0
    } else {
        subscribe_count(effects.drop_last()) + if effects.last().is_subscribe() {
            1nat
        } else {
            0nat
        }
    }
}

/// The identifiers of the spells, as a set.
pub open spec fn spell_set(spells: Seq<String>) -> Set<Seq<char>> {
    Set::new(|id: Seq<char>| exists|i: int| 0 <= i < spells.len() && (#[trigger] spells[i])@ == id)
}

/// Performing `effects` and then `last` is performing `last` in the world
/// that `effects` leave, and is orderly where `effects` are and `last` is
/// admissible in that world.
pub proof fn lemma_perform_all_push(w: World, effects: Seq<Effect>, last: Effect)
    ensures
        perform_all(w, effects.push(last)) == last.perform(perform_all(w, effects)),
        orderly(w, effects.push(last)) == (orderly(w, effects) && last.admissible(
            perform_all(w, effects),
        )),
        subscribe_count(effects.push(last)) == subscribe_count(effects) + if last.is_subscribe() {
            1nat
        } else {
            0nat
        },
{
    assert(effects.push(last).drop_last() =~= effects);
}

/// Performing `a + b` is performing `a`, then `b`.
pub proof fn lemma_perform_all_concat(w: World, a: Seq<Effect>, b: Seq<Effect>)
    ensures
        perform_all(w, a + b) == perform_all(perform_all(w, a), b),
    decreases b.len(),
{
    if b.len() > 0 {
        assert((a + b).drop_last() =~= a + b.drop_last());
        lemma_perform_all_concat(w, a, b.drop_last());
    }
}

/// `a + b` is orderly when `a` is, and `b` is after `a`.
pub proof fn lemma_orderly_concat(w: World, a: Seq<Effect>, b: Seq<Effect>)
    ensures
        orderly(w, a + b) == (orderly(w, a) && orderly(perform_all(w, a), b)),
    decreases b.len(),
{
    if b.len() > 0 {
        assert((a + b).drop_last() =~= a + b.drop_last());
        lemma_orderly_concat(w, a, b.drop_last());
        lemma_perform_all_concat(w, a, b.drop_last());
    }
}

/// The subscribe requests of `a + b` are those of `a` and those of `b`.
pub proof fn lemma_subscribe_count_concat(a: Seq<Effect>, b: Seq<Effect>)
    ensures
        subscribe_count(a + b) == subscribe_count(a) + subscribe_count(b),
    decreases b.len(),
{
    if b.len() > 0 {
        assert((a + b).drop_last() =~= a + b.drop_last());
        lemma_subscribe_count_concat(a, b.drop_last());
    }
}

} // verus!
