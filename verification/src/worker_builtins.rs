//! The builtins that create, activate, deactivate and remove workers.
//!
//! Each takes the spells that the spell registry lists for the worker, and
//! hands back what is to be done about their subscriptions.

use crate::effects::Effect;
use crate::outcome::{
    json_bool, json_flag, json_list, json_string, json_text, json_texts, list_value, BuiltinError,
};
use crate::sorcerer::Sorcerer;
use crate::trigger::{ConfigError, Subscription, TriggerConfig, MAX_PERIOD_SEC};
use crate::workers::{
    activated, deactivated, deal_bound, has_worker, is_active, is_worker_of, knows_id, live_ids,
    Worker, WorkerError, WorkerState,
};
use serde_json::Value;
use vstd::prelude::*;

verus! {

/// The effects of activation on one spell: the periodic configuration is
/// stored, the subscription is dropped, and the spell is subscribed to the
/// period.
pub open spec fn activation_of(spell_id: String, period_sec: u32) -> Seq<Effect> {
    seq![
        Effect::StoreTriggerConfig { spell_id, config: TriggerConfig::periodic(period_sec) },
        Effect::Unsubscribe { spell_id },
        Effect::Subscribe { spell_id, subscription: Subscription::spec_periodic(period_sec) },
    ]
}

/// The effects of activation on the spells, one spell after the other.
pub open spec fn activation(spells: Seq<String>, period_sec: u32) -> Seq<Effect>
    decreases spells.len(),
{
    if spells.len() == 0 {
        Seq::empty()
    } else {
        activation(spells.drop_last(), period_sec) + activation_of(spells.last(), period_sec)
    }
}

/// The effects of deactivation on one spell: the subscription is dropped
/// and the empty configuration is stored.
pub open spec fn deactivation_of(spell_id: String) -> Seq<Effect> {
    seq![
        Effect::Unsubscribe { spell_id },
        Effect::StoreTriggerConfig { spell_id, config: TriggerConfig::empty() },
    ]
}

/// The effects of deactivation on the spells, one spell after the other.
pub open spec fn deactivation(spells: Seq<String>) -> Seq<Effect>
    decreases spells.len(),
{
    if spells.len() == 0 {
        Seq::empty()
    } else {
        deactivation(spells.drop_last()) + deactivation_of(spells.last())
    }
}

/// The requests that drop the subscription of each of the spells.
pub open spec fn teardown(spells: Seq<String>) -> Seq<Effect> {
    spells.map_values(|spell_id: String| Effect::Unsubscribe { spell_id })
}

/// The effects of removing a worker: the subscription of each of its
/// spells is dropped, then the worker is removed from the registry.
pub open spec fn worker_removal(worker_id: String, spells: Seq<String>) -> Seq<Effect> {
    teardown(spells).push(Effect::RemoveWorker { worker_id })
}

impl Sorcerer {
    /// Registers a worker for a deal, with the peer identity that was
    /// derived for it. The worker starts inactive.
    ///
    /// The call is refused with `DealHasWorker` where the deal has a
    /// worker, else with `WorkerIdUsed` where the identity belongs, or
    /// belonged, to a worker; the registry is then unchanged. Otherwise the
    /// registry has the new record at its end, and the calling script gets
    /// the worker's identifier.
    pub fn create_worker(&mut self, deal_id: String, creator: String, worker_id: String) -> (r:
        Result<Value, BuiltinError>)
        requires
            old(self).wf(),
        ensures
            final(self).wf(),
            final(self).settings() == old(self).settings(),
            r == if deal_bound(old(self).workers@, deal_id@) {
                Err::<Value, BuiltinError>(BuiltinError::Worker(WorkerError::DealHasWorker))
            } else if knows_id(old(self).workers@, worker_id@) {
                Err(BuiltinError::Worker(WorkerError::WorkerIdUsed))
            } else {
                Ok(json_text(worker_id@))
            },
            final(self).workers@ == if r is Ok {
                old(self).workers@.push(
                    Worker { worker_id, deal_id, creator, state: WorkerState::Created },
                )
            } else {
                old(self).workers@
            },
    {
        let reply = json_string(worker_id.clone());
        match self.workers.create(deal_id, creator, worker_id) {
            Ok(()) => Ok(reply),
            Err(e) => Err(BuiltinError::Worker(e)),
        }
    }

    /// The identifier of the worker of a deal, as a JSON string;
    /// `NotFound` where the deal has no worker.
    pub fn get_worker_peer_id(&self, deal_id: &String) -> (r: Result<Value, BuiltinError>)
        requires
            self.wf(),
        ensures
            match r {
                Ok(v) => exists|id: Seq<char>|
                    #[trigger] is_worker_of(self.workers@, deal_id@, id) && v == json_text(id),
                Err(e) => e == BuiltinError::Worker(WorkerError::NotFound) && !deal_bound(
                    self.workers@,
                    deal_id@,
                ),
            },
    {
        match self.workers.get_worker_id(deal_id) {
            Ok(id) => {
                Ok(json_string(id))
            },
            Err(e) => Err(BuiltinError::Worker(e)),
        }
    }

    /// The identifiers of the workers that were not removed, oldest
    /// first, as a JSON array of strings.
    pub fn worker_list(&self) -> (r: Result<Value, BuiltinError>)
        ensures
            r == Ok::<Value, BuiltinError>(json_list(json_texts(live_ids(self.workers@)))),
    {
        let ids = self.workers.list();
        Ok(list_value(&ids))
    }

    /// Plans the removal of a worker whose spells are `spells`.
    ///
    /// Where the worker is not registered, or was removed, the call is
    /// refused with `NotFound`. Otherwise the result holds the effects of
    /// `worker_removal`: the requests that drop the subscription of each
    /// spell, in the order of `spells`, and after them the removal of the
    /// worker from the registry. The registry itself changes only when the
    /// caller performs that last effect.
    pub fn remove_worker(&self, worker_id: &String, spells: &Vec<String>) -> (r: Result<
        Vec<Effect>,
        BuiltinError,
    >)
        ensures
            if has_worker(self.workers@, worker_id@) {
                r matches Ok(effects) && effects@ == worker_removal(*worker_id, spells@)
            } else {
                r == Err::<Vec<Effect>, BuiltinError>(BuiltinError::Worker(WorkerError::NotFound))
            },
    {
        if !self.workers.contains(worker_id) {
            return Err(BuiltinError::Worker(WorkerError::NotFound));
        }
        let mut effects: Vec<Effect> = Vec::new();
        let mut i: usize = 0;
        while i < spells.len()
            invariant
                i <= spells.len(),
                effects@ == teardown(spells@.take(i as int)),
            decreases spells.len() - i,
        {
            effects.push(Effect::Unsubscribe { spell_id: spells[i].clone() });
            i += 1;
        }
        effects.push(Effect::RemoveWorker { worker_id: worker_id.clone() });
        Ok(effects)
    }

    /// Marks the deal of a worker as active and puts its spells `spells`
    /// on the worker period.
    ///
    /// The call is refused with `InvalidPeriod` where the worker period is
    /// longer than `MAX_PERIOD_SEC`, else with `NotFound` where the worker
    /// is not registered or was removed; the registry is then unchanged.
    /// Otherwise the worker is active, whatever it was before, and the
    /// result holds the effects of `activation`: for each spell the
    /// periodic configuration is stored and the spell is subscribed to it,
    /// after any earlier subscription was dropped.
    pub fn activate_deal(&mut self, worker_id: &String, spells: &Vec<String>) -> (r: Result<
        Vec<Effect>,
        BuiltinError,
    >)
        requires
            old(self).wf(),
        ensures
            final(self).wf(),
            final(self).settings() == old(self).settings(),
            if old(self).worker_period_sec > MAX_PERIOD_SEC {
                r == Err::<Vec<Effect>, BuiltinError>(
                    BuiltinError::Config(ConfigError::InvalidPeriod),
                )
            } else if !has_worker(old(self).workers@, worker_id@) {
                r == Err::<Vec<Effect>, BuiltinError>(BuiltinError::Worker(WorkerError::NotFound))
            } else {
                r matches Ok(effects) && effects@ == activation(
                    spells@,
                    old(self).worker_period_sec,
                )
            },
            final(self).workers@ == if r is Ok {
                activated(old(self).workers@, worker_id@)
            } else {
                old(self).workers@
            },
    {
        let period_sec = self.worker_period_sec;
        let config = TriggerConfig::periodic(period_sec);
        let subscription = match Subscription::periodic(period_sec) {
            Ok(s) => s,
            Err(e) => {
                return Err(BuiltinError::Config(e));
            },
        };
        match self.workers.activate(worker_id) {
            Ok(()) => {},
            Err(e) => {
                return Err(BuiltinError::Worker(e));
            },
        }
        let mut effects: Vec<Effect> = Vec::new();
        let mut i: usize = 0;
        while i < spells.len()
            invariant
                i <= spells.len(),
                config == TriggerConfig::periodic(period_sec),
                subscription == Subscription::spec_periodic(period_sec),
                effects@ == activation(spells@.take(i as int), period_sec),
            decreases spells.len() - i,
        {
            effects.push(Effect::StoreTriggerConfig { spell_id: spells[i].clone(), config });
            effects.push(Effect::Unsubscribe { spell_id: spells[i].clone() });
            effects.push(Effect::Subscribe { spell_id: spells[i].clone(), subscription });
            assert(spells@.take(i + 1).drop_last() =~= spells@.take(i as int));
            i += 1;
        }
        assert(spells@.take(spells@.len() as int) =~= spells@);
        Ok(effects)
    }

    /// Marks the deal of a worker as not active and takes its spells
    /// `spells` off their period.
    ///
    /// Where the worker is not registered, or was removed, the call is
    /// refused with `NotFound` and the registry is unchanged. Otherwise an
    /// active worker becomes inactive, any other stays as it is, and the
    /// result holds the effects of `deactivation`: for each spell the
    /// subscription is dropped and the empty configuration is stored.
    pub fn deactivate_deal(&mut self, worker_id: &String, spells: &Vec<String>) -> (r: Result<
        Vec<Effect>,
        BuiltinError,
    >)
        requires
            old(self).wf(),
        ensures
            final(self).wf(),
            final(self).settings() == old(self).settings(),
            if has_worker(old(self).workers@, worker_id@) {
                r matches Ok(effects) && effects@ == deactivation(spells@)
            } else {
                r == Err::<Vec<Effect>, BuiltinError>(BuiltinError::Worker(WorkerError::NotFound))
            },
            final(self).workers@ == if r is Ok {
                deactivated(old(self).workers@, worker_id@)
            } else {
                old(self).workers@
            },
    {
        match self.workers.deactivate(worker_id) {
            Ok(()) => {},
            Err(e) => {
                return Err(BuiltinError::Worker(e));
            },
        }
        let mut effects: Vec<Effect> = Vec::new();
        let mut i: usize = 0;
        while i < spells.len()
            invariant
                i <= spells.len(),
                effects@ == deactivation(spells@.take(i as int)),
            decreases spells.len() - i,
        {
            effects.push(Effect::Unsubscribe { spell_id: spells[i].clone() });
            effects.push(
                Effect::StoreTriggerConfig {
                    spell_id: spells[i].clone(),
                    config: TriggerConfig::empty(),
                },
            );
            assert(spells@.take(i + 1).drop_last() =~= spells@.take(i as int));
            i += 1;
        }
        assert(spells@.take(spells@.len() as int) =~= spells@);
        Ok(effects)
    }

    /// Whether the deal of a worker is active, as a JSON boolean;
    /// `NotFound` where the worker is not registered or was removed. The
    /// registry is only read.
    pub fn is_deal_active(&self, worker_id: &String) -> (r: Result<Value, BuiltinError>)
        requires
            self.wf(),
        ensures
            r == if has_worker(self.workers@, worker_id@) {
                Ok::<Value, BuiltinError>(json_flag(is_active(self.workers@, worker_id@)))
            } else {
                Err(BuiltinError::Worker(WorkerError::NotFound))
            },
    {
        match self.workers.is_active(worker_id) {
            Ok(active) => Ok(json_bool(active)),
            Err(e) => Err(BuiltinError::Worker(e)),
        }
    }
}

} // verus!
