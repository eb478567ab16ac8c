//! Startup recovery: which of the registered spells get their subscription
//! back, and why the others do not.

use crate::effects::{subscribe_count, Effect};
use crate::trigger::{from_user_config, ConfigError, Subscription, TriggerConfig};
use vstd::prelude::*;

verus! {

/// What the registry and the peer scopes say of one spell at startup.
#[derive(Debug, PartialEq, Eq)]
pub struct RegisteredSpell {
    pub spell_id: String,
    /// The peer that owns the spell; `None` where it is not a peer of this
    /// node.
    pub owner: Option<String>,
    /// The stored trigger configuration; `None` where none could be read.
    pub config: Option<TriggerConfig>,
}

/// Why a spell is left without a subscription at startup.
#[derive(Clone, Copy, Debug, PartialEq, Eq, Structural)]
pub enum Skip {
    /// The owner is not a peer of this node.
    OwnerUnresolved,
    /// No trigger configuration could be read.
    ConfigMissing,
    /// The trigger configuration is malformed.
    Malformed(ConfigError),
    /// The trigger configuration asks for nothing.
    Empty,
    /// Nothing of the trigger configuration is left to wait for.
    NotReschedulable,
}

/// What recovery does for one spell: the effects that give it its
/// subscription back, or the reason why it gets none.
#[derive(Debug, PartialEq, Eq)]
pub struct Recovery {
    pub spell_id: String,
    pub outcome: Result<Vec<Effect>, Skip>,
}

/// A `Recovery` with its effects as a sequence.
pub struct RecoveryView {
    pub spell_id: String,
    pub outcome: Result<Seq<Effect>, Skip>,
}

impl View for Recovery {
    type V = RecoveryView;

    open spec fn view(&self) -> RecoveryView {
        RecoveryView {
            spell_id: self.spell_id,
            outcome: match self.outcome {
                Ok(effects) => Ok(effects@),
                Err(skip) => Err(skip),
            },
        }
    }
}

/// The effects that give a spell its subscription back: the request to
/// subscribe and, where started spells are counted, the count under the
/// clock period of the stored configuration.
pub open spec fn resubscription(
    spell_id: String,
    subscription: Subscription,
    period_sec: u32,
    metrics: bool,
) -> Seq<Effect> {
    if metrics {
        seq![
            Effect::Subscribe { spell_id, subscription },
            Effect::ObserveStartedSpell { period_sec },
        ]
    } else {
        seq![Effect::Subscribe { spell_id, subscription }]
    }
}

impl RegisteredSpell {
    /// The subscription that the spell gets back at `now_sec`, with the
    /// clock period of its stored configuration, or the reason why it gets
    /// none. The reasons are tried in the order of `Skip`.
    pub open spec fn decision(self, now_sec: u64) -> Result<(Subscription, u32), Skip> {
        match (self.owner, self.config) {
            (None, _) => Err(Skip::OwnerUnresolved),
            (Some(_), None) => Err(Skip::ConfigMissing),
            (Some(_), Some(config)) => match config.subscription() {
                Err(e) => Err(Skip::Malformed(e)),
                Ok(None) => Err(Skip::Empty),
                Ok(Some(s)) => if s.reschedulable(now_sec) {
                    Ok((s.remainder(now_sec), config.clock.period_sec))
                } else {
                    Err(Skip::NotReschedulable)
                },
            },
        }
    }

    /// The spell gets its subscription back at `now_sec`.
    pub open spec fn recoverable(self, now_sec: u64) -> bool {
        self.decision(now_sec) is Ok
    }

    /// What recovery does for the spell.
    pub open spec fn recovery(self, now_sec: u64, metrics: bool) -> RecoveryView {
        RecoveryView {
            spell_id: self.spell_id,
            outcome: match self.decision(now_sec) {
                Ok((config, period_sec)) => Ok(
                    resubscription(self.spell_id, config, period_sec, metrics),
                ),
                Err(skip) => Err(skip),
            },
        }
    }
}

/// What recovery does for each of the spells, in their order.
pub open spec fn recoveries(spells: Seq<RegisteredSpell>, now_sec: u64, metrics: bool) -> Seq<
    RecoveryView,
> {
    spells.map_values(|s: RegisteredSpell| s.recovery(now_sec, metrics))
}

/// The effects of all recoveries, one spell after the other.
pub open spec fn planned_effects(recoveries: Seq<RecoveryView>) -> Seq<Effect>
    decreases recoveries.len(),
{
    if recoveries.len() == 0 {
        Seq::empty()
    } else {
        planned_effects(recoveries.drop_last()) + match recoveries.last().outcome {
            Ok(effects) => effects,
            Err(_) => Seq::empty(),
        }
    }
}

/// The number of spells that get their subscription back at `now_sec`.
pub open spec fn recoverable_count(spells: Seq<RegisteredSpell>, now_sec: u64) -> nat
    decreases spells.len(),
{
    if spells.len() == 0 {
        0
    } else {
        recoverable_count(spells.drop_last(), now_sec) + if spells.last().recoverable(now_sec) {
            1nat
        } else {
            0nat
        }
    }
}

/// The views of the recoveries, in their order.
pub open spec fn recovery_views(recoveries: Seq<Recovery>) -> Seq<RecoveryView> {
    recoveries.map_values(|r: Recovery| r@)
}

/// The spells of all owners: those of the first owner in their order,
/// then those of the second, and so on.
pub open spec fn flattened(groups: Seq<(String, Vec<String>)>) -> Seq<String>
    decreases groups.len(),
{
    if groups.len() == 0 {
        Seq::empty()
    } else {
        flattened(groups.drop_last()) + groups.last().1@
    }
}

/// The registered spells, from the registry's listing by owner.
pub fn registered_spell_ids(groups: &Vec<(String, Vec<String>)>) -> (r: Vec<String>)
    ensures
        r@ == flattened(groups@),
{
    let mut out: Vec<String> = Vec::new();
    let mut g: usize = 0;
    while g < groups.len()
        invariant
            g <= groups.len(),
            out@ == flattened(groups@.take(g as int)),
        decreases groups.len() - g,
    {
        let ghost before = out@;
        let spells = &groups[g].1;
        let mut i: usize = 0;
        while i < spells.len()
            invariant
                i <= spells.len(),
                out@ == before + spells@.take(i as int),
            decreases spells.len() - i,
        {
            out.push(spells[i].clone());
            i += 1;
        }
        assert(groups@.take(g + 1).drop_last() =~= groups@.take(g as int));
        g += 1;
    }
    assert(groups@.take(groups@.len() as int) =~= groups@);
    out
}

/// Decides what recovery does for one spell at `now_sec`.
///
/// The spell is skipped where its owner is unknown, where it has no stored
/// configuration, where that configuration is malformed or asks for
/// nothing, and where nothing of it is left to wait for. Otherwise the
/// outcome holds the request to subscribe to what is left of the
/// configuration, followed, if `metrics` is set, by the count of a started
/// spell.
pub fn recover(spell: &RegisteredSpell, now_sec: u64, metrics: bool) -> (r: Recovery)
    ensures
        r@ == spell.recovery(now_sec, metrics),
{
    let spell_id = spell.spell_id.clone();
    if spell.owner.is_none() {
        return Recovery { spell_id, outcome: Err(Skip::OwnerUnresolved) };
    }
    let config = match spell.config {
        Some(config) => config,
        None => {
            return Recovery { spell_id, outcome: Err(Skip::ConfigMissing) };
        },
    };
    let period_sec = config.clock.period_sec;
    let subscription = match from_user_config(&config) {
        Err(e) => {
            return Recovery { spell_id, outcome: Err(Skip::Malformed(e)) };
        },
        Ok(None) => {
            return Recovery { spell_id, outcome: Err(Skip::Empty) };
        },
        Ok(Some(s)) => s,
    };
    match subscription.into_rescheduled(now_sec) {
        None => Recovery { spell_id, outcome: Err(Skip::NotReschedulable) },
        Some(rest) => {
            let mut effects: Vec<Effect> = Vec::new();
            effects.push(Effect::Subscribe { spell_id: spell_id.clone(), subscription: rest });
            if metrics {
                effects.push(Effect::ObserveStartedSpell { period_sec });
            }
            assert(effects@ =~= resubscription(spell.spell_id, rest, period_sec, metrics));
            Recovery { spell_id, outcome: Ok(effects) }
        },
    }
}

/// Decides what recovery does for each registered spell at `now_sec`.
///
/// The result holds one recovery for each spell, in the order of `spells`,
/// and each is what `recover` gives for that spell alone: a spell that is
/// skipped changes nothing for the others.
pub fn resubscribe(spells: &Vec<RegisteredSpell>, now_sec: u64, metrics: bool) -> (r: Vec<
    Recovery,
>)
    ensures
        recovery_views(r@) == recoveries(spells@, now_sec, metrics),
{
    let mut out: Vec<Recovery> = Vec::new();
    let mut i: usize = 0;
    while i < spells.len()
        invariant
            i <= spells.len(),
            out@.len() == i,
            forall|k: int| 0 <= k < i ==> (#[trigger] out@[k])@ == spells@[k].recovery(now_sec, metrics),
        decreases spells.len() - i,
    {
        out.push(recover(&spells[i], now_sec, metrics));
        i += 1;
    }
    out
}

/// The effects of one recovery hold one request to subscribe where the
/// spell is recoverable, and none where it is not.
pub proof fn lemma_recovery_subscribes_once(spell: RegisteredSpell, now_sec: u64, metrics: bool)
    ensures
        spell.recovery(now_sec, metrics).outcome matches Ok(effects) ==> spell.recoverable(now_sec)
            && subscribe_count(effects) == 1,
        spell.recovery(now_sec, metrics).outcome is Err ==> !spell.recoverable(now_sec),
{
    if let Ok((subscription, period_sec)) = spell.decision(now_sec) {
        let effects = resubscription(spell.spell_id, subscription, period_sec, metrics);
        let first = seq![Effect::Subscribe { spell_id: spell.spell_id, subscription }];
        assert(subscribe_count(first.drop_last()) == 0);
        assert(subscribe_count(first) == 1);
        if metrics {
            assert(effects.drop_last() =~= first);
        }
    }
}

} // verus!
