//! The builtins that install, change and remove spells, and those that a
//! running spell calls for its own data.

use crate::effects::Effect;
use crate::outcome::{json_string, json_text, BuiltinError};
use crate::sorcerer::{CallParams, Sorcerer};
use crate::trigger::{from_user_config, TriggerConfig};
use serde_json::Value;
use vstd::prelude::*;

verus! {

/// The effects of installing a spell: its trigger configuration is stored
/// and, where the configuration asks for something, the spell is
/// subscribed.
pub open spec fn installation(spell_id: String, config: TriggerConfig) -> Seq<Effect> {
    let store = seq![Effect::StoreTriggerConfig { spell_id, config }];
    match config.subscription() {
        Ok(Some(subscription)) => store.push(Effect::Subscribe { spell_id, subscription }),
        _ => store,
    }
}

/// The effects of replacing the trigger configuration of a spell: the new
/// one is stored, the subscription is dropped and, where the new
/// configuration asks for something, the spell is subscribed again.
pub open spec fn replacement(spell_id: String, config: TriggerConfig) -> Seq<Effect> {
    let first = seq![
        Effect::StoreTriggerConfig { spell_id, config },
        Effect::Unsubscribe { spell_id },
    ];
    match config.subscription() {
        Ok(Some(subscription)) => first.push(Effect::Subscribe { spell_id, subscription }),
        _ => first,
    }
}

/// The effects of removing a spell: its subscription is dropped, then the
/// spell is deleted from the registry.
pub open spec fn removal(spell_id: String) -> Seq<Effect> {
    seq![Effect::Unsubscribe { spell_id }, Effect::RemoveSpell { spell_id }]
}

/// Installs the spell that the registry has created as `spell_id`.
///
/// A malformed configuration is refused with its fault, and nothing is to
/// be done. Otherwise the result holds the effects of `installation` and
/// the value that the calling script gets, the spell's identifier.
pub fn spell_install(spell_id: &String, config: &TriggerConfig) -> (r: Result<
    (Vec<Effect>, Value),
    BuiltinError,
>)
    ensures
        match config.subscription() {
            Err(e) => r == Err::<(Vec<Effect>, Value), BuiltinError>(BuiltinError::Config(e)),
            Ok(_) => r matches Ok((effects, value)) && effects@ == installation(*spell_id, *config)
                && value == json_text(spell_id@),
        },
{
    let subscription = match from_user_config(config) {
        Ok(s) => s,
        Err(e) => {
            return Err(BuiltinError::Config(e));
        },
    };
    let mut effects: Vec<Effect> = Vec::new();
    effects.push(Effect::StoreTriggerConfig { spell_id: spell_id.clone(), config: *config });
    if let Some(subscription) = subscription {
        effects.push(Effect::Subscribe { spell_id: spell_id.clone(), subscription });
    }
    Ok((effects, json_string(spell_id.clone())))
}

/// Replaces the trigger configuration of a spell.
///
/// A malformed configuration is refused with its fault, and nothing is to
/// be done. Otherwise the result holds the effects of `replacement`: the
/// spell is never subscribed while an earlier subscription may be live.
pub fn spell_update_config(spell_id: &String, config: &TriggerConfig) -> (r: Result<
    Vec<Effect>,
    BuiltinError,
>)
    ensures
        match config.subscription() {
            Err(e) => r == Err::<Vec<Effect>, BuiltinError>(BuiltinError::Config(e)),
            Ok(_) => r matches Ok(effects) && effects@ == replacement(*spell_id, *config),
        },
{
    let subscription = match from_user_config(config) {
        Ok(s) => s,
        Err(e) => {
            return Err(BuiltinError::Config(e));
        },
    };
    let mut effects: Vec<Effect> = Vec::new();
    effects.push(Effect::StoreTriggerConfig { spell_id: spell_id.clone(), config: *config });
    effects.push(Effect::Unsubscribe { spell_id: spell_id.clone() });
    if let Some(subscription) = subscription {
        effects.push(Effect::Subscribe { spell_id: spell_id.clone(), subscription });
    }
    Ok(effects)
}

/// Removes a spell: the result holds the effects of `removal`.
pub fn spell_remove(spell_id: &String) -> (r: Vec<Effect>)
    ensures
        r@ == removal(*spell_id),
{
    let mut effects: Vec<Effect> = Vec::new();
    effects.push(Effect::Unsubscribe { spell_id: spell_id.clone() });
    effects.push(Effect::RemoveSpell { spell_id: spell_id.clone() });
    effects
}

/// The identifier of the spell that makes the call, as a JSON string.
pub fn get_spell_id(params: &CallParams) -> (r: Result<Value, BuiltinError>)
    ensures
        r == Ok::<Value, BuiltinError>(json_text(params.spell_id@)),
{
    Ok(json_string(params.spell_id.clone()))
}

impl Sorcerer {
    /// The peer identity of this node, as a JSON string.
    pub fn get_relay(&self) -> (r: Result<Value, BuiltinError>)
        ensures
            r == Ok::<Value, BuiltinError>(json_text(self.host_peer_id@)),
    {
        Ok(json_string(self.host_peer_id.clone()))
    }
}

} // verus!
