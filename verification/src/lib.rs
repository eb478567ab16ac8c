//! Decisions of a spell orchestrator.
//!
//! A spell is a script that runs by itself when its trigger fires. The
//! orchestrator restores the subscriptions of the registered spells at
//! startup, launches a run for every trigger event, and serves the builtin
//! calls by which scripts manage spells and workers.
//!
//! This crate holds the decisions only. The services around the
//! orchestrator are reached by the caller: every operation here takes what
//! the caller has read as plain values and hands back the effects that the
//! caller is to perform. The same holds of the node's network behaviour,
//! which queues whom the swarm is to dial.

pub mod behaviour;
pub mod effects;
pub mod events;
pub mod laws;
pub mod outcome;
pub mod recovery;
pub mod service;
pub mod sorcerer;
pub mod spell_builtins;
pub mod trigger;
pub mod worker_builtins;
pub mod workers;

pub use crate::behaviour::{DialPeerCondition, P2PBehaviour, SwarmEventType};
pub use crate::effects::Effect;
pub use crate::events::{EventLoop, Launch, TriggerEvent, TriggerInfo};
pub use crate::outcome::{blocking_outcome, wrap, wrap_unit, BuiltinError, FunctionOutcome};
pub use crate::recovery::{Recovery, RegisteredSpell, Skip};
pub use crate::service::{resolve, Builtin, CustomService, ServiceFunction};
pub use crate::sorcerer::{CallParams, PeerScope, Sorcerer, SorcererConfig};
pub use crate::trigger::{
    from_user_config, ClockConfig, ConfigError, ConnectionPoolConfig, Subscription, TimerConfig,
    TriggerConfig, MAX_PERIOD_SEC,
};
pub use crate::workers::{Worker, WorkerError, WorkerState, Workers};
