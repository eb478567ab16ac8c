//! The orchestrator: its settings, its worker registry and its call
//! surface.

use crate::events::EventLoop;
use crate::recovery::{recoveries, recovery_views, resubscribe, Recovery, RegisteredSpell};
use crate::service::{services_view, Builtin, CustomService, CustomServiceView, ServiceFunction};
use crate::workers::Workers;
use vstd::prelude::*;

verus! {

/// The settings that the orchestrator takes from the node's configuration.
#[derive(Clone, Copy, Debug, PartialEq, Eq, Structural)]
pub struct SorcererConfig {
    /// The longest time that a particle of a spell script may live, in
    /// milliseconds. Calls that start on this node get this time-to-live.
    pub max_spell_particle_ttl_ms: u64,
    /// The period, in seconds, at which the spells of an active worker
    /// fire.
    pub worker_period_sec: u32,
}

/// The orchestrator.
#[derive(Debug, PartialEq, Eq)]
pub struct Sorcerer {
    /// The worker registry.
    pub workers: Workers,
    /// The peer identity of this node, as text.
    pub host_peer_id: String,
    pub spell_script_particle_ttl_ms: u64,
    pub worker_period_sec: u32,
    /// Whether started spells are counted.
    pub spell_metrics: bool,
}

/// The scope in which a call runs: the node itself, or one of its workers.
#[derive(Debug, PartialEq, Eq)]
pub enum PeerScope {
    Host,
    WorkerId(String),
}

/// The parameters of a call into a spell's own service.
#[derive(Debug, PartialEq, Eq)]
pub struct CallParams {
    /// The scope in which the spell lives.
    pub peer_scope: PeerScope,
    /// The spell that is called.
    pub spell_id: String,
    /// The peer in whose name the call is made.
    pub init_peer_id: String,
    /// The time-to-live of the call, in milliseconds.
    pub ttl_ms: u64,
}

impl CallParams {
    /// The parameters of a call that starts on this node.
    pub fn local(peer_scope: PeerScope, spell_id: String, init_peer_id: String, ttl_ms: u64) -> (r:
        CallParams)
        ensures
            r == (CallParams { peer_scope, spell_id, init_peer_id, ttl_ms }),
    {
        CallParams { peer_scope, spell_id, init_peer_id, ttl_ms }
    }
}

/// The four services for spells, in the order in which they are built.
pub open spec fn spell_services() -> Seq<(Seq<char>, CustomServiceView)> {
    seq![
        (
            "spell"@,
            CustomServiceView {
                functions: seq![
                    ("install"@, Builtin::SpellInstall.handler()),
                    ("remove"@, Builtin::SpellRemove.handler()),
                    ("list"@, Builtin::SpellList.handler()),
                    ("update_trigger_config"@, Builtin::SpellUpdateTriggerConfig.handler()),
                ],
                fallback: None,
            },
        ),
        (
            "getDataSrv"@,
            CustomServiceView {
                functions: seq![
                    ("spell_id"@, Builtin::GetSpellId.handler()),
                    ("-relay-"@, Builtin::GetRelay.handler()),
                ],
                fallback: Some(Builtin::GetSpellArg.handler()),
            },
        ),
        (
            "errorHandlingSrv"@,
            CustomServiceView {
                functions: seq![("error"@, Builtin::StoreError.handler())],
                fallback: None,
            },
        ),
        (
            "callbackSrv"@,
            CustomServiceView {
                functions: seq![("response"@, Builtin::StoreResponse.handler())],
                fallback: None,
            },
        ),
    ]
}

/// The service for workers.
pub open spec fn worker_service() -> (Seq<char>, CustomServiceView) {
    (
        "worker"@,
        CustomServiceView {
            functions: seq![
                ("create"@, Builtin::WorkerCreate.handler()),
                ("get_worker_id"@, Builtin::WorkerGetWorkerId.handler()),
                ("remove"@, Builtin::WorkerRemove.handler()),
                ("list"@, Builtin::WorkerList.handler()),
                ("activate"@, Builtin::WorkerActivate.handler()),
                ("deactivate"@, Builtin::WorkerDeactivate.handler()),
                ("is_active"@, Builtin::WorkerIsActive.handler()),
            ],
            fallback: None,
        },
    )
}

/// All builtin services: those for spells, then the one for workers.
pub open spec fn builtin_services() -> Seq<(Seq<char>, CustomServiceView)> {
    spell_services().push(worker_service())
}

/// A handler under its name.
fn entry(name: &str, function: ServiceFunction) -> (r: (String, ServiceFunction))
    ensures
        r.0@ == name@,
        r.1 == function,
{
    (name.to_owned(), function)
}

/// A service under its name.
fn service(name: &str, functions: Vec<(String, ServiceFunction)>, fallback: Option<ServiceFunction>)
    -> (r: (String, CustomService))
    ensures
        r.0@ == name@,
        r.1.functions == functions,
        r.1.fallback == fallback,
{
    (name.to_owned(), CustomService::new(functions, fallback))
}

impl Sorcerer {
    /// The invariant of the orchestrator: that of its worker registry.
    pub open spec fn wf(&self) -> bool {
        self.workers.wf()
    }

    /// What no builtin call changes.
    pub open spec fn settings(&self) -> (String, u64, u32, bool) {
        (
            self.host_peer_id,
            self.spell_script_particle_ttl_ms,
            self.worker_period_sec,
            self.spell_metrics,
        )
    }

    /// The orchestrator over a worker registry, with its builtin services.
    ///
    /// The orchestrator holds the registry and the peer identity as they
    /// are given, and takes the time-to-live of spell particles and the
    /// worker period from `config`. The services are those for spells
    /// followed by the one for workers.
    pub fn new(
        workers: Workers,
        host_peer_id: String,
        config: SorcererConfig,
        spell_metrics: bool,
    ) -> (r: (Sorcerer, Vec<(String, CustomService)>))
        requires
            workers.wf(),
        ensures
            r.0.wf(),
            r.0.workers == workers,
            r.0.host_peer_id == host_peer_id,
            r.0.spell_script_particle_ttl_ms == config.max_spell_particle_ttl_ms,
            r.0.worker_period_sec == config.worker_period_sec,
            r.0.spell_metrics == spell_metrics,
            services_view(r.1@) == builtin_services(),
    {
        let sorcerer = Sorcerer {
            workers,
            host_peer_id,
            spell_script_particle_ttl_ms: config.max_spell_particle_ttl_ms,
            worker_period_sec: config.worker_period_sec,
            spell_metrics,
        };
        let mut builtin_functions = sorcerer.make_spell_builtins();
        builtin_functions.push(sorcerer.make_worker_builtin());
        (sorcerer, builtin_functions)
    }

    /// Starts the orchestrator at `now_sec`, a second of the epoch.
    ///
    /// The result holds what recovery does for each registered spell, in
    /// the order of `spells` and each as `recover` decides it for that
    /// spell alone, and the event loop, open, which launches runs under
    /// the orchestrator's time-to-live. The caller performs the recoveries
    /// before it hands the first event to the loop.
    pub fn start(&self, spells: &Vec<RegisteredSpell>, now_sec: u64) -> (r: (
        Vec<Recovery>,
        EventLoop,
    ))
        ensures
            recovery_views(r.0@) == recoveries(spells@, now_sec, self.spell_metrics),
            r.1 == (EventLoop { ttl_ms: self.spell_script_particle_ttl_ms, closed: false }),
    {
        let recovered = self.resubscribe_spells(spells, now_sec);
        (recovered, EventLoop::new(self.spell_script_particle_ttl_ms))
    }

    /// Decides what recovery does for each registered spell at `now_sec`.
    ///
    /// The result holds one recovery for each spell, in the order of
    /// `spells`. A spell is skipped, with the reason, where its owner is
    /// unknown, where it has no stored trigger configuration, where that
    /// configuration is malformed or asks for nothing, and where nothing of
    /// it is left to wait for. For any other the recovery holds the request
    /// to subscribe to what is left of its configuration, followed by the
    /// count of a started spell where started spells are counted. No
    /// recovery holds anything else: a skipped spell stays registered.
    pub fn resubscribe_spells(&self, spells: &Vec<RegisteredSpell>, now_sec: u64) -> (r: Vec<
        Recovery,
    >)
        ensures
            recovery_views(r@) == recoveries(spells@, now_sec, self.spell_metrics),
    {
        resubscribe(spells, now_sec, self.spell_metrics)
    }

    /// The parameters of a call into spell `spell_id` that starts on this
    /// node in the name of `owner`: the time-to-live is the orchestrator's.
    pub fn local_params(&self, peer_scope: PeerScope, spell_id: String, owner: String) -> (r:
        CallParams)
        ensures
            r == (CallParams {
                peer_scope,
                spell_id,
                init_peer_id: owner,
                ttl_ms: self.spell_script_particle_ttl_ms,
            }),
    {
        CallParams::local(peer_scope, spell_id, owner, self.spell_script_particle_ttl_ms)
    }

    /// The services for spells: `spell`, `getDataSrv`, `errorHandlingSrv`
    /// and `callbackSrv`, each with its handlers under their names. Only
    /// `getDataSrv` has a fallback, the lookup of a spell argument.
    pub fn make_spell_builtins(&self) -> (r: Vec<(String, CustomService)>)
        ensures
            services_view(r@) == spell_services(),
    {
        let mut spell_builtins: Vec<(String, CustomService)> = Vec::new();

        let mut spell: Vec<(String, ServiceFunction)> = Vec::new();
        spell.push(entry("install", self.make_spell_install_closure()));
        spell.push(entry("remove", self.make_spell_remove_closure()));
        spell.push(entry("list", self.make_spell_list_closure()));
        spell.push(entry("update_trigger_config", self.make_spell_update_config_closure()));
        assert(crate::service::functions_view(spell@) =~= spell_services()[0].1.functions);
        spell_builtins.push(service("spell", spell, None));

        let mut get_data: Vec<(String, ServiceFunction)> = Vec::new();
        get_data.push(entry("spell_id", self.make_get_spell_id_closure()));
        get_data.push(entry("-relay-", self.make_get_relay_closure()));
        assert(crate::service::functions_view(get_data@) =~= spell_services()[1].1.functions);
        spell_builtins.push(
            service("getDataSrv", get_data, Some(self.make_get_spell_arg_closure())),
        );

        let mut error_handling: Vec<(String, ServiceFunction)> = Vec::new();
        error_handling.push(entry("error", self.make_error_handler_closure()));
        assert(crate::service::functions_view(error_handling@) =~= spell_services()[2].1.functions);
        spell_builtins.push(service("errorHandlingSrv", error_handling, None));

        let mut callback: Vec<(String, ServiceFunction)> = Vec::new();
        callback.push(entry("response", self.make_response_handler_closure()));
        assert(crate::service::functions_view(callback@) =~= spell_services()[3].1.functions);
        spell_builtins.push(service("callbackSrv", callback, None));

        spell_builtins
    }

    /// The service for workers, `worker`, with its seven handlers under
    /// their names and without fallback.
    pub fn make_worker_builtin(&self) -> (r: (String, CustomService))
        ensures
            (r.0@, r.1@) == worker_service(),
    {
        let mut worker: Vec<(String, ServiceFunction)> = Vec::new();
        worker.push(entry("create", self.make_worker_create_closure()));
        worker.push(entry("get_worker_id", self.make_worker_get_worker_id_closure()));
        worker.push(entry("remove", self.make_worker_remove_closure()));
        worker.push(entry("list", self.make_worker_list_closure()));
        worker.push(entry("activate", self.make_activate_deal_closure()));
        worker.push(entry("deactivate", self.make_deactivate_deal_closure()));
        worker.push(entry("is_active", self.make_is_deal_active_closure()));
        assert(crate::service::functions_view(worker@) =~= worker_service().1.functions);
        service("worker", worker, None)
    }

    /// The handler of `spell.install`. It returns the identifier of the
    /// installed spell.
    pub fn make_spell_install_closure(&self) -> (r: ServiceFunction)
        ensures
            r == Builtin::SpellInstall.handler(),
            r.returns_value && !r.blocking,
    {
        ServiceFunction { builtin: Builtin::SpellInstall, returns_value: true, blocking: false }
    }

    /// The handler of `spell.remove`. It returns nothing.
    pub fn make_spell_remove_closure(&self) -> (r: ServiceFunction)
        ensures
            r == Builtin::SpellRemove.handler(),
            !r.returns_value && !r.blocking,
    {
        ServiceFunction { builtin: Builtin::SpellRemove, returns_value: false, blocking: false }
    }

    /// The handler of `spell.list`. It returns the registered spells.
    pub fn make_spell_list_closure(&self) -> (r: ServiceFunction)
        ensures
            r == Builtin::SpellList.handler(),
            r.returns_value && !r.blocking,
    {
        ServiceFunction { builtin: Builtin::SpellList, returns_value: true, blocking: false }
    }

    /// The handler of `spell.update_trigger_config`. It returns nothing.
    pub fn make_spell_update_config_closure(&self) -> (r: ServiceFunction)
        ensures
            r == Builtin::SpellUpdateTriggerConfig.handler(),
            !r.returns_value && !r.blocking,
    {
        ServiceFunction {
            builtin: Builtin::SpellUpdateTriggerConfig,
            returns_value: false,
            blocking: false,
        }
    }

    /// The handler of `getDataSrv.spell_id`. It returns the identifier of
    /// the calling spell.
    pub fn make_get_spell_id_closure(&self) -> (r: ServiceFunction)
        ensures
            r == Builtin::GetSpellId.handler(),
            r.returns_value && !r.blocking,
    {
        ServiceFunction { builtin: Builtin::GetSpellId, returns_value: true, blocking: false }
    }

    /// The handler of `getDataSrv.-relay-`. It returns the peer identity
    /// of this node.
    pub fn make_get_relay_closure(&self) -> (r: ServiceFunction)
        ensures
            r == Builtin::GetRelay.handler(),
            r.returns_value && !r.blocking,
    {
        ServiceFunction { builtin: Builtin::GetRelay, returns_value: true, blocking: false }
    }

    /// The handler of every other function of `getDataSrv`. It returns
    /// the spell argument that is stored under the function's name.
    pub fn make_get_spell_arg_closure(&self) -> (r: ServiceFunction)
        ensures
            r == Builtin::GetSpellArg.handler(),
            r.returns_value && !r.blocking,
    {
        ServiceFunction { builtin: Builtin::GetSpellArg, returns_value: true, blocking: false }
    }

    /// The handler of `errorHandlingSrv.error`. It returns nothing.
    pub fn make_error_handler_closure(&self) -> (r: ServiceFunction)
        ensures
            r == Builtin::StoreError.handler(),
            !r.returns_value && !r.blocking,
    {
        ServiceFunction { builtin: Builtin::StoreError, returns_value: false, blocking: false }
    }

    /// The handler of `callbackSrv.response`. It returns nothing.
    pub fn make_response_handler_closure(&self) -> (r: ServiceFunction)
        ensures
            r == Builtin::StoreResponse.handler(),
            !r.returns_value && !r.blocking,
    {
        ServiceFunction { builtin: Builtin::StoreResponse, returns_value: false, blocking: false }
    }

    /// The handler of `worker.create`. It returns the identifier of the
    /// new worker.
    pub fn make_worker_create_closure(&self) -> (r: ServiceFunction)
        ensures
            r == Builtin::WorkerCreate.handler(),
            r.returns_value && !r.blocking,
    {
        ServiceFunction { builtin: Builtin::WorkerCreate, returns_value: true, blocking: false }
    }

    /// The handler of `worker.get_worker_id`. It returns the identifier
    /// of the worker of a deal.
    pub fn make_worker_get_worker_id_closure(&self) -> (r: ServiceFunction)
        ensures
            r == Builtin::WorkerGetWorkerId.handler(),
            r.returns_value && !r.blocking,
    {
        ServiceFunction {
            builtin: Builtin::WorkerGetWorkerId,
            returns_value: true,
            blocking: false,
        }
    }

    /// The handler of `worker.list`. It returns the identifiers of the
    /// workers.
    pub fn make_worker_list_closure(&self) -> (r: ServiceFunction)
        ensures
            r == Builtin::WorkerList.handler(),
            r.returns_value && !r.blocking,
    {
        ServiceFunction { builtin: Builtin::WorkerList, returns_value: true, blocking: false }
    }

    /// The handler of `worker.remove`. It returns nothing.
    pub fn make_worker_remove_closure(&self) -> (r: ServiceFunction)
        ensures
            r == Builtin::WorkerRemove.handler(),
            !r.returns_value && !r.blocking,
    {
        ServiceFunction { builtin: Builtin::WorkerRemove, returns_value: false, blocking: false }
    }

    /// The handler of `worker.activate`. It returns nothing.
    pub fn make_activate_deal_closure(&self) -> (r: ServiceFunction)
        ensures
            r == Builtin::WorkerActivate.handler(),
            !r.returns_value && !r.blocking,
    {
        ServiceFunction { builtin: Builtin::WorkerActivate, returns_value: false, blocking: false }
    }

    /// The handler of `worker.deactivate`. It returns nothing.
    pub fn make_deactivate_deal_closure(&self) -> (r: ServiceFunction)
        ensures
            r == Builtin::WorkerDeactivate.handler(),
            !r.returns_value && !r.blocking,
    {
        ServiceFunction {
            builtin: Builtin::WorkerDeactivate,
            returns_value: false,
            blocking: false,
        }
    }

    /// The handler of `worker.is_active`. It returns whether the deal is
    /// active. The check may block, so this handler, and no other, runs in
    /// the context for blocking work.
    pub fn make_is_deal_active_closure(&self) -> (r: ServiceFunction)
        ensures
            r == Builtin::WorkerIsActive.handler(),
            r.returns_value && r.blocking,
    {
        ServiceFunction { builtin: Builtin::WorkerIsActive, returns_value: true, blocking: true }
    }
}

} // verus!
