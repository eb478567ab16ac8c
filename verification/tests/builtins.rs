use serde_json::Value;
use sorcerer::outcome::list_value;
use sorcerer::spell_builtins::{get_spell_id, spell_install, spell_remove, spell_update_config};
use sorcerer::{
    blocking_outcome, resolve, wrap, wrap_unit, Builtin, BuiltinError, CallParams, ClockConfig,
    ConfigError, ConnectionPoolConfig, CustomService, Effect, FunctionOutcome, PeerScope,
    ServiceFunction, Sorcerer, SorcererConfig, Subscription, TimerConfig, TriggerConfig,
    WorkerError, WorkerState, Workers, MAX_PERIOD_SEC,
};

fn s(text: &str) -> String {
    text.to_string()
}

fn sorcerer(worker_period_sec: u32) -> Sorcerer {
    let config = SorcererConfig { max_spell_particle_ttl_ms: 120_000, worker_period_sec };
    Sorcerer::new(Workers::new(), s("12D3KooWHost"), config, false).0
}

fn table() -> Vec<(String, CustomService)> {
    let config = SorcererConfig { max_spell_particle_ttl_ms: 120_000, worker_period_sec: 3 };
    Sorcerer::new(Workers::new(), s("12D3KooWHost"), config, false).1
}

fn handler(builtin: Builtin, returns_value: bool, blocking: bool) -> ServiceFunction {
    ServiceFunction { builtin, returns_value, blocking }
}

fn clock(start_sec: u32, end_sec: u32, period_sec: u32) -> TriggerConfig {
    TriggerConfig {
        clock: ClockConfig { start_sec, end_sec, period_sec },
        connections: ConnectionPoolConfig { connect: false, disconnect: false },
    }
}

fn periodic(period_sec: u32) -> Subscription {
    Subscription {
        timer: Some(TimerConfig { period_sec, start_at_sec: 1, end_at_sec: None }),
        connect: false,
        disconnect: false,
    }
}

#[test]
fn new_takes_its_settings_from_the_config() {
    let config = SorcererConfig { max_spell_particle_ttl_ms: 120_000, worker_period_sec: 3 };
    let (sorcerer, _) = Sorcerer::new(Workers::new(), s("12D3KooWHost"), config, true);
    assert_eq!(sorcerer.host_peer_id, "12D3KooWHost");
    assert_eq!(sorcerer.spell_script_particle_ttl_ms, 120_000);
    assert_eq!(sorcerer.worker_period_sec, 3);
    assert!(sorcerer.spell_metrics);
    assert_eq!(sorcerer.workers, Workers::new());
}

#[test]
fn builtin_services_are_five() {
    let names: Vec<String> = table().into_iter().map(|(name, _)| name).collect();
    assert_eq!(names, vec!["spell", "getDataSrv", "errorHandlingSrv", "callbackSrv", "worker"]);
}

#[test]
fn spell_services_and_their_functions() {
    let services = sorcerer(3).make_spell_builtins();
    assert_eq!(services.len(), 4);
    assert_eq!(
        services[0],
        (
            s("spell"),
            CustomService {
                functions: vec![
                    (s("install"), handler(Builtin::SpellInstall, true, false)),
                    (s("remove"), handler(Builtin::SpellRemove, false, false)),
                    (s("list"), handler(Builtin::SpellList, true, false)),
                    (
                        s("update_trigger_config"),
                        handler(Builtin::SpellUpdateTriggerConfig, false, false)
                    ),
                ],
                fallback: None,
            }
        )
    );
    assert_eq!(
        services[1],
        (
            s("getDataSrv"),
            CustomService {
                functions: vec![
                    (s("spell_id"), handler(Builtin::GetSpellId, true, false)),
                    (s("-relay-"), handler(Builtin::GetRelay, true, false)),
                ],
                fallback: Some(handler(Builtin::GetSpellArg, true, false)),
            }
        )
    );
    assert_eq!(
        services[2],
        (
            s("errorHandlingSrv"),
            CustomService {
                functions: vec![(s("error"), handler(Builtin::StoreError, false, false))],
                fallback: None,
            }
        )
    );
    assert_eq!(
        services[3],
        (
            s("callbackSrv"),
            CustomService {
                functions: vec![(s("response"), handler(Builtin::StoreResponse, false, false))],
                fallback: None,
            }
        )
    );
}

#[test]
fn worker_service_and_its_functions() {
    assert_eq!(
        sorcerer(3).make_worker_builtin(),
        (
            s("worker"),
            CustomService {
                functions: vec![
                    (s("create"), handler(Builtin::WorkerCreate, true, false)),
                    (s("get_worker_id"), handler(Builtin::WorkerGetWorkerId, true, false)),
                    (s("remove"), handler(Builtin::WorkerRemove, false, false)),
                    (s("list"), handler(Builtin::WorkerList, true, false)),
                    (s("activate"), handler(Builtin::WorkerActivate, false, false)),
                    (s("deactivate"), handler(Builtin::WorkerDeactivate, false, false)),
                    (s("is_active"), handler(Builtin::WorkerIsActive, true, true)),
                ],
                fallback: None,
            }
        )
    );
}

#[test]
fn calls_resolve_by_service_and_function() {
    let table = table();
    assert_eq!(resolve(&table, "spell", "install"), Some(handler(Builtin::SpellInstall, true, false)));
    assert_eq!(resolve(&table, "spell", "remove"), Some(handler(Builtin::SpellRemove, false, false)));
    assert_eq!(resolve(&table, "worker", "remove"), Some(handler(Builtin::WorkerRemove, false, false)));
    assert_eq!(resolve(&table, "spell", "list"), Some(handler(Builtin::SpellList, true, false)));
    assert_eq!(resolve(&table, "worker", "list"), Some(handler(Builtin::WorkerList, true, false)));
    assert_eq!(resolve(&table, "callbackSrv", "response"), Some(handler(Builtin::StoreResponse, false, false)));
    assert_eq!(resolve(&table, "errorHandlingSrv", "error"), Some(handler(Builtin::StoreError, false, false)));
}

#[test]
fn unknown_names_resolve_to_nothing() {
    let table = table();
    assert_eq!(resolve(&table, "spell", "activate"), None);
    assert_eq!(resolve(&table, "worker", "install"), None);
    assert_eq!(resolve(&table, "workers", "list"), None);
    assert_eq!(resolve(&table, "", ""), None);
    assert_eq!(resolve(&table, "errorHandlingSrv", "response"), None);
    assert_eq!(resolve(&vec![], "spell", "install"), None);
}

#[test]
fn get_data_service_falls_back_to_the_spell_argument() {
    let table = table();
    assert_eq!(resolve(&table, "getDataSrv", "spell_id"), Some(handler(Builtin::GetSpellId, true, false)));
    assert_eq!(resolve(&table, "getDataSrv", "-relay-"), Some(handler(Builtin::GetRelay, true, false)));
    assert_eq!(resolve(&table, "getDataSrv", "anything"), Some(handler(Builtin::GetSpellArg, true, false)));
    assert_eq!(resolve(&table, "getDataSrv", ""), Some(handler(Builtin::GetSpellArg, true, false)));
}

#[test]
fn later_entry_of_a_name_wins() {
    let service = CustomService::new(
        vec![
            (s("f"), handler(Builtin::SpellList, true, false)),
            (s("g"), handler(Builtin::SpellRemove, false, false)),
            (s("f"), handler(Builtin::WorkerList, true, false)),
        ],
        None,
    );
    assert_eq!(service.resolve("f"), Some(handler(Builtin::WorkerList, true, false)));
    assert_eq!(service.resolve("g"), Some(handler(Builtin::SpellRemove, false, false)));
    assert_eq!(service.resolve("h"), None);
}

#[test]
fn only_is_active_runs_in_the_blocking_context() {
    for (_, service) in table() {
        for (name, function) in &service.functions {
            assert_eq!(function.blocking, function.builtin == Builtin::WorkerIsActive, "{name}");
        }
        if let Some(function) = service.fallback {
            assert!(!function.blocking);
        }
    }
    assert!(resolve(&table(), "worker", "is_active").unwrap().blocking);
    assert!(sorcerer(3).make_is_deal_active_closure().blocking);
}

#[test]
fn wrap_keeps_the_value() {
    assert_eq!(wrap(Ok(Value::Bool(true))), FunctionOutcome::Returned(Value::Bool(true)));
    assert_eq!(wrap(Ok(Value::Null)), FunctionOutcome::Returned(Value::Null));
    assert_eq!(
        wrap(Err(BuiltinError::Service(s("down")))),
        FunctionOutcome::Failed(BuiltinError::Service(s("down")))
    );
}

#[test]
fn wrap_unit_returns_nothing() {
    assert_eq!(wrap_unit(Ok(())), FunctionOutcome::Empty);
    assert_eq!(
        wrap_unit(Err(BuiltinError::Worker(WorkerError::NotFound))),
        FunctionOutcome::Failed(BuiltinError::Worker(WorkerError::NotFound))
    );
}

#[test]
fn unit_handler_hands_no_value_on() {
    for (_, service) in table() {
        let fallback = service.fallback.into_iter();
        for function in service.functions.iter().map(|(_, f)| *f).chain(fallback) {
            let outcome = function.outcome(Ok(Value::String(s("value"))));
            if function.returns_value {
                assert_eq!(outcome, FunctionOutcome::Returned(Value::String(s("value"))));
                assert!(outcome.has_value());
            } else {
                assert_eq!(outcome, FunctionOutcome::Empty);
                assert!(!outcome.has_value());
            }
            let failed = function.outcome(Err(BuiltinError::Service(s("down"))));
            assert_eq!(failed, FunctionOutcome::Failed(BuiltinError::Service(s("down"))));
            assert!(!failed.has_value());
        }
    }
}

#[test]
fn value_and_unit_builtins() {
    let with_value = [
        Builtin::SpellInstall,
        Builtin::SpellList,
        Builtin::GetSpellId,
        Builtin::GetRelay,
        Builtin::GetSpellArg,
        Builtin::WorkerCreate,
        Builtin::WorkerGetWorkerId,
        Builtin::WorkerList,
        Builtin::WorkerIsActive,
    ];
    for (_, service) in table() {
        let fallback = service.fallback.into_iter();
        for function in service.functions.iter().map(|(_, f)| *f).chain(fallback) {
            assert_eq!(function.returns_value, with_value.contains(&function.builtin));
        }
    }
}

#[test]
fn blocking_context_that_fails_gives_an_error() {
    assert_eq!(
        blocking_outcome(Ok(FunctionOutcome::Returned(Value::Bool(false)))),
        FunctionOutcome::Returned(Value::Bool(false))
    );
    assert_eq!(blocking_outcome(Ok(FunctionOutcome::Empty)), FunctionOutcome::Empty);
    assert_eq!(
        blocking_outcome(Err(s("task panicked"))),
        FunctionOutcome::Failed(BuiltinError::Blocking(s("task panicked")))
    );
}

#[test]
fn relay_is_the_host_peer_id_as_json_string() {
    let so = sorcerer(3);
    assert_eq!(so.get_relay(), Ok(Value::String(s("12D3KooWHost"))));
    assert_eq!(
        so.make_get_relay_closure().outcome(so.get_relay()),
        FunctionOutcome::Returned(Value::String(s("12D3KooWHost")))
    );
}

#[test]
fn list_value_is_a_json_array_of_strings() {
    assert_eq!(list_value(&vec![]), Value::Array(vec![]));
    assert_eq!(
        list_value(&vec![s("a"), s("b")]),
        Value::Array(vec![Value::String(s("a")), Value::String(s("b"))])
    );
}

#[test]
fn local_params_carry_the_time_to_live() {
    let p = sorcerer(3).local_params(PeerScope::WorkerId(s("worker-1")), s("spell-1"), s("owner"));
    assert_eq!(
        p,
        CallParams {
            peer_scope: PeerScope::WorkerId(s("worker-1")),
            spell_id: s("spell-1"),
            init_peer_id: s("owner"),
            ttl_ms: 120_000,
        }
    );
    assert_eq!(CallParams::local(PeerScope::Host, s("spell-1"), s("owner"), 5).ttl_ms, 5);
}

#[test]
fn spell_id_comes_from_the_call_params() {
    let p = CallParams::local(PeerScope::Host, s("spell-1"), s("owner"), 5);
    assert_eq!(get_spell_id(&p), Ok(Value::String(s("spell-1"))));
}

#[test]
fn install_stores_the_config_and_subscribes() {
    let r = spell_install(&s("spell-1"), &clock(10, 0, 5));
    assert_eq!(
        r,
        Ok((
            vec![
                Effect::StoreTriggerConfig { spell_id: s("spell-1"), config: clock(10, 0, 5) },
                Effect::Subscribe {
                    spell_id: s("spell-1"),
                    subscription: Subscription {
                        timer: Some(TimerConfig { period_sec: 5, start_at_sec: 10, end_at_sec: None }),
                        connect: false,
                        disconnect: false,
                    },
                },
            ],
            Value::String(s("spell-1")),
        ))
    );
}

#[test]
fn install_with_empty_config_subscribes_nothing() {
    let r = spell_install(&s("spell-1"), &TriggerConfig::empty());
    assert_eq!(
        r,
        Ok((
            vec![Effect::StoreTriggerConfig { spell_id: s("spell-1"), config: TriggerConfig::empty() }],
            Value::String(s("spell-1")),
        ))
    );
}

#[test]
fn install_refuses_a_malformed_config() {
    assert_eq!(
        spell_install(&s("spell-1"), &clock(1, 0, MAX_PERIOD_SEC + 1)),
        Err(BuiltinError::Config(ConfigError::InvalidPeriod))
    );
    assert_eq!(
        spell_install(&s("spell-1"), &clock(5, 4, 1)),
        Err(BuiltinError::Config(ConfigError::InvalidEndSec))
    );
}

#[test]
fn update_unsubscribes_before_it_subscribes() {
    assert_eq!(
        spell_update_config(&s("spell-1"), &TriggerConfig::periodic(9)),
        Ok(vec![
            Effect::StoreTriggerConfig { spell_id: s("spell-1"), config: TriggerConfig::periodic(9) },
            Effect::Unsubscribe { spell_id: s("spell-1") },
            Effect::Subscribe { spell_id: s("spell-1"), subscription: periodic(9) },
        ])
    );
    assert_eq!(
        spell_update_config(&s("spell-1"), &TriggerConfig::empty()),
        Ok(vec![
            Effect::StoreTriggerConfig { spell_id: s("spell-1"), config: TriggerConfig::empty() },
            Effect::Unsubscribe { spell_id: s("spell-1") },
        ])
    );
    assert_eq!(
        spell_update_config(&s("spell-1"), &clock(1, 0, MAX_PERIOD_SEC + 1)),
        Err(BuiltinError::Config(ConfigError::InvalidPeriod))
    );
}

#[test]
fn remove_unsubscribes_before_it_deletes() {
    assert_eq!(
        spell_remove(&s("spell-1")),
        vec![
            Effect::Unsubscribe { spell_id: s("spell-1") },
            Effect::RemoveSpell { spell_id: s("spell-1") },
        ]
    );
}

#[test]
fn create_worker_returns_its_id() {
    let mut so = sorcerer(3);
    assert_eq!(
        so.create_worker(s("deal-1"), s("creator"), s("worker-1")),
        Ok(Value::String(s("worker-1")))
    );
    assert_eq!(so.workers.state(&s("worker-1")), Some(WorkerState::Created));
    assert_eq!(
        so.create_worker(s("deal-1"), s("creator"), s("worker-2")),
        Err(BuiltinError::Worker(WorkerError::DealHasWorker))
    );
    assert_eq!(
        so.create_worker(s("deal-2"), s("creator"), s("worker-1")),
        Err(BuiltinError::Worker(WorkerError::WorkerIdUsed))
    );
    assert_eq!(so.workers.list(), vec![s("worker-1")]);
    assert_eq!(so.worker_period_sec, 3);
    assert_eq!(so.host_peer_id, "12D3KooWHost");
}

#[test]
fn worker_id_and_list_are_json() {
    let mut so = sorcerer(3);
    assert_eq!(so.worker_list(), Ok(Value::Array(vec![])));
    so.create_worker(s("deal-1"), s("creator"), s("worker-1")).unwrap();
    so.create_worker(s("deal-2"), s("creator"), s("worker-2")).unwrap();
    assert_eq!(so.get_worker_peer_id(&s("deal-2")), Ok(Value::String(s("worker-2"))));
    assert_eq!(
        so.get_worker_peer_id(&s("deal-3")),
        Err(BuiltinError::Worker(WorkerError::NotFound))
    );
    assert_eq!(
        so.worker_list(),
        Ok(Value::Array(vec![Value::String(s("worker-1")), Value::String(s("worker-2"))]))
    );
}

#[test]
fn is_deal_active_is_a_json_boolean() {
    let mut so = sorcerer(3);
    so.create_worker(s("deal-1"), s("creator"), s("worker-1")).unwrap();
    assert_eq!(so.is_deal_active(&s("worker-1")), Ok(Value::Bool(false)));
    so.activate_deal(&s("worker-1"), &vec![]).unwrap();
    assert_eq!(so.is_deal_active(&s("worker-1")), Ok(Value::Bool(true)));
    assert_eq!(so.is_deal_active(&s("worker-9")), Err(BuiltinError::Worker(WorkerError::NotFound)));
}

#[test]
fn activate_puts_each_spell_on_the_worker_period() {
    let mut so = sorcerer(3);
    so.create_worker(s("deal-1"), s("creator"), s("worker-1")).unwrap();
    let effects = so.activate_deal(&s("worker-1"), &vec![s("spell-a"), s("spell-b")]);
    assert_eq!(
        effects,
        Ok(vec![
            Effect::StoreTriggerConfig { spell_id: s("spell-a"), config: TriggerConfig::periodic(3) },
            Effect::Unsubscribe { spell_id: s("spell-a") },
            Effect::Subscribe { spell_id: s("spell-a"), subscription: periodic(3) },
            Effect::StoreTriggerConfig { spell_id: s("spell-b"), config: TriggerConfig::periodic(3) },
            Effect::Unsubscribe { spell_id: s("spell-b") },
            Effect::Subscribe { spell_id: s("spell-b"), subscription: periodic(3) },
        ])
    );
    assert_eq!(so.workers.state(&s("worker-1")), Some(WorkerState::Active));
    // once more: the same plan, the worker stays active
    assert_eq!(so.activate_deal(&s("worker-1"), &vec![s("spell-a"), s("spell-b")]), effects);
    assert_eq!(so.workers.state(&s("worker-1")), Some(WorkerState::Active));
}

#[test]
fn activate_refuses_an_unknown_worker_and_a_period_over_the_limit() {
    let mut so = sorcerer(3);
    assert_eq!(
        so.activate_deal(&s("worker-1"), &vec![s("spell-a")]),
        Err(BuiltinError::Worker(WorkerError::NotFound))
    );
    let mut so = sorcerer(MAX_PERIOD_SEC + 1);
    so.create_worker(s("deal-1"), s("creator"), s("worker-1")).unwrap();
    assert_eq!(
        so.activate_deal(&s("worker-1"), &vec![s("spell-a")]),
        Err(BuiltinError::Config(ConfigError::InvalidPeriod))
    );
    assert_eq!(so.workers.state(&s("worker-1")), Some(WorkerState::Created));
    let mut so = sorcerer(MAX_PERIOD_SEC);
    so.create_worker(s("deal-1"), s("creator"), s("worker-1")).unwrap();
    assert!(so.activate_deal(&s("worker-1"), &vec![s("spell-a")]).is_ok());
}

#[test]
fn deactivate_takes_each_spell_off_its_period() {
    let mut so = sorcerer(3);
    so.create_worker(s("deal-1"), s("creator"), s("worker-1")).unwrap();
    so.activate_deal(&s("worker-1"), &vec![s("spell-a")]).unwrap();
    let effects = so.deactivate_deal(&s("worker-1"), &vec![s("spell-a"), s("spell-b")]);
    assert_eq!(
        effects,
        Ok(vec![
            Effect::Unsubscribe { spell_id: s("spell-a") },
            Effect::StoreTriggerConfig { spell_id: s("spell-a"), config: TriggerConfig::empty() },
            Effect::Unsubscribe { spell_id: s("spell-b") },
            Effect::StoreTriggerConfig { spell_id: s("spell-b"), config: TriggerConfig::empty() },
        ])
    );
    assert_eq!(so.workers.state(&s("worker-1")), Some(WorkerState::Inactive));
    assert_eq!(so.deactivate_deal(&s("worker-1"), &vec![s("spell-a"), s("spell-b")]), effects);
    assert_eq!(so.workers.state(&s("worker-1")), Some(WorkerState::Inactive));
    assert_eq!(
        so.deactivate_deal(&s("worker-9"), &vec![]),
        Err(BuiltinError::Worker(WorkerError::NotFound))
    );
}

#[test]
fn remove_worker_plans_the_teardown_before_the_removal() {
    let mut so = sorcerer(3);
    so.create_worker(s("deal-1"), s("creator"), s("worker-1")).unwrap();
    let plan = so.remove_worker(&s("worker-1"), &vec![s("spell-a"), s("spell-b")]);
    assert_eq!(
        plan,
        Ok(vec![
            Effect::Unsubscribe { spell_id: s("spell-a") },
            Effect::Unsubscribe { spell_id: s("spell-b") },
            Effect::RemoveWorker { worker_id: s("worker-1") },
        ])
    );
    // planning changes nothing
    assert_eq!(so.workers.state(&s("worker-1")), Some(WorkerState::Created));
    assert_eq!(
        so.remove_worker(&s("worker-1"), &vec![]),
        Ok(vec![Effect::RemoveWorker { worker_id: s("worker-1") }])
    );
    assert_eq!(
        so.remove_worker(&s("worker-9"), &vec![s("spell-a")]),
        Err(BuiltinError::Worker(WorkerError::NotFound))
    );
}

#[test]
fn clone_of_an_effect_is_equal() {
    let effects = vec![
        Effect::Subscribe { spell_id: s("spell-1"), subscription: periodic(2) },
        Effect::Unsubscribe { spell_id: s("spell-1") },
        Effect::StoreTriggerConfig { spell_id: s("spell-1"), config: clock(1, 2, 3) },
        Effect::RemoveSpell { spell_id: s("spell-1") },
        Effect::ObserveStartedSpell { period_sec: 4 },
        Effect::RemoveWorker { worker_id: s("worker-1") },
    ];
    for e in &effects {
        assert_eq!(&e.clone(), e);
    }
}
