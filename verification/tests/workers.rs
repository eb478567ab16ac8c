use sorcerer::{WorkerError, WorkerState, Workers};

fn s(text: &str) -> String {
    text.to_string()
}

fn registry() -> Workers {
    let mut w = Workers::new();
    assert_eq!(w.create(s("deal-1"), s("creator"), s("worker-1")), Ok(()));
    assert_eq!(w.create(s("deal-2"), s("creator"), s("worker-2")), Ok(()));
    w
}

#[test]
fn new_registry_is_empty() {
    let w = Workers::new();
    assert_eq!(w.list(), Vec::<String>::new());
    assert_eq!(w.state(&s("worker-1")), None);
    assert!(!w.contains(&s("worker-1")));
}

#[test]
fn created_worker_is_inactive() {
    let w = registry();
    assert_eq!(w.state(&s("worker-1")), Some(WorkerState::Created));
    assert_eq!(w.is_active(&s("worker-1")), Ok(false));
    assert!(w.contains(&s("worker-1")));
}

#[test]
fn list_is_in_creation_order() {
    let w = registry();
    assert_eq!(w.list(), vec![s("worker-1"), s("worker-2")]);
}

#[test]
fn deal_has_one_worker() {
    let mut w = registry();
    assert_eq!(w.create(s("deal-1"), s("other"), s("worker-9")), Err(WorkerError::DealHasWorker));
    // the deal is checked before the identifier
    assert_eq!(w.create(s("deal-1"), s("other"), s("worker-1")), Err(WorkerError::DealHasWorker));
    assert_eq!(w.list(), vec![s("worker-1"), s("worker-2")]);
}

#[test]
fn worker_id_is_unique() {
    let mut w = registry();
    assert_eq!(w.create(s("deal-3"), s("creator"), s("worker-1")), Err(WorkerError::WorkerIdUsed));
    assert_eq!(w.list(), vec![s("worker-1"), s("worker-2")]);
}

#[test]
fn get_worker_id_by_deal() {
    let w = registry();
    assert_eq!(w.get_worker_id(&s("deal-2")), Ok(s("worker-2")));
    assert_eq!(w.get_worker_id(&s("deal-3")), Err(WorkerError::NotFound));
}

#[test]
fn activate_and_deactivate() {
    let mut w = registry();
    assert_eq!(w.activate(&s("worker-1")), Ok(()));
    assert_eq!(w.state(&s("worker-1")), Some(WorkerState::Active));
    assert_eq!(w.is_active(&s("worker-1")), Ok(true));
    assert_eq!(w.is_active(&s("worker-2")), Ok(false));
    assert_eq!(w.deactivate(&s("worker-1")), Ok(()));
    assert_eq!(w.state(&s("worker-1")), Some(WorkerState::Inactive));
    assert_eq!(w.is_active(&s("worker-1")), Ok(false));
    assert_eq!(w.activate(&s("worker-1")), Ok(()));
    assert_eq!(w.state(&s("worker-1")), Some(WorkerState::Active));
}

#[test]
fn activate_is_idempotent() {
    let mut w = registry();
    assert_eq!(w.activate(&s("worker-1")), Ok(()));
    assert_eq!(w.activate(&s("worker-1")), Ok(()));
    assert_eq!(w.state(&s("worker-1")), Some(WorkerState::Active));
}

#[test]
fn deactivate_is_idempotent() {
    let mut w = registry();
    // a created worker is inactive already and stays as it is
    assert_eq!(w.deactivate(&s("worker-1")), Ok(()));
    assert_eq!(w.state(&s("worker-1")), Some(WorkerState::Created));
    assert_eq!(w.activate(&s("worker-1")), Ok(()));
    assert_eq!(w.deactivate(&s("worker-1")), Ok(()));
    assert_eq!(w.deactivate(&s("worker-1")), Ok(()));
    assert_eq!(w.state(&s("worker-1")), Some(WorkerState::Inactive));
}

#[test]
fn unknown_worker_is_not_found() {
    let mut w = registry();
    assert_eq!(w.activate(&s("worker-9")), Err(WorkerError::NotFound));
    assert_eq!(w.deactivate(&s("worker-9")), Err(WorkerError::NotFound));
    assert_eq!(w.remove(&s("worker-9")), Err(WorkerError::NotFound));
    assert_eq!(w.is_active(&s("worker-9")), Err(WorkerError::NotFound));
}

#[test]
fn remove_from_every_state() {
    let mut w = registry();
    assert_eq!(w.create(s("deal-3"), s("creator"), s("worker-3")), Ok(()));
    assert_eq!(w.activate(&s("worker-2")), Ok(()));
    assert_eq!(w.activate(&s("worker-3")), Ok(()));
    assert_eq!(w.deactivate(&s("worker-3")), Ok(()));
    assert_eq!(w.remove(&s("worker-1")), Ok(()));
    assert_eq!(w.remove(&s("worker-2")), Ok(()));
    assert_eq!(w.remove(&s("worker-3")), Ok(()));
    assert_eq!(w.list(), Vec::<String>::new());
    assert_eq!(w.state(&s("worker-1")), Some(WorkerState::Removed));
    assert_eq!(w.state(&s("worker-2")), Some(WorkerState::Removed));
    assert_eq!(w.state(&s("worker-3")), Some(WorkerState::Removed));
}

#[test]
fn removed_worker_is_not_found_and_stays_removed() {
    let mut w = registry();
    assert_eq!(w.activate(&s("worker-1")), Ok(()));
    assert_eq!(w.remove(&s("worker-1")), Ok(()));
    assert_eq!(w.remove(&s("worker-1")), Err(WorkerError::NotFound));
    assert_eq!(w.activate(&s("worker-1")), Err(WorkerError::NotFound));
    assert_eq!(w.deactivate(&s("worker-1")), Err(WorkerError::NotFound));
    assert_eq!(w.is_active(&s("worker-1")), Err(WorkerError::NotFound));
    assert_eq!(w.state(&s("worker-1")), Some(WorkerState::Removed));
    assert_eq!(w.list(), vec![s("worker-2")]);
    assert_eq!(w.get_worker_id(&s("deal-1")), Err(WorkerError::NotFound));
    assert_eq!(w.state(&s("worker-2")), Some(WorkerState::Created));
}

#[test]
fn removed_worker_id_is_never_reused() {
    let mut w = registry();
    assert_eq!(w.remove(&s("worker-1")), Ok(()));
    assert_eq!(w.create(s("deal-7"), s("creator"), s("worker-1")), Err(WorkerError::WorkerIdUsed));
    // the deal of a removed worker is free again, for another identity
    assert_eq!(w.create(s("deal-1"), s("creator"), s("worker-7")), Ok(()));
    assert_eq!(w.get_worker_id(&s("deal-1")), Ok(s("worker-7")));
    assert_eq!(w.list(), vec![s("worker-2"), s("worker-7")]);
}

fn record(worker: &str, deal: &str, state: WorkerState) -> sorcerer::Worker {
    sorcerer::Worker { worker_id: s(worker), deal_id: s(deal), creator: s("creator"), state }
}

#[test]
fn records_are_kept_and_restored() {
    let mut w = registry();
    assert_eq!(w.activate(&s("worker-2")), Ok(()));
    assert_eq!(w.remove(&s("worker-1")), Ok(()));
    let kept = w.records();
    assert_eq!(
        kept,
        vec![
            record("worker-1", "deal-1", WorkerState::Removed),
            record("worker-2", "deal-2", WorkerState::Active),
        ]
    );
    let restored = Workers::restore(kept.clone()).expect("records of a registry are well-formed");
    assert_eq!(restored, w);
    assert_eq!(restored.records(), kept);
    assert_eq!(restored.is_active(&s("worker-2")), Ok(true));
    assert_eq!(restored.state(&s("worker-1")), Some(WorkerState::Removed));
    assert_eq!(Workers::restore(vec![]), Some(Workers::new()));
}

#[test]
fn restore_refuses_records_that_share_an_identifier_or_a_deal() {
    // one identifier twice, even where one of the workers is removed
    assert_eq!(
        Workers::restore(vec![
            record("worker-1", "deal-1", WorkerState::Removed),
            record("worker-1", "deal-2", WorkerState::Active),
        ]),
        None
    );
    // one deal for two workers that are not removed
    assert_eq!(
        Workers::restore(vec![
            record("worker-1", "deal-1", WorkerState::Created),
            record("worker-2", "deal-2", WorkerState::Active),
            record("worker-3", "deal-1", WorkerState::Inactive),
        ]),
        None
    );
    // a removed worker does not hold its deal
    assert!(Workers::restore(vec![
        record("worker-1", "deal-1", WorkerState::Removed),
        record("worker-2", "deal-1", WorkerState::Removed),
        record("worker-3", "deal-1", WorkerState::Active),
    ])
    .is_some());
}

#[test]
fn clone_of_a_record_is_equal() {
    let r = record("worker-1", "deal-1", WorkerState::Active);
    assert_eq!(r.clone(), r);
}
