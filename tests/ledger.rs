use std::str::FromStr;

use anchor_lang::prelude::Pubkey;
use votius_core::{
    authorize, complete_experiment, complete_experiment_at, derive_address, initilize_experiment,
    initilize_experiment_at, record_event, record_event_at, Address, CompleteExperiment,
    Experiment, ExperimentAccount, ExperimentStatus, InitializeExperiment, RecordEvent,
    VotiusError, PROGRAM_ID,
};

fn key(b: u8) -> Address {
    Address::new([b; 32])
}

fn created(authority: Address, id: u64, now: i64) -> ExperimentAccount {
    let address = derive_address(&authority, id).unwrap();
    let mut ctx = InitializeExperiment {
        authority,
        experiment: ExperimentAccount { key: address, data: None },
    };
    assert_eq!(initilize_experiment_at(&mut ctx, id, Some(now)), Ok(()));
    ctx.experiment
}

fn append(
    account: &mut ExperimentAccount,
    signer: Address,
    hash: [u8; 32],
    now: i64,
) -> Result<votius_core::ExperimentEvent, VotiusError> {
    let mut ctx = RecordEvent { authority: signer, experiment: *account };
    let r = record_event_at(&mut ctx, hash, Some(now));
    *account = ctx.experiment;
    r
}

fn complete(
    account: &mut ExperimentAccount,
    signer: Address,
    now: i64,
) -> Result<votius_core::ExperimentCompletedEvent, VotiusError> {
    let mut ctx = CompleteExperiment { experiment: *account, authority: signer };
    let r = complete_experiment_at(&mut ctx, Some(now));
    *account = ctx.experiment;
    r
}

#[test]
fn program_id_is_the_declared_key() {
    let declared = Pubkey::from_str("Cv9dh2aKWosf9nh7Qks2hkTurnLwTi4tX9XMqYY4d9oL").unwrap();
    assert_eq!(declared.to_bytes(), PROGRAM_ID);
}

#[test]
fn derive_address_matches_program_derivation() {
    let authority = key(3);
    let program = Pubkey::new_from_array(PROGRAM_ID);
    let seeds: [&[u8]; 2] = [&authority.bytes, &42u64.to_le_bytes()];
    let (expected, _) = Pubkey::find_program_address(&seeds, &program);
    let got = derive_address(&authority, 42).unwrap();
    assert_eq!(got.bytes, expected.to_bytes());
    assert_ne!(got, authority);
}

#[test]
fn derive_address_is_deterministic() {
    let a = key(1);
    assert_eq!(derive_address(&a, 42), derive_address(&a, 42));
}

#[test]
fn derive_address_separates_authorities_and_ids() {
    let a = derive_address(&key(1), 42).unwrap();
    let b = derive_address(&key(2), 42).unwrap();
    let c = derive_address(&key(1), 43).unwrap();
    assert_ne!(a, b);
    assert_ne!(a, c);
    assert_ne!(b, c);
}

#[test]
fn create_sets_fields() {
    let auth_a = key(1);
    let account = created(auth_a, 42, 100);
    assert_eq!(account.key, derive_address(&auth_a, 42).unwrap());
    assert_eq!(
        account.data,
        Some(Experiment {
            authority: auth_a,
            experiment_id: 42,
            event_count: 0,
            status: ExperimentStatus::Active,
            created_at: 100,
        })
    );
}

#[test]
fn first_event() {
    let auth_a = key(1);
    let mut account = created(auth_a, 42, 100);
    let ev = append(&mut account, auth_a, [0x11; 32], 101).unwrap();
    assert_eq!(ev.index, 1);
    assert!(!ev.post_completion);
    assert_eq!(ev.hash, [0x11; 32]);
    assert_eq!(ev.timestamp, 101);
    assert_eq!(ev.experiment, account.key);
    assert_eq!(account.data.unwrap().event_count, 1);
}

#[test]
fn complete_then_already_completed() {
    let auth_a = key(1);
    let mut account = created(auth_a, 42, 100);
    append(&mut account, auth_a, [0x11; 32], 101).unwrap();
    let done = complete(&mut account, auth_a, 102).unwrap();
    assert_eq!(done.experiment, account.key);
    assert_eq!(done.timestamp, 102);
    assert_eq!(account.data.unwrap().status, ExperimentStatus::Completed);
    let before = account;
    assert_eq!(complete(&mut account, auth_a, 103), Err(VotiusError::AlreadyCompleted));
    assert_eq!(account, before);
}

#[test]
fn event_after_completion() {
    let auth_a = key(1);
    let mut account = created(auth_a, 42, 100);
    append(&mut account, auth_a, [0x11; 32], 101).unwrap();
    complete(&mut account, auth_a, 102).unwrap();
    let ev = append(&mut account, auth_a, [0x22; 32], 104).unwrap();
    assert_eq!(ev.index, 2);
    assert!(ev.post_completion);
    let record = account.data.unwrap();
    assert_eq!(record.event_count, 2);
    assert_eq!(record.status, ExperimentStatus::Completed);
}

#[test]
fn unauthorized_event() {
    let auth_a = key(1);
    let auth_b = key(2);
    let mut account = created(auth_a, 42, 100);
    append(&mut account, auth_a, [0x11; 32], 101).unwrap();
    complete(&mut account, auth_a, 102).unwrap();
    append(&mut account, auth_a, [0x22; 32], 104).unwrap();
    let before = account;
    assert_eq!(append(&mut account, auth_b, [0x33; 32], 105), Err(VotiusError::Unauthorized));
    assert_eq!(account, before);
    assert_eq!(account.data.unwrap().event_count, 2);
}

#[test]
fn duplicate_allocation() {
    let auth_a = key(1);
    let account = created(auth_a, 42, 100);
    let mut ctx = InitializeExperiment { authority: auth_a, experiment: account };
    assert_eq!(
        initilize_experiment_at(&mut ctx, 42, Some(106)),
        Err(VotiusError::DuplicateAllocation)
    );
    assert_eq!(ctx.experiment, account);
}

#[test]
fn unauthorized_complete_changes_nothing() {
    let auth_a = key(1);
    let mut account = created(auth_a, 7, 100);
    let before = account;
    assert_eq!(complete(&mut account, key(9), 101), Err(VotiusError::Unauthorized));
    assert_eq!(account, before);
    assert_eq!(account.data.unwrap().status, ExperimentStatus::Active);
}

#[test]
fn counter_counts_only_successes() {
    let auth_a = key(1);
    let mut account = created(auth_a, 5, 100);
    let mut successes: u64 = 0;
    for k in 0..6u8 {
        let signer = if k == 2 { key(8) } else { auth_a };
        match append(&mut account, signer, [k; 32], 200 + k as i64) {
            Ok(ev) => {
                successes += 1;
                assert_eq!(ev.index, successes);
            }
            Err(e) => assert_eq!(e, VotiusError::Unauthorized),
        }
    }
    assert_eq!(successes, 5);
    assert_eq!(account.data.unwrap().event_count, 5);
}

#[test]
fn counter_overflow_is_refused() {
    let auth_a = key(1);
    let mut account = created(auth_a, 5, 100);
    let mut record = account.data.unwrap();
    record.event_count = u64::MAX;
    account.data = Some(record);
    let before = account;
    assert_eq!(append(&mut account, auth_a, [1; 32], 101), Err(VotiusError::CounterOverflow));
    assert_eq!(account, before);
}

#[test]
fn missing_record_is_not_found() {
    let mut account = ExperimentAccount { key: key(4), data: None };
    assert_eq!(append(&mut account, key(1), [1; 32], 1), Err(VotiusError::NotFound));
    assert_eq!(complete(&mut account, key(1), 1), Err(VotiusError::NotFound));
    assert_eq!(account.data, None);
}

#[test]
fn create_at_wrong_address_is_refused() {
    let auth_a = key(1);
    let other = derive_address(&auth_a, 43).unwrap();
    let mut ctx = InitializeExperiment {
        authority: auth_a,
        experiment: ExperimentAccount { key: other, data: None },
    };
    assert_eq!(initilize_experiment_at(&mut ctx, 42, Some(1)), Err(VotiusError::AddressMismatch));
    assert_eq!(ctx.experiment.data, None);
}

#[test]
fn missing_time_changes_nothing() {
    let auth_a = key(1);
    let address = derive_address(&auth_a, 42).unwrap();
    let mut init = InitializeExperiment {
        authority: auth_a,
        experiment: ExperimentAccount { key: address, data: None },
    };
    assert_eq!(initilize_experiment_at(&mut init, 42, None), Err(VotiusError::ClockUnavailable));
    assert_eq!(init.experiment.data, None);

    let account = created(auth_a, 42, 100);
    let mut ev = RecordEvent { authority: auth_a, experiment: account };
    assert_eq!(record_event_at(&mut ev, [1; 32], None), Err(VotiusError::ClockUnavailable));
    assert_eq!(ev.experiment, account);
    let mut done = CompleteExperiment { experiment: account, authority: auth_a };
    assert_eq!(complete_experiment_at(&mut done, None), Err(VotiusError::ClockUnavailable));
    assert_eq!(done.experiment, account);
}

#[test]
fn host_without_cluster_clock_changes_nothing() {
    let auth_a = key(1);
    let address = derive_address(&auth_a, 42).unwrap();
    let mut init = InitializeExperiment {
        authority: auth_a,
        experiment: ExperimentAccount { key: address, data: None },
    };
    assert_eq!(initilize_experiment(&mut init, 42), Err(VotiusError::ClockUnavailable));
    let account = created(auth_a, 42, 100);
    let mut ev = RecordEvent { authority: auth_a, experiment: account };
    assert_eq!(record_event(&mut ev, [1; 32]), Err(VotiusError::ClockUnavailable));
    assert_eq!(ev.experiment, account);
    let mut done = CompleteExperiment { experiment: account, authority: auth_a };
    assert_eq!(complete_experiment(&mut done), Err(VotiusError::ClockUnavailable));
    assert_eq!(done.experiment, account);
}

#[test]
fn authorization_precedes_other_checks() {
    let auth_a = key(1);
    let mut account = created(auth_a, 42, 100);
    complete(&mut account, auth_a, 101).unwrap();
    assert_eq!(complete(&mut account, key(2), 102), Err(VotiusError::Unauthorized));
    let mut ev = RecordEvent { authority: key(2), experiment: account };
    assert_eq!(record_event_at(&mut ev, [1; 32], None), Err(VotiusError::Unauthorized));
}

#[test]
fn authorize_admits_only_the_authority() {
    let account = created(key(1), 42, 100);
    let record = account.data.unwrap();
    assert_eq!(authorize(&record, &key(1)), Ok(()));
    assert_eq!(authorize(&record, &key(2)), Err(VotiusError::Unauthorized));
    let mut near = [1u8; 32];
    near[31] = 0;
    assert_eq!(authorize(&record, &Address::new(near)), Err(VotiusError::Unauthorized));
}
