use vstd::prelude::*;
use crate::address::{derive_address, experiment_address};
use crate::state::{Address, Experiment, ExperimentStatus};

verus! {

/// Why an instruction was refused. A refused instruction changes nothing.
#[derive(Clone, Copy, Debug, PartialEq, Eq, Structural)]
pub enum VotiusError {
    /// The signer is not the experiment's authority.
    Unauthorized,
    /// The experiment was already completed.
    AlreadyCompleted,
    /// An experiment already lives at the address.
    DuplicateAllocation,
    /// No experiment lives at the account.
    NotFound,
    /// The event counter is at its largest value.
    CounterOverflow,
    /// No trusted time could be had.
    ClockUnavailable,
    /// The account is not at the address derived from the authority and the id.
    AddressMismatch,
}

/// An account that may hold an experiment: its key and, once created, its record.
#[derive(Clone, Copy, Debug, PartialEq, Eq)]
pub struct ExperimentAccount {
    pub key: Address,
    pub data: Option<Experiment>,
}

/// The accounts of a creation: the signing authority and the account to fill.
#[derive(Clone, Copy, Debug, PartialEq, Eq)]
pub struct InitializeExperiment {
    pub authority: Address,
    pub experiment: ExperimentAccount,
}

/// The accounts of an event append: the signer and the experiment's account.
#[derive(Clone, Copy, Debug, PartialEq, Eq)]
pub struct RecordEvent {
    pub authority: Address,
    pub experiment: ExperimentAccount,
}

/// The accounts of a completion: the experiment's account and the signer.
#[derive(Clone, Copy, Debug, PartialEq, Eq)]
pub struct CompleteExperiment {
    pub experiment: ExperimentAccount,
    pub authority: Address,
}

/// Notification of an appended event.
#[derive(Clone, Copy, Debug, PartialEq, Eq)]
pub struct ExperimentEvent {
    /// The experiment's address.
    pub experiment: Address,
    /// The event count after the append: the first event has index 1.
    pub index: u64,
    /// The caller's digest, carried as it came.
    pub hash: [u8; 32],
    pub timestamp: i64,
    /// Whether the experiment was already completed.
    pub post_completion: bool,
}

/// Notification of a completion.
#[derive(Clone, Copy, Debug, PartialEq, Eq)]
pub struct ExperimentCompletedEvent {
    pub experiment: Address,
    pub timestamp: i64,
}

/// The accounts after a creation and its outcome.
pub open spec fn initialize_transition(ctx: InitializeExperiment, experiment_id: u64, now: Option<
    i64,
>) -> (InitializeExperiment, Result<(), VotiusError>) {
    match experiment_address(ctx.authority, experiment_id) {
        None => (ctx, Err(VotiusError::AddressMismatch)),
        Some(a) => if a != ctx.experiment.key@ {
            (ctx, Err(VotiusError::AddressMismatch))
        } else if ctx.experiment.data is Some {
            (ctx, Err(VotiusError::DuplicateAllocation))
        } else {
            match now {
                None => (ctx, Err(VotiusError::ClockUnavailable)),
                Some(t) => {
                    let record = Experiment {
                        authority: ctx.authority,
                        experiment_id,
                        event_count: 0,
                        status: ExperimentStatus::Active,
                        created_at: t,
                    };
                    (
                        InitializeExperiment {
                            authority: ctx.authority,
                            experiment: ExperimentAccount { key: ctx.experiment.key, data: Some(record) },
                        },
                        Ok(()),
                    )
                },
            }
        },
    }
}

/// The accounts after an event append and its outcome.
pub open spec fn record_event_transition(ctx: RecordEvent, event_hash: [u8; 32], now: Option<i64>) -> (
    RecordEvent,
    Result<ExperimentEvent, VotiusError>,
) {
    match ctx.experiment.data {
        None => (ctx, Err(VotiusError::NotFound)),
        Some(e) => if ctx.authority != e.authority {
            (ctx, Err(VotiusError::Unauthorized))
        } else if e.event_count == u64::MAX {
            (ctx, Err(VotiusError::CounterOverflow))
        } else {
            match now {
                None => (ctx, Err(VotiusError::ClockUnavailable)),
                Some(t) => {
                    let index = (e.event_count + 1) as u64;
                    let record = Experiment {
                        authority: e.authority,
                        experiment_id: e.experiment_id,
                        event_count: index,
                        status: e.status,
                        created_at: e.created_at,
                    };
                    let event = ExperimentEvent {
                        experiment: ctx.experiment.key,
                        index,
                        hash: event_hash,
                        timestamp: t,
                        post_completion: e.status == ExperimentStatus::Completed,
                    };
                    (
                        RecordEvent {
                            authority: ctx.authority,
                            experiment: ExperimentAccount { key: ctx.experiment.key, data: Some(record) },
                        },
                        Ok(event),
                    )
                },
            }
        },
    }
}

/// The accounts after a completion and its outcome.
pub open spec fn complete_transition(ctx: CompleteExperiment, now: Option<i64>) -> (
    CompleteExperiment,
    Result<ExperimentCompletedEvent, VotiusError>,
) {
    match ctx.experiment.data {
        None => (ctx, Err(VotiusError::NotFound)),
        Some(e) => if ctx.authority != e.authority {
            (ctx, Err(VotiusError::Unauthorized))
        } else if e.status != ExperimentStatus::Active {
            (ctx, Err(VotiusError::AlreadyCompleted))
        } else {
            match now {
                None => (ctx, Err(VotiusError::ClockUnavailable)),
                Some(t) => {
                    let record = Experiment {
                        authority: e.authority,
                        experiment_id: e.experiment_id,
                        event_count: e.event_count,
                        status: ExperimentStatus::Completed,
                        created_at: e.created_at,
                    };
                    (
                        CompleteExperiment {
                            experiment: ExperimentAccount { key: ctx.experiment.key, data: Some(record) },
                            authority: ctx.authority,
                        },
                        Ok(ExperimentCompletedEvent { experiment: ctx.experiment.key, timestamp: t }),
                    )
                },
            }
        },
    }
}

/// Relies on anchor_lang's `Clock::get` (the clock sysvar). The time depends on
/// the cluster, so nothing is promised of it, nor that it is had at all.
#[verifier::external_body]
fn clock_now() -> (r: Option<i64>) {
    <anchor_lang::prelude::Clock as anchor_lang::prelude::SolanaSysvar>::get().ok().map(
        |clock| clock.unix_timestamp,
    )
}

/// Admits `presented` to change `record` only when it is the record's authority.
pub fn authorize(record: &Experiment, presented: &Address) -> (r: Result<(), VotiusError>)
    ensures
        r == (if *presented == record.authority {
            Ok::<(), VotiusError>(())
        } else {
            Err(VotiusError::Unauthorized)
        }),
{
    if presented.same_as(&record.authority) {
        Ok(())
    } else {
        Err(VotiusError::Unauthorized)
    }
}

/// Creates the experiment `(ctx.authority, experiment_id)` in `ctx.experiment`,
/// at time `now`.
pub fn initilize_experiment_at(
    ctx: &mut InitializeExperiment,
    experiment_id: u64,
    now: Option<i64>,
) -> (r: Result<(), VotiusError>)
    ensures
        (*final(ctx), r) == initialize_transition(*old(ctx), experiment_id, now),
{
    let address = match derive_address(&ctx.authority, experiment_id) {
        None => {
            return Err(VotiusError::AddressMismatch);
        },
        Some(a) => a,
    };
    if !address.same_as(&ctx.experiment.key) {
        proof {
            if address@ == ctx.experiment.key@ {
                assert(address.bytes =~= ctx.experiment.key.bytes);
            }
        }
        return Err(VotiusError::AddressMismatch);
    }
    if ctx.experiment.data.is_some() {
        return Err(VotiusError::DuplicateAllocation);
    }
    match now {
        None => Err(VotiusError::ClockUnavailable),
        Some(t) => {
            ctx.experiment.data = Some(
                Experiment {
                    authority: ctx.authority,
                    experiment_id,
                    event_count: 0,
                    status: ExperimentStatus::Active,
                    created_at: t,
                },
            );
            Ok(())
        },
    }
}

/// Creates the experiment `(ctx.authority, experiment_id)`, stamped with the
/// cluster's clock.
pub fn initilize_experiment(ctx: &mut InitializeExperiment, experiment_id: u64) -> (r: Result<
    (),
    VotiusError,
>)
    ensures
        exists|now: Option<i64>|
            (*final(ctx), r) == #[trigger] initialize_transition(*old(ctx), experiment_id, now),
{
    let now = clock_now();
    initilize_experiment_at(ctx, experiment_id, now)
}

/// Appends an event with digest `event_hash` to the experiment in
/// `ctx.experiment`, at time `now`, and returns its notification.
pub fn record_event_at(ctx: &mut RecordEvent, event_hash: [u8; 32], now: Option<i64>) -> (r: Result<
    ExperimentEvent,
    VotiusError,
>)
    ensures
        (*final(ctx), r) == record_event_transition(*old(ctx), event_hash, now),
{
    let e = match ctx.experiment.data {
        None => {
            return Err(VotiusError::NotFound);
        },
        Some(e) => e,
    };
    if let Err(err) = authorize(&e, &ctx.authority) {
        return Err(err);
    }
    if e.event_count == u64::MAX {
        return Err(VotiusError::CounterOverflow);
    }
    match now {
        None => Err(VotiusError::ClockUnavailable),
        Some(t) => {
            let index = e.event_count + 1;
            ctx.experiment.data = Some(
                Experiment {
                    authority: e.authority,
                    experiment_id: e.experiment_id,
                    event_count: index,
                    status: e.status,
                    created_at: e.created_at,
                },
            );
            Ok(
                ExperimentEvent {
                    experiment: ctx.experiment.key,
                    index,
                    hash: event_hash,
                    timestamp: t,
                    post_completion: e.status == ExperimentStatus::Completed,
                },
            )
        },
    }
}

/// Appends an event with digest `event_hash`, stamped with the cluster's clock.
pub fn record_event(ctx: &mut RecordEvent, event_hash: [u8; 32]) -> (r: Result<
    ExperimentEvent,
    VotiusError,
>)
    ensures
        exists|now: Option<i64>|
            (*final(ctx), r) == #[trigger] record_event_transition(*old(ctx), event_hash, now),
{
    let now = clock_now();
    record_event_at(ctx, event_hash, now)
}

/// Completes the experiment in `ctx.experiment` at time `now` and returns the
/// notification.
pub fn complete_experiment_at(ctx: &mut CompleteExperiment, now: Option<i64>) -> (r: Result<
    ExperimentCompletedEvent,
    VotiusError,
>)
    ensures
        (*final(ctx), r) == complete_transition(*old(ctx), now),
{
    let e = match ctx.experiment.data {
        None => {
            return Err(VotiusError::NotFound);
        },
        Some(e) => e,
    };
    if let Err(err) = authorize(&e, &ctx.authority) {
        return Err(err);
    }
    if e.status != ExperimentStatus::Active {
        return Err(VotiusError::AlreadyCompleted);
    }
    match now {
        None => Err(VotiusError::ClockUnavailable),
        Some(t) => {
            ctx.experiment.data = Some(
                Experiment {
                    authority: e.authority,
                    experiment_id: e.experiment_id,
                    event_count: e.event_count,
                    status: ExperimentStatus::Completed,
                    created_at: e.created_at,
                },
            );
            Ok(ExperimentCompletedEvent { experiment: ctx.experiment.key, timestamp: t })
        },
    }
}

/// Completes the experiment, stamped with the cluster's clock.
pub fn complete_experiment(ctx: &mut CompleteExperiment) -> (r: Result<
    ExperimentCompletedEvent,
    VotiusError,
>)
    ensures
        exists|now: Option<i64>|
            (*final(ctx), r) == #[trigger] complete_transition(*old(ctx), now),
{
    let now = clock_now();
    complete_experiment_at(ctx, now)
}

} // verus!
