use vstd::prelude::*;
use crate::program::{
    complete_transition, record_event_transition, CompleteExperiment, ExperimentAccount,
    ExperimentCompletedEvent, ExperimentEvent, RecordEvent, VotiusError,
};
use crate::state::{Address, ExperimentStatus};

verus! {

/// One call of an event append: the signer, the digest and the time had.
pub type EventCall = (Address, [u8; 32], Option<i64>);

/// The account and the outcomes after the calls `calls`, in order, on `account`.
pub open spec fn run_record_events(account: ExperimentAccount, calls: Seq<EventCall>) -> (
    ExperimentAccount,
    Seq<Result<ExperimentEvent, VotiusError>>,
)
    decreases calls.len(),
{
    if calls.len() == 0 {
        (account, seq![])
    } else {
        let (mid, outs) = run_record_events(account, calls.drop_last());
        let call = calls.last();
        let (next, out) = record_event_transition(
            RecordEvent { authority: call.0, experiment: mid },
            call.1,
            call.2,
        );
        (next.experiment, outs.push(out))
    }
}

/// How many of `outs` are successes.
pub open spec fn count_ok(outs: Seq<Result<ExperimentEvent, VotiusError>>) -> nat
    decreases outs.len(),
{
    if outs.len() == 0 {
        0
    } else {
        count_ok(outs.drop_last()) + if outs.last() is Ok {
            1nat
        } else {
            0nat
        }
    }
}

/// A signer other than the authority is refused with `Unauthorized`, by both
/// the event append and the completion, and the account is left as it was.
pub proof fn lemma_authorization_gate(
    account: ExperimentAccount,
    presented: Address,
    event_hash: [u8; 32],
    now: Option<i64>,
)
    requires
        account.data is Some,
        presented != account.data->0.authority,
    ensures
        record_event_transition((RecordEvent { authority: presented, experiment: account }), event_hash, now)
            == ((RecordEvent { authority: presented, experiment: account }), Err::<
            ExperimentEvent,
            VotiusError,
        >(VotiusError::Unauthorized)),
        complete_transition((CompleteExperiment { experiment: account, authority: presented }), now).0
            == (CompleteExperiment { experiment: account, authority: presented }),
        complete_transition((CompleteExperiment { experiment: account, authority: presented }), now).1
            == Err::<ExperimentCompletedEvent, VotiusError>(VotiusError::Unauthorized),
{
}

/// Event appends count: from a record with `start` events, the count after any
/// calls is `start` plus the number of successes, and the success that is
/// the `k`-th in order carries index `start + k`.
pub proof fn lemma_counter_monotonic(account: ExperimentAccount, calls: Seq<EventCall>)
    requires
        account.data is Some,
    ensures
        ({
            let (last, outs) = run_record_events(account, calls);
            &&& outs.len() == calls.len()
            &&& last.data is Some
            &&& last.data->0.event_count == account.data->0.event_count + count_ok(outs)
            &&& forall|k: int|
                0 <= k < outs.len() && #[trigger] outs[k] is Ok ==> outs[k]->Ok_0.index
                    == account.data->0.event_count + count_ok(outs.take(k + 1))
        }),
    decreases calls.len(),
{
    if calls.len() > 0 {
        lemma_counter_monotonic(account, calls.drop_last());
        let (mid, prev) = run_record_events(account, calls.drop_last());
        let (last, outs) = run_record_events(account, calls);
        assert(outs.drop_last() =~= prev);
        assert forall|k: int| 0 <= k < outs.len() && #[trigger] outs[k] is Ok implies outs[k]->Ok_0.index
            == account.data->0.event_count + count_ok(outs.take(k + 1)) by {
            if k < prev.len() {
                assert(outs.take(k + 1) =~= prev.take(k + 1));
            } else {
                assert(outs.take(k + 1) =~= outs);
            }
        }
    }
}

/// Starting from a record with no events, the count after any calls equals the
/// number of successes, and the `k`-th success carries index `k`.
pub proof fn lemma_fresh_counter(account: ExperimentAccount, calls: Seq<EventCall>)
    requires
        account.data is Some,
        account.data->0.event_count == 0,
    ensures
        ({
            let (last, outs) = run_record_events(account, calls);
            &&& last.data is Some
            &&& last.data->0.event_count == count_ok(outs)
            &&& forall|k: int|
                0 <= k < outs.len() && #[trigger] outs[k] is Ok ==> outs[k]->Ok_0.index == count_ok(
                    outs.take(k + 1),
                )
        }),
{
    lemma_counter_monotonic(account, calls);
}

/// A completed record stays completed: a completion on it fails, with
/// `AlreadyCompleted` when the authority signs, and neither a completion nor an
/// event append changes its status.
pub proof fn lemma_completed_is_terminal(
    account: ExperimentAccount,
    presented: Address,
    event_hash: [u8; 32],
    now: Option<i64>,
)
    requires
        account.data is Some,
        account.data->0.status == ExperimentStatus::Completed,
    ensures
        complete_transition((CompleteExperiment { experiment: account, authority: presented }), now).0.experiment
            == account,
        presented == account.data->0.authority ==> complete_transition(
            (CompleteExperiment { experiment: account, authority: presented }),
            now,
        ).1 == Err::<ExperimentCompletedEvent, VotiusError>(
            VotiusError::AlreadyCompleted,
        ),
        complete_transition((CompleteExperiment { experiment: account, authority: presented }), now).1 is Err,
        ({
            let after = record_event_transition(
                (RecordEvent { authority: presented, experiment: account }),
                event_hash,
                now,
            ).0.experiment;
            after.data is Some && after.data->0.status == ExperimentStatus::Completed
        }),
{
}

/// Completion is one-way: once a completion succeeds, the record is completed
/// and a later completion by its authority fails with `AlreadyCompleted`.
pub proof fn lemma_completion_one_way(ctx: CompleteExperiment, now: Option<i64>, later: Option<i64>)
    requires
        complete_transition(ctx, now).1 is Ok,
    ensures
        ({
            let after = complete_transition(ctx, now).0;
            &&& after.experiment.data is Some
            &&& after.experiment.data->0.status == ExperimentStatus::Completed
            &&& complete_transition(after, later) == (after, Err::<
                ExperimentCompletedEvent,
                VotiusError,
            >(VotiusError::AlreadyCompleted))
        }),
{
}

/// After a successful completion an event append by the authority, with a time
/// had and room in the counter, still succeeds, counts one more event and is
/// marked as coming after completion.
pub proof fn lemma_append_after_completion(
    ctx: CompleteExperiment,
    now: Option<i64>,
    event_hash: [u8; 32],
    later: i64,
)
    requires
        complete_transition(ctx, now).1 is Ok,
        ctx.experiment.data->0.event_count < u64::MAX,
    ensures
        ({
            let after = complete_transition(ctx, now).0;
            let (next, out) = record_event_transition(
                (RecordEvent { authority: ctx.authority, experiment: after.experiment }),
                event_hash,
                Some(later),
            );
            &&& out is Ok
            &&& out->Ok_0.post_completion
            &&& out->Ok_0.index == ctx.experiment.data->0.event_count + 1
            &&& next.experiment.data is Some
            &&& next.experiment.data->0.event_count == ctx.experiment.data->0.event_count + 1
            &&& next.experiment.data->0.status == ExperimentStatus::Completed
        }),
{
}

} // verus!
