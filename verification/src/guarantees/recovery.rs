//! Recovery: a charge that cannot be looked up is given up at the fourth try.
use vstd::prelude::*;

use crate::guarantees::answers::same_optional;
use crate::services::recovery::{
    recover_attempt, schedule_recovery, ChargeEvent, PendingAttempt, RecoveryAction,
};

verus! {

/// Whether an action counts one failure more: a further look after 5, 20 or 60
/// seconds, or, at the fourth failure, the end of the attempt, because the
/// provider is unavailable.
pub open spec fn counts_one_more(attempt: PendingAttempt, action: RecoveryAction) -> bool {
    let failures = attempt.recovery_attempts + 1;
    if failures >= 4 {
        &&& action matches RecoveryAction::Finalize(id, verdict)
        &&& id == attempt.id
        &&& !verdict.succeeded
        &&& verdict.psp_ref is None
        &&& verdict.failure_code matches Some(code) && code@ == "psp_unavailable"@
    } else {
        &&& action matches RecoveryAction::Retry { id, recovery_attempts, delay_seconds }
        &&& id == attempt.id
        &&& recovery_attempts == failures
        &&& failures == 1 ==> delay_seconds == 5
        &&& failures == 2 ==> delay_seconds == 20
        &&& failures != 1 && failures != 2 ==> delay_seconds == 60
    }
}

/// Whether an action looks again after 5 seconds, and counts nothing.
pub open spec fn counts_nothing(attempt: PendingAttempt, action: RecoveryAction) -> bool {
    &&& action matches RecoveryAction::RetryUncounted { id, delay_seconds }
    &&& id == attempt.id
    &&& delay_seconds == 5
}

/// A lookup that is answered with any status code but 200 to 299 counts as a
/// failure, as one that is not answered does: the fourth gives the attempt up.
pub proof fn lookup_without_success_counts(
    attempt: PendingAttempt,
    event: ChargeEvent,
    action: RecoveryAction,
)
    requires
        attempt.recovery_attempts < i32::MAX,
        event is Silent || (event matches ChargeEvent::Status(code) && (code < 200 || code > 299)),
        call_ensures(recover_attempt, (attempt, event), action),
    ensures
        call_requires(recover_attempt, (attempt, event)),
        counts_one_more(attempt, action),
{
}

/// It makes no difference by which code a lookup failed, nor whether there was
/// one: what is done about the attempt is the same.
pub proof fn failed_lookups_are_alike(
    attempt: PendingAttempt,
    code: u16,
    answered: RecoveryAction,
    unanswered: RecoveryAction,
)
    requires
        attempt.recovery_attempts < i32::MAX,
        code < 200 || code > 299,
        call_ensures(recover_attempt, (attempt, ChargeEvent::Status(code)), answered),
        call_ensures(recover_attempt, (attempt, ChargeEvent::Silent), unanswered),
    ensures
        answered@ == unanswered@,
        !(answered is RetryUncounted) && !(answered is ReadReply),
{
}

/// A lookup that is answered with a code from 200 to 299 is read.
pub proof fn answered_lookup_is_read(attempt: PendingAttempt, code: u16, action: RecoveryAction)
    requires
        200 <= code <= 299,
        call_ensures(recover_attempt, (attempt, ChargeEvent::Status(code)), action),
    ensures
        call_requires(recover_attempt, (attempt, ChargeEvent::Status(code))),
        action is ReadReply,
{
}

/// A charge that succeeded or failed settles the attempt so, with the provider's
/// reference, and with its failure code exactly where it failed. Any other charge
/// is under way, and is looked at again for as long as it is; so is one whose
/// answer cannot be read.
pub proof fn reply_settles_or_is_waited_for(
    attempt: PendingAttempt,
    event: ChargeEvent,
    action: RecoveryAction,
)
    requires
        event is Reply || event is Unreadable,
        call_ensures(recover_attempt, (attempt, event), action),
    ensures
        call_requires(recover_attempt, (attempt, event)),
        match event {
            ChargeEvent::Reply(reply) => if reply.status@ == "succeeded"@ {
                &&& action matches RecoveryAction::Finalize(id, verdict)
                &&& id == attempt.id
                &&& verdict.succeeded
                &&& same_optional(verdict.psp_ref, reply.psp_ref)
                &&& verdict.failure_code is None
            } else if reply.status@ == "failed"@ {
                &&& action matches RecoveryAction::Finalize(id, verdict)
                &&& id == attempt.id
                &&& !verdict.succeeded
                &&& same_optional(verdict.psp_ref, reply.psp_ref)
                &&& same_optional(verdict.failure_code, reply.code)
            } else {
                counts_nothing(attempt, action)
            },
            _ => counts_nothing(attempt, action),
        },
{
    crate::ledger::status_texts_differ();
}

/// A failure is scheduled as one, and what is no failure is not.
pub proof fn failures_are_scheduled_as_counted(
    attempt: PendingAttempt,
    count_failure: bool,
    action: RecoveryAction,
)
    requires
        count_failure ==> attempt.recovery_attempts < i32::MAX,
        call_ensures(schedule_recovery, (attempt, count_failure), action),
    ensures
        call_requires(schedule_recovery, (attempt, count_failure)),
        count_failure ==> counts_one_more(attempt, action),
        !count_failure ==> counts_nothing(attempt, action),
{
}

/// Every lookup without success brings the attempt one failure closer to its end,
/// and the fourth is the end: whatever the code, there is no other outcome.
pub proof fn fourth_failed_lookup_is_the_last(
    attempt: PendingAttempt,
    code: u16,
    action: RecoveryAction,
)
    requires
        attempt.recovery_attempts < i32::MAX,
        code < 200 || code > 299,
        call_ensures(recover_attempt, (attempt, ChargeEvent::Status(code)), action),
    ensures
        match action {
            RecoveryAction::Retry { id, recovery_attempts, delay_seconds } => {
                &&& id == attempt.id
                &&& recovery_attempts == attempt.recovery_attempts + 1
                &&& recovery_attempts < 4
                &&& recovery_attempts == 1 ==> delay_seconds == 5
                &&& recovery_attempts == 2 ==> delay_seconds == 20
                &&& recovery_attempts == 3 ==> delay_seconds == 60
            },
            RecoveryAction::Finalize(id, verdict) => {
                &&& id == attempt.id
                &&& attempt.recovery_attempts >= 3
                &&& !verdict.succeeded
                &&& verdict.psp_ref is None
                &&& verdict.failure_code is Some
                &&& verdict.failure_code->Some_0@ == "psp_unavailable"@
            },
            RecoveryAction::ReadReply => false,
            RecoveryAction::RetryUncounted { .. } => false,
        },
{
}

}
