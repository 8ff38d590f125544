//! Recovery: what is done about a payment attempt that stays pending.
use vstd::prelude::*;
use vstd::string::*;

use crate::http::{is_success, is_success_code};
use crate::ids::Uuid;
use crate::models::{PspReply, PspReplyView};
use crate::services::payments::{reply_verdict, verdict_of, Verdict, VerdictView};

verus! {

/// How many counted failures a pending attempt gets.
pub const RECOVERY_LIMIT: i32 = 4;

/// A pending attempt that is due, with how often its charge could not be
/// looked up.
#[derive(Clone, Copy, Debug, PartialEq, Eq, Structural)]
pub struct PendingAttempt {
    pub id: Uuid,
    pub recovery_attempts: i32,
}

/// What came of looking a charge up at the provider.
#[derive(Debug)]
pub enum ChargeEvent {
    /// The provider could not be reached, or not in time.
    Silent,
    /// The status code of the provider's answer.
    Status(u16),
    /// The provider's answer.
    Reply(PspReply),
    /// The provider's answer could not be read.
    Unreadable,
}

/// What an event says.
pub enum ChargeEventView {
    Silent,
    Status(u16),
    Reply(PspReplyView),
    Unreadable,
}

impl View for ChargeEvent {
    type V = ChargeEventView;

    open spec fn view(&self) -> ChargeEventView {
        match *self {
            ChargeEvent::Silent => ChargeEventView::Silent,
            ChargeEvent::Status(code) => ChargeEventView::Status(code),
            ChargeEvent::Reply(reply) => ChargeEventView::Reply(reply@),
            ChargeEvent::Unreadable => ChargeEventView::Unreadable,
        }
    }
}

/// What is done about a pending attempt.
#[derive(Debug)]
pub enum RecoveryAction {
    /// Read the provider's answer.
    ReadReply,
    /// Settle the attempt.
    Finalize(Uuid, Verdict),
    /// Look again after a while, and keep the count of failures.
    RetryUncounted { id: Uuid, delay_seconds: i32 },
    /// Look again after a while, with a new count of failures.
    Retry { id: Uuid, recovery_attempts: i32, delay_seconds: i32 },
}

/// What an action says.
pub enum RecoveryActionView {
    ReadReply,
    Finalize(Uuid, VerdictView),
    RetryUncounted { id: Uuid, delay_seconds: i32 },
    Retry { id: Uuid, recovery_attempts: i32, delay_seconds: i32 },
}

impl View for RecoveryAction {
    type V = RecoveryActionView;

    open spec fn view(&self) -> RecoveryActionView {
        match *self {
            RecoveryAction::ReadReply => RecoveryActionView::ReadReply,
            RecoveryAction::Finalize(id, verdict) => RecoveryActionView::Finalize(id, verdict@),
            RecoveryAction::RetryUncounted { id, delay_seconds } => {
                RecoveryActionView::RetryUncounted { id, delay_seconds }
            },
            RecoveryAction::Retry { id, recovery_attempts, delay_seconds } => {
                RecoveryActionView::Retry { id, recovery_attempts, delay_seconds }
            },
        }
    }
}

/// The verdict on an attempt that is given up.
pub open spec fn given_up_view() -> VerdictView {
    VerdictView {
        succeeded: false,
        psp_ref: None,
        failure_code: Some("psp_unavailable"@),
    }
}

/// How long to wait after a counted failure, in seconds, by its number.
pub open spec fn retry_delay(failures: int) -> i32 {
    if failures == 1 {
        5
    } else if failures == 2 {
        20
    } else {
        60
    }
}

/// What is scheduled for a pending attempt.
pub open spec fn scheduled(attempt: PendingAttempt, count_failure: bool) -> RecoveryActionView {
    let failures = attempt.recovery_attempts + 1;
    if !count_failure {
        RecoveryActionView::RetryUncounted { id: attempt.id, delay_seconds: 5 }
    } else if failures >= RECOVERY_LIMIT {
        RecoveryActionView::Finalize(attempt.id, given_up_view())
    } else {
        RecoveryActionView::Retry {
            id: attempt.id,
            recovery_attempts: failures as i32,
            delay_seconds: retry_delay(failures),
        }
    }
}

/// Whether an event counts as a failure to look a charge up: no answer, or an
/// answer without success. A charge that is under way, and an answer that
/// cannot be read, do not count.
pub open spec fn counts_as_failure(event: ChargeEventView) -> bool {
    match event {
        ChargeEventView::Silent => true,
        ChargeEventView::Status(code) => !is_success_code(code),
        _ => false,
    }
}

/// What is done about a pending attempt after an event.
pub open spec fn recovered(attempt: PendingAttempt, event: ChargeEventView) -> RecoveryActionView {
    match event {
        ChargeEventView::Status(code) if is_success_code(code) => RecoveryActionView::ReadReply,
        ChargeEventView::Reply(reply) if reply_verdict(reply) is Some => {
            RecoveryActionView::Finalize(attempt.id, reply_verdict(reply)->0)
        },
        _ => scheduled(attempt, counts_as_failure(event)),
    }
}

/// Schedules another look at a pending attempt, or gives it up.
pub fn schedule_recovery(attempt: PendingAttempt, count_failure: bool) -> (result: RecoveryAction)
    requires
        count_failure ==> attempt.recovery_attempts < i32::MAX,
    ensures
        result@ == scheduled(attempt, count_failure),
{
    if !count_failure {
        return RecoveryAction::RetryUncounted { id: attempt.id, delay_seconds: 5 };
    }
    let next_attempt: i32 = attempt.recovery_attempts + 1;
    if next_attempt >= RECOVERY_LIMIT {
        return RecoveryAction::Finalize(
            attempt.id,
            Verdict {
                succeeded: false,
                psp_ref: None,
                failure_code: Some("psp_unavailable".to_owned()),
            },
        );
    }
    let delay_seconds: i32 = match next_attempt {
        1 => 5,
        2 => 20,
        _ => 60,
    };
    RecoveryAction::Retry { id: attempt.id, recovery_attempts: next_attempt, delay_seconds }
}

/// Decides what is done about a pending attempt after an event.
pub fn recover_attempt(attempt: PendingAttempt, event: ChargeEvent) -> (result: RecoveryAction)
    requires
        counts_as_failure(event@) ==> attempt.recovery_attempts < i32::MAX,
    ensures
        result@ == recovered(attempt, event@),
{
    match event {
        ChargeEvent::Silent => schedule_recovery(attempt, true),
        ChargeEvent::Status(code) => if is_success(code) {
            RecoveryAction::ReadReply
        } else {
            schedule_recovery(attempt, true)
        },
        ChargeEvent::Reply(reply) => match verdict_of(reply) {
            Some(verdict) => RecoveryAction::Finalize(attempt.id, verdict),
            None => schedule_recovery(attempt, false),
        },
        ChargeEvent::Unreadable => schedule_recovery(attempt, false),
    }
}

/// The count of an attempt after as many counted failures in a row.
pub open spec fn count_after(attempt: PendingAttempt, failures: nat) -> Option<i32>
    decreases failures,
{
    if failures == 0 {
        Some(attempt.recovery_attempts)
    } else {
        match count_after(attempt, (failures - 1) as nat) {
            None => None,
            Some(count) => match scheduled(
                PendingAttempt { id: attempt.id, recovery_attempts: count },
                true,
            ) {
                RecoveryActionView::Retry { recovery_attempts, .. } => Some(recovery_attempts),
                _ => None,
            },
        }
    }
}

/// A fresh attempt is looked up again after its first three counted failures,
/// and given up at the fourth.
pub proof fn fourth_failure_gives_up(attempt: PendingAttempt, failures: nat)
    requires
        attempt.recovery_attempts == 0,
    ensures
        failures < RECOVERY_LIMIT ==> count_after(attempt, failures) == Some(failures as i32),
        failures >= RECOVERY_LIMIT ==> count_after(attempt, failures) is None,
    decreases failures,
{
    if failures > 0 {
        fourth_failure_gives_up(attempt, (failures - 1) as nat);
    }
}

/// An attempt is settled where the provider's answer holds a verdict, and then
/// with that verdict, or at its last counted failure. A charge that is under
/// way is waited for, for as long as it is under way.
pub proof fn settled_on_a_verdict_or_the_last_failure(
    attempt: PendingAttempt,
    event: ChargeEventView,
)
    ensures
        recovered(attempt, event) is Finalize <==> (event matches ChargeEventView::Reply(reply)
            && reply_verdict(reply) is Some) || (counts_as_failure(event)
            && attempt.recovery_attempts + 1 >= RECOVERY_LIMIT),
        event matches ChargeEventView::Reply(reply) && reply_verdict(reply) is Some ==> recovered(
            attempt,
            event,
        ) == RecoveryActionView::Finalize(attempt.id, reply_verdict(event->Reply_0)->0),
{
}

}
