//! Any number of payments and settlements at once, on one set of books.
//!
//! A turn is one action of one of them, or the entry of an invoice or an
//! endpoint. The database grants a turn under these conditions, and no others: an
//! invoice is locked by one transaction at a time, so whoever would read it for
//! update waits until it is free; and a key that another transaction has written
//! and not committed yet makes whoever would write it wait.
use vstd::prelude::*;

use crate::error::ErrorView;
use crate::http::{ReplyView, OK};
use crate::ids::Uuid;
use crate::interleaving::{
    advanced, answered_at, holds_lock, in_step, leads_to_itself, others_act,
    others_act_beside_settlement, payment_bears_others, payment_commits_beside_a_payment,
    payment_commits_beside_a_settlement, settled_at, settlement_advanced, settlement_bears_others,
    settlement_commits_beside_a_payment, settlement_commits_beside_a_settlement,
    settlement_holds_lock, settlement_in_step, settlement_stays_in_step, stays_in_step,
    stood_between, PaymentRun, SettlementRun,
};
use crate::ledger::{
    admission_action, after_step, can_happen, leads_on, pay, settle,
    settled_attempt_is_left_alone, status_texts_differ, step_leads_on,
    steps_keep_the_books_in_order, verdict_settles_a_pending_attempt, Admission, Ledger, Step,
    Written,
};
use crate::records::attempts_on;
use crate::services::payments::{
    already_paid_view, payment_in_progress_view, PayActionView, PayStageView, RequestView,
    VerdictView,
};
use crate::services::settlement::{SettleActionView, SettleStageView, SettlementView};

verus! {

/// A payment among others.
pub struct Payment {
    pub request: RequestView,
    pub fresh: Uuid,
    pub written: Written,
    pub stage: PayStageView,
    pub action: PayActionView,
}

/// A settlement among others.
pub struct Settling {
    pub attempt_id: Uuid,
    pub verdict: VerdictView,
    pub written: Option<SettlementView>,
    pub stage: SettleStageView,
    pub action: SettleActionView,
}

/// The books, and all payments and settlements that work on them.
pub struct System {
    pub committed: Ledger,
    pub payments: Map<int, Payment>,
    pub settlements: Map<int, Settling>,
}

/// A payment on its way, on given books.
pub open spec fn payment_run(payment: Payment, committed: Ledger) -> PaymentRun {
    PaymentRun {
        committed,
        written: payment.written,
        stage: payment.stage,
        action: payment.action,
    }
}

/// A settlement on its way, on given books.
pub open spec fn settling_run(settling: Settling, committed: Ledger) -> SettlementRun {
    SettlementRun {
        committed,
        written: settling.written,
        stage: settling.stage,
        action: settling.action,
    }
}

/// Whether a payment is at its answer, or at the call of the provider.
pub open spec fn has_ended(payment: Payment) -> bool {
    payment.action is Answer || payment.action is PostCharge
}

/// The key of a payment.
pub open spec fn key_of(payment: Payment) -> (Uuid, Seq<char>) {
    (payment.request.business_id, payment.request.idempotency_key)
}

impl System {
    /// Whether a payment holds the lock on an invoice.
    pub open spec fn payment_locks(self, p: int, invoice_id: Uuid) -> bool {
        &&& self.payments.contains_key(p)
        &&& holds_lock(self.payments[p].stage)
        &&& self.payments[p].request.invoice_id == invoice_id
    }

    /// Whether a settlement holds the lock on an invoice.
    pub open spec fn settlement_locks(self, s: int, invoice_id: Uuid) -> bool {
        &&& self.settlements.contains_key(s)
        &&& settlement_holds_lock(self.settlements[s].stage)
        &&& self.committed.attempts[self.settlements[s].attempt_id].invoice_id == invoice_id
    }

    /// Whether a payment has written a key, and not committed it yet.
    pub open spec fn has_written(self, p: int, key: (Uuid, Seq<char>)) -> bool {
        &&& self.payments.contains_key(p)
        &&& self.payments[p].written is AttemptAndKey
        &&& key_of(self.payments[p]) == key
    }

    /// Whether a payment asks the provider for a charge.
    pub open spec fn is_charged(self, p: int) -> bool {
        self.payments.contains_key(p) && self.payments[p].action is PostCharge
    }

    /// Whether a charged payment has made an attempt.
    pub open spec fn has_made(self, p: int, attempt_id: Uuid) -> bool {
        self.is_charged(p) && self.payments[p].fresh == attempt_id
    }

    /// Whether a charged payment has a key.
    pub open spec fn has_entered(self, p: int, key: (Uuid, Seq<char>)) -> bool {
        self.is_charged(p) && key_of(self.payments[p]) == key
    }
}

/// Who acts next.
pub enum Turn {
    Payment(int),
    Settlement(int),
    Entry(Step),
}

/// Whether the database grants a turn.
pub open spec fn is_granted(system: System, turn: Turn) -> bool {
    match turn {
        Turn::Payment(p) => {
            let payment = system.payments[p];
            let invoice_id = payment.request.invoice_id;
            &&& system.payments.contains_key(p)
            &&& !has_ended(payment)
            &&& payment.action is SelectInvoice ==> {
                &&& forall|q: int| q != p ==> !#[trigger] system.payment_locks(q, invoice_id)
                &&& forall|s: int| !#[trigger] system.settlement_locks(s, invoice_id)
            }
            &&& payment.action is InsertKey ==> forall|q: int|
                q != p ==> !#[trigger] system.has_written(q, key_of(payment))
        },
        Turn::Settlement(s) => {
            let settling = system.settlements[s];
            let invoice_id = system.committed.attempts[settling.attempt_id].invoice_id;
            &&& system.settlements.contains_key(s)
            &&& !(settling.action is Answer)
            &&& settling.action is SelectAttempt && system.committed.attempts.contains_key(
                settling.attempt_id,
            ) ==> {
                &&& forall|q: int| !#[trigger] system.payment_locks(q, invoice_id)
                &&& forall|t: int| t != s ==> !#[trigger] system.settlement_locks(t, invoice_id)
            }
        },
        Turn::Entry(step) => {
            &&& step is CreateInvoice || step is CreateEndpoint
            &&& can_happen(system.committed, step)
        },
    }
}

/// The system after a turn.
pub open spec fn after_turn(system: System, turn: Turn) -> System {
    match turn {
        Turn::Payment(p) => {
            let payment = system.payments[p];
            let next = advanced(
                payment_run(payment, system.committed),
                system.committed,
                payment.request,
                payment.fresh,
            );
            System {
                committed: next.committed,
                payments: system.payments.insert(
                    p,
                    Payment {
                        written: next.written,
                        stage: next.stage,
                        action: next.action,
                        ..payment
                    },
                ),
                ..system
            }
        },
        Turn::Settlement(s) => {
            let settling = system.settlements[s];
            let next = settlement_advanced(
                settling_run(settling, system.committed),
                system.committed,
                settling.attempt_id,
                settling.verdict,
            );
            System {
                committed: next.committed,
                settlements: system.settlements.insert(
                    s,
                    Settling {
                        written: next.written,
                        stage: next.stage,
                        action: next.action,
                        ..settling
                    },
                ),
                ..system
            }
        },
        Turn::Entry(step) => System { committed: after_step(system.committed, step), ..system },
    }
}

/// The system after a number of turns.
pub open spec fn after_turns(system: System, turns: Seq<Turn>) -> System
    decreases turns.len(),
{
    if turns.len() == 0 {
        system
    } else {
        after_turn(after_turns(system, turns.drop_last()), turns.last())
    }
}

/// Whether a number of turns are granted, one after the other.
pub open spec fn all_granted(system: System, turns: Seq<Turn>) -> bool
    decreases turns.len(),
{
    turns.len() == 0 || (all_granted(system, turns.drop_last()) && is_granted(
        after_turns(system, turns.drop_last()),
        turns.last(),
    ))
}

/// Whether all payments and settlements are at their begin, on books that are
/// in order, and the id of each payment's attempt is new and its own.
pub open spec fn is_at_begin(system: System) -> bool {
    &&& system.committed.well_formed()
    &&& forall|p: int| #[trigger]
        system.payments.contains_key(p) ==> {
            let payment = system.payments[p];
            &&& payment.request.well_formed()
            &&& !system.committed.attempts.contains_key(payment.fresh)
            &&& payment.written is Nothing
            &&& payment.stage is Begin
            &&& payment.action is Begin
        }
    &&& forall|p: int, q: int|
        #![trigger system.payments[p], system.payments[q]]
        system.payments.contains_key(p) && system.payments.contains_key(q) && p != q
            ==> system.payments[p].fresh != system.payments[q].fresh
    &&& forall|s: int| #[trigger]
        system.settlements.contains_key(s) ==> {
            let settling = system.settlements[s];
            &&& settling.written is None
            &&& settling.stage is Begin
            &&& settling.action is Begin
        }
}

/// Whether a payment was charged at some moment, when the id of its attempt was
/// new, and what `pay` made of the books then is in them.
pub open spec fn charged_at(
    first: Ledger,
    at: Ledger,
    now: Ledger,
    request: RequestView,
    fresh: Uuid,
) -> bool {
    &&& stood_between(first, at, now)
    &&& !at.attempts.contains_key(fresh)
    &&& pay(at, request, fresh).1 == Admission::Charged(fresh)
    &&& pay(at, request, fresh).0.leads_to(now)
}

/// What holds of a payment among others.
pub open spec fn payment_holds(first: Ledger, now: Ledger, payment: Payment) -> bool {
    let (request, fresh) = (payment.request, payment.fresh);
    let key = key_of(payment);
    &&& request.well_formed()
    &&& if payment.action is Answer {
        &&& !holds_lock(payment.stage)
        &&& exists|at: Ledger| #[trigger]
            answered_at(first, at, now, request, fresh, payment.action->Answer_0)
    } else if payment.action is PostCharge {
        &&& !holds_lock(payment.stage)
        &&& payment.action == PayActionView::PostCharge(fresh)
        &&& exists|at: Ledger| #[trigger] charged_at(first, at, now, request, fresh)
        &&& now.attempts.contains_key(fresh)
        &&& now.attempts[fresh].invoice_id == request.invoice_id
        &&& now.keys.contains_key(key)
        &&& now.keys[key].payment_attempt_id == Some(fresh)
    } else {
        &&& in_step(first, payment_run(payment, now), request, fresh)
        &&& !now.attempts.contains_key(fresh)
    }
}

/// Whether an answer is the one that a settlement had to be given at some
/// moment, and what `settle` made of the books then is in them.
pub open spec fn given_at(
    first: Ledger,
    at: Ledger,
    now: Ledger,
    attempt_id: Uuid,
    verdict: VerdictView,
    answer: Result<ReplyView, ErrorView>,
) -> bool {
    &&& stood_between(first, at, now)
    &&& settle(at, attempt_id, verdict).1 == answer
    &&& settle(at, attempt_id, verdict).0.leads_to(now)
}

/// What holds of a settlement among others.
pub open spec fn settling_holds(first: Ledger, now: Ledger, settling: Settling) -> bool {
    if settling.action is Answer {
        &&& !settlement_holds_lock(settling.stage)
        &&& exists|at: Ledger| #[trigger]
            given_at(
                first,
                at,
                now,
                settling.attempt_id,
                settling.verdict,
                settling.action->Answer_0,
            )
    } else {
        settlement_in_step(
            first,
            settling_run(settling, now),
            settling.attempt_id,
            settling.verdict,
        )
    }
}

/// What holds of the system at any time: the books are in order, and nothing in
/// them was undone; what every payment and settlement relies on holds; no two of
/// them have the same lock, or have written the same key; and every attempt and
/// every key that is new was entered by a charged payment.
pub open spec fn holds(first: Ledger, system: System) -> bool {
    let now = system.committed;
    &&& now.well_formed()
    &&& first.leads_to(now)
    &&& forall|p: int| #[trigger]
        system.payments.contains_key(p) ==> payment_holds(first, now, system.payments[p])
    &&& forall|s: int| #[trigger]
        system.settlements.contains_key(s) ==> settling_holds(first, now, system.settlements[s])
    &&& forall|p: int, q: int, invoice_id: Uuid|
        #![trigger system.payment_locks(p, invoice_id), system.payment_locks(q, invoice_id)]
        system.payment_locks(p, invoice_id) && system.payment_locks(q, invoice_id) ==> p == q
    &&& forall|p: int, s: int, invoice_id: Uuid|
        #![trigger system.payment_locks(p, invoice_id), system.settlement_locks(s, invoice_id)]
        !(system.payment_locks(p, invoice_id) && system.settlement_locks(s, invoice_id))
    &&& forall|s: int, t: int, invoice_id: Uuid|
        #![trigger system.settlement_locks(s, invoice_id), system.settlement_locks(t, invoice_id)]
        system.settlement_locks(s, invoice_id) && system.settlement_locks(t, invoice_id) ==> s == t
    &&& forall|p: int, q: int, key: (Uuid, Seq<char>)|
        #![trigger system.has_written(p, key), system.has_written(q, key)]
        system.has_written(p, key) && system.has_written(q, key) ==> p == q
    &&& forall|p: int, q: int|
        #![trigger system.payments[p], system.payments[q]]
        system.payments.contains_key(p) && system.payments.contains_key(q) && p != q
            ==> system.payments[p].fresh != system.payments[q].fresh
    &&& forall|id: Uuid| #[trigger]
        now.attempts.contains_key(id) ==> first.attempts.contains_key(id) || exists|p: int|
         #[trigger] system.has_made(p, id)
    &&& forall|key: (Uuid, Seq<char>)| #[trigger]
        now.keys.contains_key(key) ==> first.keys.contains_key(key) || exists|p: int| #[trigger]
            system.has_entered(p, key)
}

/// A payment whose books others have changed.
proof fn payment_still_holds(first: Ledger, now: Ledger, later: Ledger, payment: Payment)
    requires
        payment_holds(first, now, payment),
        now.leads_to(later),
        later.well_formed(),
        !has_ended(payment) ==> others_act(
            payment_run(payment, now),
            later,
            payment.request,
            payment.fresh,
        ),
    ensures
        payment_holds(first, later, payment),
{
    let (request, fresh) = (payment.request, payment.fresh);
    if payment.action is Answer {
        let answer = payment.action->Answer_0;
        let at = choose|at: Ledger| #[trigger]
            answered_at(first, at, now, request, fresh, answer);
        leads_on(at, now, later);
        assert(answered_at(first, at, later, request, fresh, answer));
    } else if payment.action is PostCharge {
        let at = choose|at: Ledger| #[trigger] charged_at(first, at, now, request, fresh);
        leads_on(at, now, later);
        leads_on(pay(at, request, fresh).0, now, later);
        assert(charged_at(first, at, later, request, fresh));
    } else {
        payment_bears_others(first, payment_run(payment, now), later, request, fresh);
    }
}

/// A settlement whose books others have changed.
proof fn settling_still_holds(first: Ledger, now: Ledger, later: Ledger, settling: Settling)
    requires
        settling_holds(first, now, settling),
        now.leads_to(later),
        later.well_formed(),
        !(settling.action is Answer) ==> others_act_beside_settlement(
            settling_run(settling, now),
            later,
            settling.attempt_id,
        ),
    ensures
        settling_holds(first, later, settling),
{
    let (attempt_id, verdict) = (settling.attempt_id, settling.verdict);
    if settling.action is Answer {
        let answer = settling.action->Answer_0;
        let at = choose|at: Ledger| #[trigger]
            given_at(first, at, now, attempt_id, verdict, answer);
        leads_on(at, now, later);
        leads_on(settle(at, attempt_id, verdict).0, now, later);
        assert(given_at(first, at, later, attempt_id, verdict, answer));
    } else {
        settlement_bears_others(first, settling_run(settling, now), later, attempt_id, verdict);
    }
}

/// A payment bears books that nobody has changed.
proof fn payment_bears_nothing(first: Ledger, now: Ledger, payment: Payment)
    requires
        now.well_formed(),
        payment_holds(first, now, payment),
        !has_ended(payment),
    ensures
        others_act(payment_run(payment, now), now, payment.request, payment.fresh),
{
    leads_to_itself(now);
}

/// A settlement that holds its lock has its attempt in the books.
proof fn locked_attempt_is_there(first: Ledger, now: Ledger, settling: Settling)
    requires
        settling_holds(first, now, settling),
        settlement_holds_lock(settling.stage),
    ensures
        !(settling.action is Answer),
        now.attempts.contains_key(settling.attempt_id),
{
}

/// The turn of a payment keeps what holds of the system.
proof fn payment_turn_keeps(first: Ledger, system: System, p: int)
    requires
        holds(first, system),
        is_granted(system, Turn::Payment(p)),
    ensures
        holds(first, after_turn(system, Turn::Payment(p))),
        system.committed.leads_to(after_turn(system, Turn::Payment(p)).committed),
{
    let next = after_turn(system, Turn::Payment(p));
    let (now, later) = (system.committed, next.committed);
    let payment = system.payments[p];
    let (request, fresh) = (payment.request, payment.fresh);
    let run = payment_run(payment, now);
    payment_bears_nothing(first, now, payment);
    own_payment_holds(first, now, payment);
    let commits = payment.stage is Commit;
    assert forall|q: int| #[trigger] next.payments.contains_key(q) implies payment_holds(
        first,
        later,
        next.payments[q],
    ) by {
        if q != p {
            let other = system.payments[q];
            assert(system.payments.contains_key(q));
            assert(fresh != other.fresh);
            if commits {
                if !has_ended(other) {
                    payment_bears_nothing(first, now, other);
                    if holds_lock(other.stage) {
                        assert(system.payment_locks(p, request.invoice_id));
                        assert(system.payment_locks(q, other.request.invoice_id));
                    }
                    if other.written is AttemptAndKey {
                        assert(system.has_written(p, key_of(payment)));
                        assert(system.has_written(q, key_of(other)));
                    }
                    payment_commits_beside_a_payment(
                        first,
                        run,
                        now,
                        request,
                        fresh,
                        payment_run(other, now),
                        other.request,
                        other.fresh,
                    );
                }
                payment_still_holds(first, now, later, other);
            }
        }
    }
    assert forall|s: int| #[trigger] next.settlements.contains_key(s) implies settling_holds(
        first,
        later,
        next.settlements[s],
    ) by {
        let other = system.settlements[s];
        assert(system.settlements.contains_key(s));
        if commits {
            if !(other.action is Answer) {
                if settlement_holds_lock(other.stage) {
                    locked_attempt_is_there(first, now, other);
                }
                payment_commits_beside_a_settlement(
                    first,
                    run,
                    now,
                    request,
                    fresh,
                    settling_run(other, now),
                    other.attempt_id,
                );
            }
            settling_still_holds(first, now, later, other);
        }
    }
    // Locks and keys.
    assert forall|s: int, invoice_id: Uuid| #[trigger]
        next.settlement_locks(s, invoice_id) implies system.settlement_locks(s, invoice_id) by {
        locked_attempt_is_there(first, now, system.settlements[s]);
    }
    assert forall|q: int, invoice_id: Uuid| #[trigger]
        next.payment_locks(q, invoice_id) implies system.payment_locks(q, invoice_id) || (q == p
        && payment.action is SelectInvoice && invoice_id == request.invoice_id) by {
    }
    assert forall|q: int, key: (Uuid, Seq<char>)| #[trigger]
        next.has_written(q, key) implies system.has_written(q, key) || (q == p
        && payment.action is InsertKey && key == key_of(payment)) by {
    }
    // Attempts and keys that are new.
    assert forall|id: Uuid| #[trigger] later.attempts.contains_key(id) implies
        first.attempts.contains_key(id) || exists|q: int| #[trigger] next.has_made(q, id) by {
        if now.attempts.contains_key(id) {
            if !first.attempts.contains_key(id) {
                let q = choose|q: int| #[trigger] system.has_made(q, id);
                assert(next.has_made(q, id));
            }
        } else {
            assert(next.has_made(p, id));
        }
    }
    assert forall|key: (Uuid, Seq<char>)| #[trigger] later.keys.contains_key(key) implies
        first.keys.contains_key(key) || exists|q: int| #[trigger] next.has_entered(q, key) by {
        if now.keys.contains_key(key) {
            if !first.keys.contains_key(key) {
                let q = choose|q: int| #[trigger] system.has_entered(q, key);
                assert(next.has_entered(q, key));
            }
        } else {
            assert(next.has_entered(p, key));
        }
    }
    assert forall|q: int, r: int|
        #![trigger next.payments[q], next.payments[r]]
        next.payments.contains_key(q) && next.payments.contains_key(r) && q != r implies
        next.payments[q].fresh != next.payments[r].fresh by {
        assert(system.payments[q].fresh != system.payments[r].fresh);
    }
}

/// What holds of a payment among others holds of it after its own turn; and the
/// books lead on.
proof fn own_payment_holds(first: Ledger, now: Ledger, payment: Payment)
    requires
        now.well_formed(),
        first.leads_to(now),
        payment_holds(first, now, payment),
        !has_ended(payment),
    ensures
        ({
            let next = advanced(
                payment_run(payment, now),
                now,
                payment.request,
                payment.fresh,
            );
            let later = next.committed;
            &&& payment_holds(
                first,
                later,
                Payment {
                    written: next.written,
                    stage: next.stage,
                    action: next.action,
                    ..payment
                },
            )
            &&& later.well_formed()
            &&& now.leads_to(later)
            &&& first.leads_to(later)
            &&& !(payment.stage is Commit) ==> later == now
            &&& payment.stage is Commit ==> next.action is PostCharge && later
                == now.with_attempt(payment.request, payment.fresh).with_key(
                payment.request,
                payment.fresh,
            )
        }),
{
    let (request, fresh) = (payment.request, payment.fresh);
    let run = payment_run(payment, now);
    payment_bears_nothing(first, now, payment);
    stays_in_step(first, run, now, request, fresh);
    leads_to_itself(now);
    let next = advanced(run, now, request, fresh);
    if payment.stage is Commit {
        let at = choose|at: Ledger| #[trigger]
            stood_between(first, at, next.committed) && !at.attempts.contains_key(fresh) && pay(
                at,
                request,
                fresh,
            ) == (next.committed, Admission::Charged(fresh));
        leads_to_itself(next.committed);
        assert(charged_at(first, at, next.committed, request, fresh));
        let step = Step::Pay { request, fresh };
        assert(now.pending(request.invoice_id) is None) by {
            assert forall|id: Uuid| !now.pending_on(id, request.invoice_id) by {}
        }
        assert(pay(now, request, fresh) == (next.committed, Admission::Charged(fresh)));
        step_leads_on(now, step);
    }
}

/// What holds of a settlement among others holds of it after its own turn; and
/// the books lead on.
proof fn own_settling_holds(first: Ledger, now: Ledger, settling: Settling)
    requires
        now.well_formed(),
        first.leads_to(now),
        settling_holds(first, now, settling),
        !(settling.action is Answer),
    ensures
        ({
            let next = settlement_advanced(
                settling_run(settling, now),
                now,
                settling.attempt_id,
                settling.verdict,
            );
            let later = next.committed;
            &&& settling_holds(
                first,
                later,
                Settling {
                    written: next.written,
                    stage: next.stage,
                    action: next.action,
                    ..settling
                },
            )
            &&& later.well_formed()
            &&& now.leads_to(later)
            &&& first.leads_to(later)
            &&& !(settling.stage is Commit) ==> later == now
            &&& later.attempts.dom() == now.attempts.dom()
            &&& later.keys.dom() == now.keys.dom()
        }),
{
    let (attempt_id, verdict) = (settling.attempt_id, settling.verdict);
    let run = settling_run(settling, now);
    leads_to_itself(now);
    settlement_stays_in_step(first, run, now, attempt_id, verdict);
    let next = settlement_advanced(run, now, attempt_id, verdict);
    let moved = Settling {
        written: next.written,
        stage: next.stage,
        action: next.action,
        ..settling
    };
    if next.action is Answer {
        let at = choose|at: Ledger| #[trigger]
            settled_at(first, at, next.committed, attempt_id, verdict, next.action->Answer_0);
        leads_to_itself(next.committed);
        assert(given_at(
            first,
            at,
            next.committed,
            moved.attempt_id,
            moved.verdict,
            moved.action->Answer_0,
        ));
    } else {
        assert(settling_run(moved, next.committed) == next);
    }
    assert(settling_holds(first, next.committed, moved));
    if settling.stage is Commit {
        status_texts_differ();
        assert(now.attempts[attempt_id].state is Pending);
        assert(settle(now, attempt_id, verdict).0 == next.committed);
        step_leads_on(now, Step::Settle { attempt_id, verdict });
        assert(next.committed.attempts.dom() == now.attempts.dom());
        assert(next.committed.keys.dom() == now.keys.dom());
    }
}

/// The turn of a settlement keeps what holds of the system.
proof fn settlement_turn_keeps(first: Ledger, system: System, s: int)
    requires
        holds(first, system),
        is_granted(system, Turn::Settlement(s)),
    ensures
        holds(first, after_turn(system, Turn::Settlement(s))),
        system.committed.leads_to(after_turn(system, Turn::Settlement(s)).committed),
{
    let next = after_turn(system, Turn::Settlement(s));
    let (now, later) = (system.committed, next.committed);
    let settling = system.settlements[s];
    let (attempt_id, verdict) = (settling.attempt_id, settling.verdict);
    let run = settling_run(settling, now);
    own_settling_holds(first, now, settling);
    leads_to_itself(now);
    let commits = settling.stage is Commit;
    if commits {
        locked_attempt_is_there(first, now, settling);
        assert(system.settlement_locks(s, now.attempts[attempt_id].invoice_id));
    }
    assert forall|q: int| #[trigger] next.payments.contains_key(q) implies payment_holds(
        first,
        later,
        next.payments[q],
    ) by {
        let other = system.payments[q];
        assert(system.payments.contains_key(q));
        if commits {
            if !has_ended(other) {
                payment_bears_nothing(first, now, other);
                if holds_lock(other.stage) {
                    assert(system.payment_locks(q, other.request.invoice_id));
                }
                settlement_commits_beside_a_payment(
                    first,
                    run,
                    now,
                    attempt_id,
                    verdict,
                    payment_run(other, now),
                    other.request,
                    other.fresh,
                );
            }
            payment_still_holds(first, now, later, other);
        }
    }
    assert forall|t: int| #[trigger] next.settlements.contains_key(t) implies settling_holds(
        first,
        later,
        next.settlements[t],
    ) by {
        if t != s {
            let other = system.settlements[t];
            assert(system.settlements.contains_key(t));
            if commits {
                if !(other.action is Answer) {
                    if settlement_holds_lock(other.stage) {
                        locked_attempt_is_there(first, now, other);
                        assert(system.settlement_locks(
                            t,
                            now.attempts[other.attempt_id].invoice_id,
                        ));
                    }
                    settlement_commits_beside_a_settlement(
                        first,
                        run,
                        now,
                        attempt_id,
                        verdict,
                        settling_run(other, now),
                        other.attempt_id,
                    );
                }
                settling_still_holds(first, now, later, other);
            }
        }
    }
    // Locks and keys.
    assert forall|q: int, invoice_id: Uuid| #[trigger]
        next.payment_locks(q, invoice_id) implies system.payment_locks(q, invoice_id) by {
    }
    assert forall|t: int, invoice_id: Uuid| #[trigger]
        next.settlement_locks(t, invoice_id) implies system.settlement_locks(t, invoice_id) || (t
        == s && settling.action is SelectAttempt && now.attempts.contains_key(attempt_id)
        && invoice_id == now.attempts[attempt_id].invoice_id) by {
        locked_attempt_is_there(first, later, next.settlements[t]);
    }
    assert forall|q: int, key: (Uuid, Seq<char>)| #[trigger]
        next.has_written(q, key) implies system.has_written(q, key) by {
    }
    // Attempts and keys that are new.
    assert forall|id: Uuid| #[trigger] later.attempts.contains_key(id) implies
        first.attempts.contains_key(id) || exists|q: int| #[trigger] next.has_made(q, id) by {
        assert(now.attempts.contains_key(id));
        if !first.attempts.contains_key(id) {
            let q = choose|q: int| #[trigger] system.has_made(q, id);
            assert(next.has_made(q, id));
        }
    }
    assert forall|key: (Uuid, Seq<char>)| #[trigger] later.keys.contains_key(key) implies
        first.keys.contains_key(key) || exists|q: int| #[trigger] next.has_entered(q, key) by {
        assert(now.keys.contains_key(key));
        if !first.keys.contains_key(key) {
            let q = choose|q: int| #[trigger] system.has_entered(q, key);
            assert(next.has_entered(q, key));
        }
    }
}

/// An entry keeps what holds of the system.
proof fn entry_keeps(first: Ledger, system: System, step: Step)
    requires
        holds(first, system),
        is_granted(system, Turn::Entry(step)),
    ensures
        holds(first, after_turn(system, Turn::Entry(step))),
        system.committed.leads_to(after_turn(system, Turn::Entry(step)).committed),
{
    let next = after_turn(system, Turn::Entry(step));
    let (now, later) = (system.committed, next.committed);
    steps_keep_the_books_in_order(now, step);
    step_leads_on(now, step);
    leads_on(first, now, later);
    assert forall|q: int| #[trigger] next.payments.contains_key(q) implies payment_holds(
        first,
        later,
        next.payments[q],
    ) by {
        let other = system.payments[q];
        assert(system.payments.contains_key(q));
        payment_still_holds(first, now, later, other);
    }
    assert forall|t: int| #[trigger] next.settlements.contains_key(t) implies settling_holds(
        first,
        later,
        next.settlements[t],
    ) by {
        let other = system.settlements[t];
        assert(system.settlements.contains_key(t));
        if settlement_holds_lock(other.stage) {
            locked_attempt_is_there(first, now, other);
            assert(now.invoices.contains_key(now.attempts[other.attempt_id].invoice_id));
        }
        settling_still_holds(first, now, later, other);
    }
    assert forall|q: int, invoice_id: Uuid| #[trigger]
        next.payment_locks(q, invoice_id) implies system.payment_locks(q, invoice_id) by {
    }
    assert forall|t: int, invoice_id: Uuid| #[trigger]
        next.settlement_locks(t, invoice_id) implies system.settlement_locks(t, invoice_id) by {
    }
    assert forall|q: int, key: (Uuid, Seq<char>)| #[trigger]
        next.has_written(q, key) implies system.has_written(q, key) by {
    }
    assert forall|id: Uuid| #[trigger] later.attempts.contains_key(id) implies
        first.attempts.contains_key(id) || exists|q: int| #[trigger] next.has_made(q, id) by {
        assert(now.attempts.contains_key(id));
        if !first.attempts.contains_key(id) {
            let q = choose|q: int| #[trigger] system.has_made(q, id);
            assert(next.has_made(q, id));
        }
    }
    assert forall|key: (Uuid, Seq<char>)| #[trigger] later.keys.contains_key(key) implies
        first.keys.contains_key(key) || exists|q: int| #[trigger] next.has_entered(q, key) by {
        assert(now.keys.contains_key(key));
        if !first.keys.contains_key(key) {
            let q = choose|q: int| #[trigger] system.has_entered(q, key);
            assert(next.has_entered(q, key));
        }
    }
}

/// A granted turn keeps what holds of the system, and undoes nothing in the
/// books.
pub proof fn turn_keeps(first: Ledger, system: System, turn: Turn)
    requires
        holds(first, system),
        is_granted(system, turn),
    ensures
        holds(first, after_turn(system, turn)),
        system.committed.leads_to(after_turn(system, turn).committed),
{
    match turn {
        Turn::Payment(p) => payment_turn_keeps(first, system, p),
        Turn::Settlement(s) => settlement_turn_keeps(first, system, s),
        Turn::Entry(step) => entry_keeps(first, system, step),
    }
}

/// Whatever turns payments and settlements take, the books stay in order and
/// nothing in them is undone, and what each of them relies on holds.
pub proof fn system_stays_in_order(system: System, turns: Seq<Turn>)
    requires
        is_at_begin(system),
        all_granted(system, turns),
    ensures
        holds(system.committed, after_turns(system, turns)),
        after_turns(system, turns).committed.well_formed(),
        system.committed.leads_to(after_turns(system, turns).committed),
    decreases turns.len(),
{
    if turns.len() == 0 {
        leads_to_itself(system.committed);
    } else {
        system_stays_in_order(system, turns.drop_last());
        turn_keeps(
            system.committed,
            after_turns(system, turns.drop_last()),
            turns.last(),
        );
    }
}

// What a client can rely on, whoever else is at work.

/// The payments stay the same ones, with their requests and the ids of their
/// attempts.
proof fn payments_stay_the_same(system: System, turns: Seq<Turn>)
    requires
        all_granted(system, turns),
    ensures
        after_turns(system, turns).payments.dom() == system.payments.dom(),
        forall|p: int| #[trigger]
            system.payments.contains_key(p) ==> after_turns(system, turns).payments[p].request
                == system.payments[p].request && after_turns(system, turns).payments[p].fresh
                == system.payments[p].fresh,
    decreases turns.len(),
{
    if turns.len() > 0 {
        payments_stay_the_same(system, turns.drop_last());
        let before = after_turns(system, turns.drop_last());
        assert(after_turns(system, turns).payments.dom() == before.payments.dom());
    }
}

/// A payment takes effect at one moment, whatever turns others take: its answer,
/// or its charge, is what `pay` gives for the books at some moment between the
/// first turn and the last, when the id of its attempt was new; and nothing of
/// what `pay` made of them then is undone.
pub proof fn payment_takes_effect_among_others(system: System, turns: Seq<Turn>, p: int)
    requires
        is_at_begin(system),
        all_granted(system, turns),
        system.payments.contains_key(p),
        has_ended(after_turns(system, turns).payments[p]),
    ensures
        ({
            let end = after_turns(system, turns);
            let payment = end.payments[p];
            exists|at: Ledger| #[trigger]
                stood_between(system.committed, at, end.committed) && !at.attempts.contains_key(
                    payment.fresh,
                ) && payment.action == admission_action(
                    pay(at, payment.request, payment.fresh).1,
                ) && pay(at, payment.request, payment.fresh).0.leads_to(end.committed)
        }),
{
    system_stays_in_order(system, turns);
    payments_stay_the_same(system, turns);
    let (first, end) = (system.committed, after_turns(system, turns));
    let payment = end.payments[p];
    let (request, fresh) = (payment.request, payment.fresh);
    assert(end.payments.contains_key(p));
    if payment.action is Answer {
        let at = choose|at: Ledger| #[trigger]
            answered_at(first, at, end.committed, request, fresh, payment.action->Answer_0);
        assert(stood_between(first, at, end.committed));
    } else {
        let at = choose|at: Ledger| #[trigger]
            charged_at(first, at, end.committed, request, fresh);
        assert(stood_between(first, at, end.committed));
    }
}

/// A settlement is answered as at one moment, whatever turns others take, and
/// nothing of what `settle` made of the books then is undone.
pub proof fn settlement_takes_effect_among_others(system: System, turns: Seq<Turn>, s: int)
    requires
        is_at_begin(system),
        all_granted(system, turns),
        after_turns(system, turns).settlements.contains_key(s),
        after_turns(system, turns).settlements[s].action is Answer,
    ensures
        ({
            let end = after_turns(system, turns);
            let settling = end.settlements[s];
            exists|at: Ledger| #[trigger]
                given_at(
                    system.committed,
                    at,
                    end.committed,
                    settling.attempt_id,
                    settling.verdict,
                    settling.action->Answer_0,
                )
        }),
{
    system_stays_in_order(system, turns);
}

/// Whatever turns payments and settlements take, an invoice has one pending
/// attempt at most, and every attempt has exactly one key, which names it.
pub proof fn attempts_stay_accounted_for(
    system: System,
    turns: Seq<Turn>,
    invoice_id: Uuid,
    a: Uuid,
    b: Uuid,
)
    requires
        is_at_begin(system),
        all_granted(system, turns),
    ensures
        ({
            let now = after_turns(system, turns).committed;
            &&& now.pending_on(a, invoice_id) && now.pending_on(b, invoice_id) ==> a == b
            &&& now.attempts.contains_key(a) ==> exists|key: (Uuid, Seq<char>)| #[trigger]
                now.stands_for(key, a)
            &&& forall|one: (Uuid, Seq<char>), other: (Uuid, Seq<char>)|
                #![trigger now.stands_for(one, a), now.stands_for(other, a)]
                now.stands_for(one, a) && now.stands_for(other, a) ==> one == other
        }),
{
    system_stays_in_order(system, turns);
    let now = after_turns(system, turns).committed;
    if now.pending_on(a, invoice_id) && now.pending_on(b, invoice_id) {
        assert(now.attempts[a].invoice_id == now.attempts[b].invoice_id);
    }
}

/// Granted turns keep what holds of the system, and undo nothing in the books.
proof fn turns_keep(first: Ledger, system: System, turns: Seq<Turn>)
    requires
        holds(first, system),
        all_granted(system, turns),
    ensures
        holds(first, after_turns(system, turns)),
        system.committed.leads_to(after_turns(system, turns).committed),
    decreases turns.len(),
{
    if turns.len() == 0 {
        leads_to_itself(system.committed);
    } else {
        turns_keep(first, system, turns.drop_last());
        let before = after_turns(system, turns.drop_last());
        turn_keeps(first, before, turns.last());
        leads_on(system.committed, before.committed, after_turns(system, turns).committed);
    }
}

/// When a payment is charged, all attempts on its invoice but its own have
/// failed.
proof fn charge_finds_failures(
    first: Ledger,
    system: System,
    turns: Seq<Turn>,
    q: int,
    attempt_id: Uuid,
)
    requires
        holds(first, system),
        all_granted(system, turns),
        system.payments.contains_key(q),
        !system.is_charged(q),
        system.committed.attempts.contains_key(attempt_id),
        system.committed.attempts[attempt_id].invoice_id
            == system.payments[q].request.invoice_id,
        after_turns(system, turns).is_charged(q),
    ensures
        after_turns(system, turns).committed.attempts[attempt_id].state is Failed,
    decreases turns.len(),
{
    if turns.len() > 0 {
        let before = after_turns(system, turns.drop_last());
        let after = after_turns(system, turns);
        turns_keep(first, system, turns.drop_last());
        turn_keeps(first, before, turns.last());
        if before.is_charged(q) {
            charge_finds_failures(first, system, turns.drop_last(), q, attempt_id);
        } else {
            payments_stay_the_same(system, turns.drop_last());
            assert(before.payments.contains_key(q));
            let payment = before.payments[q];
            own_payment_holds(first, before.committed, payment);
            let (a, b) = (attempt_id, payment.fresh);
            let attempts = after.committed.attempts;
            assert(attempts[b].state is Pending);
            assert(attempts[a].invoice_id == attempts[b].invoice_id);
        }
    }
}

/// An invoice is charged again only after a failure: whatever turns payments and
/// settlements take, every attempt that was made on an invoice before a payment
/// of it is charged has failed.
pub proof fn invoice_is_charged_again_only_after_failures(
    system: System,
    turns: Seq<Turn>,
    later: Seq<Turn>,
    q: int,
    attempt_id: Uuid,
)
    requires
        is_at_begin(system),
        all_granted(system, turns),
        all_granted(after_turns(system, turns), later),
        system.payments.contains_key(q),
        !after_turns(system, turns).is_charged(q),
        after_turns(after_turns(system, turns), later).is_charged(q),
        after_turns(system, turns).committed.attempts.contains_key(attempt_id),
        after_turns(system, turns).committed.attempts[attempt_id].invoice_id
            == system.payments[q].request.invoice_id,
    ensures
        ({
            let end = after_turns(after_turns(system, turns), later);
            end.committed.attempts[attempt_id].state is Failed
        }),
{
    system_stays_in_order(system, turns);
    payments_stay_the_same(system, turns);
    let between = after_turns(system, turns);
    assert(between.payments.contains_key(q));
    charge_finds_failures(system.committed, between, later, q, attempt_id);
}

/// Of two payments of one invoice of which one is charged before the other, the
/// attempt of the first has failed.
pub proof fn second_charge_follows_a_failed_first(
    system: System,
    turns: Seq<Turn>,
    later: Seq<Turn>,
    p: int,
    q: int,
)
    requires
        is_at_begin(system),
        all_granted(system, turns),
        all_granted(after_turns(system, turns), later),
        system.payments.contains_key(q),
        system.payments[p].request.invoice_id == system.payments[q].request.invoice_id,
        after_turns(system, turns).is_charged(p),
        !after_turns(system, turns).is_charged(q),
        after_turns(after_turns(system, turns), later).is_charged(q),
    ensures
        ({
            let end = after_turns(after_turns(system, turns), later);
            end.committed.attempts[system.payments[p].fresh].state is Failed
        }),
{
    system_stays_in_order(system, turns);
    payments_stay_the_same(system, turns);
    let between = after_turns(system, turns);
    assert(between.payments.contains_key(p));
    assert(system.payments.contains_key(p));
    invoice_is_charged_again_only_after_failures(
        system,
        turns,
        later,
        q,
        system.payments[p].fresh,
    );
}

/// Two payments of one invoice are both charged only where the attempt of one of
/// them has failed, however close they were.
pub proof fn no_invoice_is_charged_twice(system: System, turns: Seq<Turn>, p: int, q: int)
    requires
        is_at_begin(system),
        all_granted(system, turns),
        p != q,
        after_turns(system, turns).is_charged(p),
        after_turns(system, turns).is_charged(q),
        after_turns(system, turns).payments[p].request.invoice_id == after_turns(
            system,
            turns,
        ).payments[q].request.invoice_id,
    ensures
        ({
            let end = after_turns(system, turns);
            let attempts = end.committed.attempts;
            attempts[end.payments[p].fresh].state is Failed
                || attempts[end.payments[q].fresh].state is Failed
        }),
{
    system_stays_in_order(system, turns);
    let end = after_turns(system, turns);
    assert(end.payments.contains_key(p) && end.payments.contains_key(q));
    assert(end.payments[p].fresh != end.payments[q].fresh);
    let (a, b) = (end.payments[p].fresh, end.payments[q].fresh);
    assert(end.committed.attempts[a].invoice_id == end.committed.attempts[b].invoice_id);
}

/// Whether a settlement is answered with a success.
pub open spec fn is_success(system: System, s: int) -> bool {
    &&& system.settlements.contains_key(s)
    &&& system.settlements[s].action matches SettleActionView::Answer(Ok(reply)) && reply.status
        == OK
}

/// A settlement is answered with a success only where its attempt has succeeded.
pub proof fn success_is_in_the_books(system: System, turns: Seq<Turn>, s: int)
    requires
        is_at_begin(system),
        all_granted(system, turns),
        is_success(after_turns(system, turns), s),
    ensures
        ({
            let end = after_turns(system, turns);
            let attempt_id = end.settlements[s].attempt_id;
            &&& end.committed.attempts.contains_key(attempt_id)
            &&& end.committed.attempts[attempt_id].state is Succeeded
            &&& end.committed.invoices[end.committed.attempts[attempt_id].invoice_id].paid
        }),
{
    system_stays_in_order(system, turns);
    let (first, end) = (system.committed, after_turns(system, turns));
    let settling = end.settlements[s];
    let (attempt_id, verdict) = (settling.attempt_id, settling.verdict);
    let answer = settling.action->Answer_0;
    let at = choose|at: Ledger| #[trigger]
        given_at(first, at, end.committed, attempt_id, verdict, answer);
    let after = settle(at, attempt_id, verdict).0;
    if at.attempts[attempt_id].state is Pending {
        verdict_settles_a_pending_attempt(at, attempt_id, verdict);
    } else {
        settled_attempt_is_left_alone(at, attempt_id, verdict);
    }
    assert(after.attempts.contains_key(attempt_id));
    assert(after.attempts[attempt_id].state is Succeeded);
}

/// Of all settlements that are answered with a success, those on one invoice are
/// of one attempt: an invoice is paid by one payment, whatever turns they take.
pub proof fn no_invoice_is_paid_twice(system: System, turns: Seq<Turn>, s: int, t: int)
    requires
        is_at_begin(system),
        all_granted(system, turns),
        ({
            let end = after_turns(system, turns);
            let attempts = end.committed.attempts;
            &&& is_success(end, s)
            &&& is_success(end, t)
            &&& attempts[end.settlements[s].attempt_id].invoice_id
                == attempts[end.settlements[t].attempt_id].invoice_id
        }),
    ensures
        ({
            let end = after_turns(system, turns);
            end.settlements[s].attempt_id == end.settlements[t].attempt_id
        }),
{
    success_is_in_the_books(system, turns, s);
    success_is_in_the_books(system, turns, t);
    system_stays_in_order(system, turns);
    let end = after_turns(system, turns);
    let (a, b) = (end.settlements[s].attempt_id, end.settlements[t].attempt_id);
    assert(end.committed.attempts[a].invoice_id == end.committed.attempts[b].invoice_id);
}

/// A paid invoice gains no attempt in a turn.
proof fn turn_adds_nothing_to_a_paid_invoice(
    first: Ledger,
    system: System,
    turn: Turn,
    invoice_id: Uuid,
)
    requires
        holds(first, system),
        is_granted(system, turn),
        system.committed.invoices.contains_key(invoice_id),
        system.committed.invoices[invoice_id].paid,
    ensures
        attempts_on(after_turn(system, turn).committed, invoice_id) == attempts_on(
            system.committed,
            invoice_id,
        ),
{
    turn_keeps(first, system, turn);
    let (now, later) = (system.committed, after_turn(system, turn).committed);
    match turn {
        Turn::Payment(p) => {
            own_payment_holds(first, now, system.payments[p]);
        },
        Turn::Settlement(s) => {
            own_settling_holds(first, now, system.settlements[s]);
        },
        Turn::Entry(_) => {},
    }
    assert forall|id: Uuid| attempts_on(later, invoice_id).contains(id) <==> attempts_on(
        now,
        invoice_id,
    ).contains(id) by {
        assert(now.attempts.contains_key(id) ==> later.attempts.contains_key(id));
        assert(later.attempts.dom().contains(id) <==> later.attempts.contains_key(id));
        assert(now.attempts.dom().contains(id) <==> now.attempts.contains_key(id));
    }
    assert(attempts_on(later, invoice_id) == attempts_on(now, invoice_id));
}

proof fn turns_add_nothing_to_a_paid_invoice(
    first: Ledger,
    system: System,
    turns: Seq<Turn>,
    invoice_id: Uuid,
)
    requires
        holds(first, system),
        all_granted(system, turns),
        system.committed.invoices.contains_key(invoice_id),
        system.committed.invoices[invoice_id].paid,
    ensures
        attempts_on(after_turns(system, turns).committed, invoice_id) == attempts_on(
            system.committed,
            invoice_id,
        ),
    decreases turns.len(),
{
    if turns.len() > 0 {
        turns_add_nothing_to_a_paid_invoice(first, system, turns.drop_last(), invoice_id);
        let before = after_turns(system, turns.drop_last());
        turns_keep(first, system, turns.drop_last());
        turn_adds_nothing_to_a_paid_invoice(first, before, turns.last(), invoice_id);
    }
}

/// An invoice that is paid never gains an attempt, whatever turns payments and
/// settlements take from then on.
pub proof fn paid_invoice_gains_no_attempt(
    system: System,
    turns: Seq<Turn>,
    later: Seq<Turn>,
    invoice_id: Uuid,
)
    requires
        is_at_begin(system),
        all_granted(system, turns),
        all_granted(after_turns(system, turns), later),
        after_turns(system, turns).committed.invoices.contains_key(invoice_id),
        after_turns(system, turns).committed.invoices[invoice_id].paid,
    ensures
        ({
            let paid = after_turns(system, turns);
            let end = after_turns(paid, later);
            &&& end.committed.invoices[invoice_id].paid
            &&& attempts_on(end.committed, invoice_id) == attempts_on(paid.committed, invoice_id)
        }),
{
    system_stays_in_order(system, turns);
    turns_keep(system.committed, after_turns(system, turns), later);
    turns_add_nothing_to_a_paid_invoice(
        system.committed,
        after_turns(system, turns),
        later,
        invoice_id,
    );
}

/// Whether all payments are of one open invoice without attempts, each under a
/// key of its own that is not known yet.
pub open spec fn all_pay(system: System, business_id: Uuid, invoice_id: Uuid) -> bool {
    &&& system.committed.invoice(business_id, invoice_id) matches Some(invoice) && !invoice.paid
    &&& attempts_on(system.committed, invoice_id) == Set::<Uuid>::empty()
    &&& forall|p: int| #[trigger]
        system.payments.contains_key(p) ==> {
            let payment = system.payments[p];
            &&& payment.request.business_id == business_id
            &&& payment.request.invoice_id == invoice_id
            &&& !system.committed.keys.contains_key(key_of(payment))
        }
    &&& forall|p: int, q: int|
        #![trigger system.payments[p], system.payments[q]]
        system.payments.contains_key(p) && system.payments.contains_key(q) && p != q ==> key_of(
            system.payments[p],
        ) != key_of(system.payments[q])
}

/// Whether a payment was told that the invoice is paid already, or that another
/// payment is under way.
pub open spec fn is_told_to_wait(payment: Payment) -> bool {
    ||| payment.action == PayActionView::Answer(Err(already_paid_view()))
    ||| payment.action == PayActionView::Answer(Err(payment_in_progress_view()))
}

/// A payment of that kind that was not charged was told to wait, and there is an
/// attempt on the invoice.
proof fn answered_payment_waits(
    system: System,
    turns: Seq<Turn>,
    business_id: Uuid,
    invoice_id: Uuid,
    p: int,
) -> (id: Uuid)
    requires
        is_at_begin(system),
        all_granted(system, turns),
        all_pay(system, business_id, invoice_id),
        system.payments.contains_key(p),
        after_turns(system, turns).payments[p].action is Answer,
    ensures
        is_told_to_wait(after_turns(system, turns).payments[p]),
        attempts_on(after_turns(system, turns).committed, invoice_id).contains(id),
{
    system_stays_in_order(system, turns);
    payments_stay_the_same(system, turns);
    let (first, end) = (system.committed, after_turns(system, turns));
    let now = end.committed;
    let payment = end.payments[p];
    let (request, fresh) = (payment.request, payment.fresh);
    let key = key_of(payment);
    assert(end.payments.contains_key(p));
    let at = choose|at: Ledger| #[trigger]
        answered_at(first, at, now, request, fresh, payment.action->Answer_0);
    assert(first.invoices.contains_key(invoice_id));
    assert(at.invoices.contains_key(invoice_id));
    if at.keys.contains_key(key) {
        assert(now.keys.contains_key(key));
        let q = choose|q: int| #[trigger] end.has_entered(q, key);
        assert(end.has_entered(q, key));
        assert(system.payments.contains_key(q));
        assert(key_of(system.payments[p]) == key && key_of(system.payments[q]) == key);
        assert(p == q);
        assert(false);
    }
    if at.invoices[invoice_id].paid {
        let id = choose|id: Uuid| #[trigger] at.paid_by(id, invoice_id);
        assert(at.paid_by(id, invoice_id));
        assert(now.attempts.contains_key(id));
        id
    } else {
        let id = choose|id: Uuid| at.pending_on(id, invoice_id);
        assert(at.pending(invoice_id) is Some);
        assert(at.pending_on(id, invoice_id));
        assert(now.attempts.contains_key(id));
        id
    }
}

/// Payments of one open invoice that run at once, each under a key of its own,
/// make one attempt in all, as long as no charge fails: one of them is charged,
/// and every other is told that the invoice is paid already, or that another
/// payment is under way.
pub proof fn payments_at_once_make_one_attempt(
    system: System,
    turns: Seq<Turn>,
    business_id: Uuid,
    invoice_id: Uuid,
    some: int,
)
    requires
        is_at_begin(system),
        all_granted(system, turns),
        all_pay(system, business_id, invoice_id),
        system.payments.contains_key(some),
        forall|p: int| #[trigger]
            system.payments.contains_key(p) ==> has_ended(after_turns(system, turns).payments[p]),
        forall|id: Uuid| #[trigger]
            attempts_on(after_turns(system, turns).committed, invoice_id).contains(id) ==> !(
            after_turns(system, turns).committed.attempts[id].state is Failed),
    ensures
        ({
            let end = after_turns(system, turns);
            exists|p: int| #[trigger]
                end.is_charged(p) && attempts_on(end.committed, invoice_id)
                    == set![end.payments[p].fresh] && (forall|q: int| #[trigger]
                    end.payments.contains_key(q) && q != p ==> is_told_to_wait(end.payments[q]))
        }),
{
    system_stays_in_order(system, turns);
    payments_stay_the_same(system, turns);
    let (first, end) = (system.committed, after_turns(system, turns));
    let now = end.committed;
    let p = if end.payments[some].action is PostCharge {
        some
    } else {
        let id = answered_payment_waits(system, turns, business_id, invoice_id, some);
        assert(now.attempts.contains_key(id));
        assert(!first.attempts.contains_key(id)) by {
            if first.attempts.contains_key(id) {
                assert(attempts_on(first, invoice_id).contains(id));
            }
        }
        choose|p: int| #[trigger] end.has_made(p, id)
    };
    assert(end.is_charged(p)) by {
        assert(end.payments.contains_key(some));
    }
    assert(system.payments.contains_key(p));
    let fresh = end.payments[p].fresh;
    assert(attempts_on(now, invoice_id).contains(fresh));
    assert forall|id: Uuid| attempts_on(now, invoice_id).contains(id) implies id == fresh by {
        assert(now.attempts[id].invoice_id == now.attempts[fresh].invoice_id);
    }
    assert(attempts_on(now, invoice_id) == set![fresh]);
    assert forall|q: int| #[trigger] end.payments.contains_key(q) && q != p implies is_told_to_wait(
        end.payments[q],
    ) by {
        assert(system.payments.contains_key(q));
        if end.payments[q].action is PostCharge {
            no_invoice_is_charged_twice(system, turns, p, q);
            assert(attempts_on(now, invoice_id).contains(end.payments[q].fresh));
            assert(false);
        } else {
            let _ = answered_payment_waits(system, turns, business_id, invoice_id, q);
        }
    }
}

}
