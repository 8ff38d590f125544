//! Payments and settlements that run side by side: what one does to the books
//! while others work on them too.
//!
//! A payment locks its invoice as soon as it has read it, and a settlement its
//! attempt and the invoice; each keeps the lock to the end of its transaction.
//! Until then no other transaction changes what is locked; everything else may
//! change between any two actions.
use vstd::prelude::*;

use crate::error::ErrorView;
use crate::http::ReplyView;
use crate::ids::Uuid;
use crate::ledger::{
    admission_action, leads_on, pay, perform_payment, perform_settlement, settle,
    status_texts_differ, step_leads_on, steps_keep_the_books_in_order, Admission, Ledger, Step,
    Written,
};
use crate::services::payments::{
    next_payment, record_answer, InvoiceStatus, PayActionView, PayStageView, RequestView,
    VerdictView,
};
use crate::services::settlement::{
    next_settlement, settlement_reply, settlement_view, SettleActionView, SettleStageView,
    SettlementView,
};

verus! {

/// A payment on its way: what is committed, what its transaction has written,
/// how far it is, and what it does next.
pub struct PaymentRun {
    pub committed: Ledger,
    pub written: Written,
    pub stage: PayStageView,
    pub action: PayActionView,
}

/// Whether a payment at a stage holds the lock on its invoice.
pub open spec fn holds_lock(stage: PayStageView) -> bool {
    match stage {
        PayStageView::Record { .. }
        | PayStageView::ReplayRollback { .. }
        | PayStageView::Pending
        | PayStageView::Attempt { .. }
        | PayStageView::Key { .. }
        | PayStageView::ConflictRollback
        | PayStageView::Commit { .. } => true,
        _ => false,
    }
}

/// Whether an invoice and its attempts are the same in two books.
pub open spec fn same_invoice(before: Ledger, after: Ledger, invoice_id: Uuid) -> bool {
    &&& before.invoices.contains_key(invoice_id) ==> after.invoices.contains_key(invoice_id)
        && after.invoices[invoice_id] == before.invoices[invoice_id]
    &&& forall|id: Uuid|
        after.pending_on(id, invoice_id) <==> #[trigger] before.pending_on(id, invoice_id)
}

/// What others may have made of the books before a payment's next action:
/// nothing is undone, and the books are in order; the id of the payment's
/// attempt is its own; its invoice is as it was where it holds the lock; and so
/// is its key, where its transaction has written it.
pub open spec fn others_act(
    run: PaymentRun,
    world: Ledger,
    request: RequestView,
    fresh: Uuid,
) -> bool {
    &&& run.committed.leads_to(world)
    &&& world.well_formed()
    &&& !world.attempts.contains_key(fresh)
    &&& holds_lock(run.stage) ==> same_invoice(run.committed, world, request.invoice_id)
    &&& run.written is AttemptAndKey ==> world.record(
        request.business_id,
        request.idempotency_key,
    ) == run.committed.record(request.business_id, request.idempotency_key)
}

/// The payment after its action on the books that others have left.
pub open spec fn advanced(
    run: PaymentRun,
    world: Ledger,
    request: RequestView,
    fresh: Uuid,
) -> PaymentRun {
    let (committed, written, event) = perform_payment(world, run.written, request, run.action);
    let (stage, action) = next_payment(request, run.stage, event, fresh);
    PaymentRun { committed, written, stage, action }
}

/// Whether a payment is at its answer, or at the call of the provider.
pub open spec fn is_decided(run: PaymentRun) -> bool {
    run.action is Answer || run.action is PostCharge
}

/// Whether a payment goes from one state to the next, with whatever others do
/// in between.
pub open spec fn goes_on(
    run: PaymentRun,
    next: PaymentRun,
    request: RequestView,
    fresh: Uuid,
) -> bool {
    &&& !is_decided(run)
    &&& exists|world: Ledger| #[trigger]
        others_act(run, world, request, fresh) && next == advanced(run, world, request, fresh)
}

/// Whether states are those of a payment from its begin on.
pub open spec fn is_run(states: Seq<PaymentRun>, request: RequestView, fresh: Uuid) -> bool {
    &&& states.len() > 0
    &&& states[0].committed.well_formed()
    &&& states[0].written is Nothing
    &&& states[0].stage is Begin
    &&& states[0].action is Begin
    &&& forall|i: int|
        0 <= i < states.len() - 1 ==> goes_on(#[trigger] states[i], states[i + 1], request, fresh)
}

/// Whether books stood at some moment from the first ones to the last ones.
pub open spec fn stood_between(first: Ledger, at: Ledger, last: Ledger) -> bool {
    &&& at.well_formed()
    &&& first.leads_to(at)
    &&& at.leads_to(last)
}

/// Whether an answer is the one that a payment had to be given at some moment,
/// when the id of its attempt was new.
pub open spec fn answered_at(
    first: Ledger,
    at: Ledger,
    last: Ledger,
    request: RequestView,
    fresh: Uuid,
    answer: Result<ReplyView, ErrorView>,
) -> bool {
    &&& stood_between(first, at, last)
    &&& !at.attempts.contains_key(fresh)
    &&& pay(at, request, fresh).1 == Admission::Answered(answer)
}

/// Whether a reply is the one that a payment had to be given at some moment.
pub open spec fn replied_at(
    first: Ledger,
    at: Ledger,
    last: Ledger,
    request: RequestView,
    fresh: Uuid,
    reply: ReplyView,
) -> bool {
    answered_at(first, at, last, request, fresh, Ok(reply))
}

/// Whether an invoice is open, without a pending attempt, and is the
/// business's.
pub open spec fn is_free(ledger: Ledger, request: RequestView) -> bool {
    &&& ledger.invoice(request.business_id, request.invoice_id) matches Some(invoice)
        && !invoice.paid
    &&& forall|id: Uuid| !#[trigger] ledger.pending_on(id, request.invoice_id)
}

/// The books at a moment when the key was not known and the invoice was open,
/// with the same attempts on it as now.
pub open spec fn unknown_at(
    first: Ledger,
    at: Ledger,
    last: Ledger,
    request: RequestView,
    fresh: Uuid,
) -> bool {
    &&& stood_between(first, at, last)
    &&& !at.attempts.contains_key(fresh)
    &&& at.record(request.business_id, request.idempotency_key) is None
    &&& at.invoice(request.business_id, request.invoice_id) matches Some(invoice) && !invoice.paid
    &&& same_invoice(at, last, request.invoice_id)
}

/// What holds of a payment on its way.
pub open spec fn in_step(
    first: Ledger,
    run: PaymentRun,
    request: RequestView,
    fresh: Uuid,
) -> bool {
    let now = run.committed;
    let invoice = now.invoice(request.business_id, request.invoice_id);
    let record = now.record(request.business_id, request.idempotency_key);
    &&& now.well_formed()
    &&& first.leads_to(now)
    &&& match run.stage {
        PayStageView::Begin => run.action is Begin && run.written is Nothing,
        PayStageView::Invoice => run.action is SelectInvoice && run.written is Nothing,
        PayStageView::Record { status } => {
            &&& run.action is SelectRecord
            &&& run.written is Nothing
            &&& invoice matches Some(invoice) && (status == InvoiceStatus::Paid <==> invoice.paid)
        },
        PayStageView::ReplayRollback { reply } => {
            &&& run.action is Rollback
            &&& run.written is Nothing
            &&& exists|at: Ledger| #[trigger] replied_at(first, at, now, request, fresh, reply)
        },
        PayStageView::Pending => {
            &&& run.action is SelectPending
            &&& run.written is Nothing
            &&& exists|at: Ledger| #[trigger] unknown_at(first, at, now, request, fresh)
        },
        PayStageView::Attempt { attempt_id } => {
            &&& attempt_id == fresh
            &&& run.action == PayActionView::InsertAttempt(fresh)
            &&& run.written is Nothing
            &&& is_free(now, request)
        },
        PayStageView::Key { attempt_id } => {
            &&& attempt_id == fresh
            &&& run.action == PayActionView::InsertKey(fresh)
            &&& run.written == Written::Attempt(fresh)
            &&& is_free(now, request)
        },
        PayStageView::ConflictRollback => {
            &&& run.action is Rollback
            &&& run.written == Written::Attempt(fresh)
            &&& invoice is Some
            &&& record is Some
        },
        PayStageView::Winner => {
            &&& run.action is SelectRecord
            &&& run.written is Nothing
            &&& invoice is Some
            &&& record is Some
        },
        PayStageView::Commit { attempt_id } => {
            &&& attempt_id == fresh
            &&& run.action is Commit
            &&& run.written == Written::AttemptAndKey(fresh)
            &&& is_free(now, request)
            &&& record is None
        },
        PayStageView::Charge { attempt_id } => {
            &&& run.action == PayActionView::PostCharge(fresh)
            &&& exists|at: Ledger| #[trigger]
                stood_between(first, at, now) && !at.attempts.contains_key(fresh) && pay(
                    at,
                    request,
                    fresh,
                ) == (now, Admission::Charged(fresh))
        },
        PayStageView::ChargeReply { .. } => false,
        PayStageView::Done => {
            &&& run.action is Answer
            &&& exists|at: Ledger| #[trigger]
                answered_at(first, at, now, request, fresh, run.action->Answer_0)
        },
    }
}

/// The books lead to themselves.
pub proof fn leads_to_itself(ledger: Ledger)
    ensures
        ledger.leads_to(ledger),
{
}

/// What holds of a payment on its way holds after its next action too.
pub proof fn stays_in_step(
    first: Ledger,
    run: PaymentRun,
    world: Ledger,
    request: RequestView,
    fresh: Uuid,
)
    requires
        in_step(first, run, request, fresh),
        !is_decided(run),
        others_act(run, world, request, fresh),
        request.well_formed(),
    ensures
        in_step(first, advanced(run, world, request, fresh), request, fresh),
{
    let before = run.committed;
    let next = advanced(run, world, request, fresh);
    leads_on(first, before, world);
    leads_to_itself(world);
    assert(stood_between(first, world, world));
    reveal_strlit("open");
    reveal_strlit("paid");
    assert("open"@[0] == 'o' && "paid"@[0] == 'p');
    let key = (request.business_id, request.idempotency_key);
    match run.stage {
        PayStageView::Begin => {},
        PayStageView::Invoice => {
            if world.invoice(request.business_id, request.invoice_id) is None {
                assert(answered_at(first, world, world, request, fresh, next.action->Answer_0));
            }
        },
        PayStageView::Record { status } => {
            match world.record(request.business_id, request.idempotency_key) {
                Some(record) => {
                    let answer = record_answer(record, request);
                    assert(answered_at(first, world, world, request, fresh, answer));
                    if let Ok(reply) = answer {
                        assert(next.stage->ReplayRollback_reply == reply);
                        assert(replied_at(
                            first,
                            world,
                            world,
                            request,
                            fresh,
                            next.stage->ReplayRollback_reply,
                        ));
                    }
                },
                None => {
                    if status == InvoiceStatus::Paid {
                        assert(answered_at(
                            first,
                            world,
                            world,
                            request,
                            fresh,
                            next.action->Answer_0,
                        ));
                    } else {
                        assert(unknown_at(first, world, world, request, fresh));
                    }
                },
            }
        },
        PayStageView::ReplayRollback { reply } => {
            let at = choose|at: Ledger| #[trigger]
                replied_at(first, at, before, request, fresh, reply);
            leads_on(at, before, world);
            assert(answered_at(first, at, world, request, fresh, Ok(reply)));
        },
        PayStageView::Pending => {
            let at = choose|at: Ledger| #[trigger] unknown_at(first, at, before, request, fresh);
            leads_on(at, before, world);
            assert(before.invoices.contains_key(request.invoice_id));
            assert(unknown_at(first, at, world, request, fresh)) by {
                assert forall|id: Uuid|
                    world.pending_on(id, request.invoice_id) <==> #[trigger] at.pending_on(
                        id,
                        request.invoice_id,
                    ) by {
                    assert(before.pending_on(id, request.invoice_id)
                        == before.pending_on(id, request.invoice_id));
                }
            }
            if world.pending(request.invoice_id) is Some {
                let id = choose|id: Uuid| world.pending_on(id, request.invoice_id);
                assert(world.pending_on(id, request.invoice_id));
                assert(at.pending_on(id, request.invoice_id));
                assert(answered_at(first, at, world, request, fresh, next.action->Answer_0));
            } else {
                assert(is_free(world, request));
            }
        },
        PayStageView::Attempt { .. } => {
            still_free(before, world, request);
        },
        PayStageView::Key { .. } => {
            still_free(before, world, request);
        },
        PayStageView::ConflictRollback => {
            assert(before.keys.contains_key(key) && before.invoices.contains_key(
                request.invoice_id,
            ));
        },
        PayStageView::Winner => {
            assert(before.keys.contains_key(key) && before.invoices.contains_key(
                request.invoice_id,
            ));
            assert(answered_at(first, world, world, request, fresh, next.action->Answer_0));
        },
        PayStageView::Commit { .. } => {
            still_free(before, world, request);
            assert(world.pending(request.invoice_id) is None);
            assert(pay(world, request, fresh) == (next.committed, Admission::Charged(fresh)));
            let step = Step::Pay { request, fresh };
            steps_keep_the_books_in_order(world, step);
            step_leads_on(world, step);
            leads_on(first, world, next.committed);
            assert(stood_between(first, world, next.committed));
        },
        PayStageView::Charge { .. } => {},
        PayStageView::ChargeReply { .. } => {},
        PayStageView::Done => {},
    }
}

/// What holds of a payment on its way holds after what others do too.
pub proof fn payment_bears_others(
    first: Ledger,
    run: PaymentRun,
    world: Ledger,
    request: RequestView,
    fresh: Uuid,
)
    requires
        in_step(first, run, request, fresh),
        !is_decided(run),
        others_act(run, world, request, fresh),
    ensures
        in_step(first, PaymentRun { committed: world, ..run }, request, fresh),
{
    let before = run.committed;
    leads_on(first, before, world);
    let key = (request.business_id, request.idempotency_key);
    match run.stage {
        PayStageView::ReplayRollback { reply } => {
            let at = choose|at: Ledger| #[trigger]
                replied_at(first, at, before, request, fresh, reply);
            leads_on(at, before, world);
            assert(replied_at(first, at, world, request, fresh, reply));
        },
        PayStageView::Pending => {
            let at = choose|at: Ledger| #[trigger] unknown_at(first, at, before, request, fresh);
            leads_on(at, before, world);
            assert(before.invoices.contains_key(request.invoice_id));
            assert forall|id: Uuid|
                world.pending_on(id, request.invoice_id) <==> #[trigger] at.pending_on(
                    id,
                    request.invoice_id,
                ) by {
                assert(before.pending_on(id, request.invoice_id)
                    == before.pending_on(id, request.invoice_id));
            }
            assert(unknown_at(first, at, world, request, fresh));
        },
        PayStageView::Attempt { .. }
        | PayStageView::Key { .. }
        | PayStageView::Commit { .. } => {
            still_free(before, world, request);
        },
        PayStageView::ConflictRollback | PayStageView::Winner => {
            assert(before.keys.contains_key(key) && before.invoices.contains_key(
                request.invoice_id,
            ));
        },
        _ => {},
    }
}

/// A free invoice stays free while its payment holds the lock.
proof fn still_free(before: Ledger, world: Ledger, request: RequestView)
    requires
        is_free(before, request),
        same_invoice(before, world, request.invoice_id),
    ensures
        is_free(world, request),
{
    assert forall|id: Uuid| !#[trigger] world.pending_on(id, request.invoice_id) by {
        assert(!before.pending_on(id, request.invoice_id));
    }
}

proof fn every_state_is_in_step(
    states: Seq<PaymentRun>,
    request: RequestView,
    fresh: Uuid,
    i: int,
)
    requires
        is_run(states, request, fresh),
        request.well_formed(),
        0 <= i < states.len(),
    ensures
        in_step(states[0].committed, states[i], request, fresh),
    decreases i,
{
    if i == 0 {
        leads_to_itself(states[0].committed);
    } else {
        every_state_is_in_step(states, request, fresh, i - 1);
        let (run, next) = (states[i - 1], states[i]);
        assert(goes_on(states[i - 1], states[i - 1 + 1], request, fresh));
        let world = choose|world: Ledger| #[trigger]
            others_act(run, world, request, fresh) && next == advanced(run, world, request, fresh);
        stays_in_step(states[0].committed, run, world, request, fresh);
    }
}

/// A payment takes effect at one moment, whatever others do while it runs: its
/// answer, or its charge, is what `pay` gives for the books at some moment
/// between its begin and its end, when the id of its attempt was new; and where
/// it is charged, what it has committed is what `pay` makes of them. It leaves
/// the books in order.
pub proof fn payment_takes_effect_at_one_moment(
    states: Seq<PaymentRun>,
    request: RequestView,
    fresh: Uuid,
)
    requires
        is_run(states, request, fresh),
        request.well_formed(),
        is_decided(states.last()),
    ensures
        states.last().committed.well_formed(),
        exists|at: Ledger| #[trigger]
            stood_between(states[0].committed, at, states.last().committed)
                && !at.attempts.contains_key(fresh) && states.last().action == admission_action(
                pay(at, request, fresh).1,
            ) && (states.last().action is PostCharge ==> states.last().committed == pay(
                at,
                request,
                fresh,
            ).0),
{
    let first = states[0].committed;
    let run = states.last();
    every_state_is_in_step(states, request, fresh, states.len() - 1);
    match run.stage {
        PayStageView::Charge { .. } => {
            let at = choose|at: Ledger| #[trigger]
                stood_between(first, at, run.committed) && !at.attempts.contains_key(fresh) && pay(
                    at,
                    request,
                    fresh,
                ) == (run.committed, Admission::Charged(fresh));
            assert(stood_between(first, at, run.committed));
        },
        _ => {
            let at = choose|at: Ledger| #[trigger]
                answered_at(first, at, run.committed, request, fresh, run.action->Answer_0);
            assert(stood_between(first, at, run.committed));
        },
    }
}

/// A payment that is only answered has committed nothing: whatever changed in
/// the books while it ran, others have changed.
pub proof fn answered_payment_commits_nothing(
    states: Seq<PaymentRun>,
    request: RequestView,
    fresh: Uuid,
    i: int,
)
    requires
        is_run(states, request, fresh),
        request.well_formed(),
        states.last().action is Answer,
        0 <= i < states.len() - 1,
    ensures
        !(states[i].action is Commit),
        others_act(states[i], states[i + 1].committed, request, fresh),
{
    every_state_is_in_step(states, request, fresh, i);
    every_state_is_in_step(states, request, fresh, i + 1);
    let (run, next) = (states[i], states[i + 1]);
    assert(goes_on(states[i], states[i + 1], request, fresh));
    let world = choose|world: Ledger| #[trigger]
        others_act(run, world, request, fresh) && next == advanced(run, world, request, fresh);
    assert(others_act(run, world, request, fresh) && next == advanced(run, world, request, fresh));
    if run.action is Commit {
        assert(next.action is PostCharge);
        if i + 1 < states.len() - 1 {
            assert(goes_on(states[i + 1], states[i + 1 + 1], request, fresh));
        }
    }
}

// Settlements.

/// A settlement on its way: what is committed, what its transaction has
/// written, how far it is, and what it does next.
pub struct SettlementRun {
    pub committed: Ledger,
    pub written: Option<SettlementView>,
    pub stage: SettleStageView,
    pub action: SettleActionView,
}

/// Whether a settlement at a stage holds the lock on its attempt and the
/// invoice.
pub open spec fn settlement_holds_lock(stage: SettleStageView) -> bool {
    match stage {
        SettleStageView::Record
        | SettleStageView::ReplayRollback { .. }
        | SettleStageView::Write { .. }
        | SettleStageView::Commit { .. } => true,
        _ => false,
    }
}

/// What others may have made of the books before a settlement's next action:
/// nothing is undone, and the books are in order; and the attempt and its
/// invoice are as they were where the settlement holds the lock.
pub open spec fn others_act_beside_settlement(
    run: SettlementRun,
    world: Ledger,
    attempt_id: Uuid,
) -> bool {
    &&& run.committed.leads_to(world)
    &&& world.well_formed()
    &&& settlement_holds_lock(run.stage) ==> world.row(attempt_id) == run.committed.row(attempt_id)
}

/// The settlement after its action on the books that others have left.
pub open spec fn settlement_advanced(
    run: SettlementRun,
    world: Ledger,
    attempt_id: Uuid,
    verdict: VerdictView,
) -> SettlementRun {
    let (committed, written, event) = perform_settlement(
        world,
        run.written,
        attempt_id,
        run.action,
    );
    let (stage, action) = next_settlement(attempt_id, verdict, run.stage, event);
    SettlementRun { committed, written, stage, action }
}

/// Whether a settlement goes from one state to the next, with whatever others
/// do in between.
pub open spec fn settlement_goes_on(
    run: SettlementRun,
    next: SettlementRun,
    attempt_id: Uuid,
    verdict: VerdictView,
) -> bool {
    &&& !(run.action is Answer)
    &&& exists|world: Ledger| #[trigger]
        others_act_beside_settlement(run, world, attempt_id) && next == settlement_advanced(
            run,
            world,
            attempt_id,
            verdict,
        )
}

/// Whether states are those of a settlement from its begin on.
pub open spec fn is_settlement_run(
    states: Seq<SettlementRun>,
    attempt_id: Uuid,
    verdict: VerdictView,
) -> bool {
    &&& states.len() > 0
    &&& states[0].committed.well_formed()
    &&& states[0].written is None
    &&& states[0].stage is Begin
    &&& states[0].action is Begin
    &&& forall|i: int|
        0 <= i < states.len() - 1 ==> settlement_goes_on(
            #[trigger] states[i],
            states[i + 1],
            attempt_id,
            verdict,
        )
}

/// Whether an answer is the one that a settlement had to be given at some
/// moment, and whether what came of it is in the books.
pub open spec fn settled_at(
    first: Ledger,
    at: Ledger,
    last: Ledger,
    attempt_id: Uuid,
    verdict: VerdictView,
    answer: Result<ReplyView, ErrorView>,
) -> bool {
    let (settled, given) = settle(at, attempt_id, verdict);
    &&& stood_between(first, at, last)
    &&& given == answer
    &&& settled == at || settled == last
}

/// Whether a reply without effect is the one that a settlement had to be given
/// at some moment.
pub open spec fn replayed_at(
    first: Ledger,
    at: Ledger,
    last: Ledger,
    attempt_id: Uuid,
    verdict: VerdictView,
    reply: ReplyView,
) -> bool {
    &&& stood_between(first, at, last)
    &&& settle(at, attempt_id, verdict) == (at, Ok::<ReplyView, ErrorView>(reply))
}

/// Whether an attempt can be settled with a verdict.
pub open spec fn can_be_settled(ledger: Ledger, attempt_id: Uuid, verdict: VerdictView) -> bool {
    ledger.row(attempt_id) matches Some(row) && row.status == "pending"@ && !(verdict.succeeded
        && row.invoice_status != "open"@)
}

/// What holds of a settlement on its way.
pub open spec fn settlement_in_step(
    first: Ledger,
    run: SettlementRun,
    attempt_id: Uuid,
    verdict: VerdictView,
) -> bool {
    let now = run.committed;
    let settlement = settlement_view(attempt_id, now.row(attempt_id)->0, verdict);
    &&& now.well_formed()
    &&& first.leads_to(now)
    &&& match run.stage {
        SettleStageView::Begin => run.action is Begin && run.written is None,
        SettleStageView::Attempt => run.action is SelectAttempt && run.written is None,
        SettleStageView::Record => {
            &&& run.action is SelectRecord
            &&& run.written is None
            &&& now.row(attempt_id) matches Some(row) && row.status != "pending"@
        },
        SettleStageView::ReplayRollback { reply } => {
            &&& run.action is Rollback
            &&& run.written is None
            &&& now.row(attempt_id) is Some
            &&& exists|at: Ledger| #[trigger]
                replayed_at(first, at, now, attempt_id, verdict, reply)
        },
        SettleStageView::Write { reply } => {
            &&& run.action == SettleActionView::Write(settlement)
            &&& run.written is None
            &&& can_be_settled(now, attempt_id, verdict)
            &&& reply == settlement_reply(settlement)
        },
        SettleStageView::Commit { reply } => {
            &&& run.action is Commit
            &&& run.written == Some(settlement)
            &&& can_be_settled(now, attempt_id, verdict)
            &&& reply == settlement_reply(settlement)
        },
        SettleStageView::Done => {
            &&& run.action is Answer
            &&& exists|at: Ledger| #[trigger]
                settled_at(first, at, now, attempt_id, verdict, run.action->Answer_0)
        },
    }
}

/// What holds of a settlement on its way holds after its next action too.
pub proof fn settlement_stays_in_step(
    first: Ledger,
    run: SettlementRun,
    world: Ledger,
    attempt_id: Uuid,
    verdict: VerdictView,
)
    requires
        settlement_in_step(first, run, attempt_id, verdict),
        !(run.action is Answer),
        others_act_beside_settlement(run, world, attempt_id),
    ensures
        settlement_in_step(
            first,
            settlement_advanced(run, world, attempt_id, verdict),
            attempt_id,
            verdict,
        ),
{
    let before = run.committed;
    let next = settlement_advanced(run, world, attempt_id, verdict);
    leads_on(first, before, world);
    leads_to_itself(world);
    status_texts_differ();
    assert(stood_between(first, world, world));
    match run.stage {
        SettleStageView::Begin => {},
        SettleStageView::Attempt => {
            if next.action is Answer {
                assert(settled_at(
                    first,
                    world,
                    world,
                    attempt_id,
                    verdict,
                    next.action->Answer_0,
                ));
            }
        },
        SettleStageView::Record => {
            assert(replayed_at(
                first,
                world,
                world,
                attempt_id,
                verdict,
                next.stage->ReplayRollback_reply,
            ));
        },
        SettleStageView::ReplayRollback { reply } => {
            let at = choose|at: Ledger| #[trigger]
                replayed_at(first, at, before, attempt_id, verdict, reply);
            leads_on(at, before, world);
            assert(settled_at(first, at, world, attempt_id, verdict, next.action->Answer_0));
        },
        SettleStageView::Write { .. } => {},
        SettleStageView::Commit { .. } => {
            let step = Step::Settle { attempt_id, verdict };
            assert(world.attempts[attempt_id].state is Pending);
            assert(settle(world, attempt_id, verdict).0 == next.committed);
            steps_keep_the_books_in_order(world, step);
            step_leads_on(world, step);
            leads_on(first, world, next.committed);
            assert(settled_at(
                first,
                world,
                next.committed,
                attempt_id,
                verdict,
                next.action->Answer_0,
            ));
        },
        SettleStageView::Done => {},
    }
}

proof fn every_settlement_state_is_in_step(
    states: Seq<SettlementRun>,
    attempt_id: Uuid,
    verdict: VerdictView,
    i: int,
)
    requires
        is_settlement_run(states, attempt_id, verdict),
        0 <= i < states.len(),
    ensures
        settlement_in_step(states[0].committed, states[i], attempt_id, verdict),
    decreases i,
{
    if i == 0 {
        leads_to_itself(states[0].committed);
    } else {
        every_settlement_state_is_in_step(states, attempt_id, verdict, i - 1);
        let (run, next) = (states[i - 1], states[i]);
        assert(settlement_goes_on(states[i - 1], states[i - 1 + 1], attempt_id, verdict));
        let world = choose|world: Ledger| #[trigger]
            others_act_beside_settlement(run, world, attempt_id) && next == settlement_advanced(
                run,
                world,
                attempt_id,
                verdict,
            );
        settlement_stays_in_step(states[0].committed, run, world, attempt_id, verdict);
    }
}

/// A settlement takes effect at one moment, whatever others do while it runs:
/// its answer is what `settle` gives for the books at some moment between its
/// begin and its end; and where `settle` changes them, what the settlement has
/// committed is what `settle` makes of them. It leaves the books in order.
pub proof fn settlement_takes_effect_at_one_moment(
    states: Seq<SettlementRun>,
    attempt_id: Uuid,
    verdict: VerdictView,
)
    requires
        is_settlement_run(states, attempt_id, verdict),
        states.last().action is Answer,
    ensures
        states.last().committed.well_formed(),
        exists|at: Ledger| #[trigger]
            settled_at(
                states[0].committed,
                at,
                states.last().committed,
                attempt_id,
                verdict,
                states.last().action->Answer_0,
            ),
{
    every_settlement_state_is_in_step(states, attempt_id, verdict, states.len() - 1);
}

/// What holds of a settlement on its way holds after what others do too.
pub proof fn settlement_bears_others(
    first: Ledger,
    run: SettlementRun,
    world: Ledger,
    attempt_id: Uuid,
    verdict: VerdictView,
)
    requires
        settlement_in_step(first, run, attempt_id, verdict),
        !(run.action is Answer),
        others_act_beside_settlement(run, world, attempt_id),
    ensures
        settlement_in_step(
            first,
            SettlementRun { committed: world, ..run },
            attempt_id,
            verdict,
        ),
{
    let before = run.committed;
    leads_on(first, before, world);
    if let SettleStageView::ReplayRollback { reply } = run.stage {
        let at = choose|at: Ledger| #[trigger]
            replayed_at(first, at, before, attempt_id, verdict, reply);
        leads_on(at, before, world);
        assert(replayed_at(first, at, world, attempt_id, verdict, reply));
    }
}

// What one commits is what the others rely on.

/// The commit of a payment is something that a payment of another invoice, or
/// one that does not hold the lock, bears: it does what others may do.
pub proof fn payment_commits_beside_a_payment(
    first: Ledger,
    run: PaymentRun,
    world: Ledger,
    request: RequestView,
    fresh: Uuid,
    other: PaymentRun,
    other_request: RequestView,
    other_fresh: Uuid,
)
    requires
        in_step(first, run, request, fresh),
        run.stage is Commit,
        others_act(run, world, request, fresh),
        request.well_formed(),
        others_act(other, world, other_request, other_fresh),
        fresh != other_fresh,
        holds_lock(other.stage) ==> other_request.invoice_id != request.invoice_id,
        other.written is AttemptAndKey ==> (
            other_request.business_id,
            other_request.idempotency_key,
        ) != (request.business_id, request.idempotency_key),
    ensures
        others_act(
            other,
            advanced(run, world, request, fresh).committed,
            other_request,
            other_fresh,
        ),
{
    let next = payment_commit_is_pay(first, run, world, request, fresh);
    leads_on(other.committed, world, next);
    if holds_lock(other.stage) {
        assert forall|id: Uuid|
            next.pending_on(id, other_request.invoice_id)
                <==> #[trigger] other.committed.pending_on(id, other_request.invoice_id) by {
            assert(world.pending_on(id, other_request.invoice_id)
                <==> other.committed.pending_on(id, other_request.invoice_id));
        }
    }
}

/// The commit of a payment is something that a settlement bears.
pub proof fn payment_commits_beside_a_settlement(
    first: Ledger,
    run: PaymentRun,
    world: Ledger,
    request: RequestView,
    fresh: Uuid,
    other: SettlementRun,
    other_attempt: Uuid,
)
    requires
        in_step(first, run, request, fresh),
        run.stage is Commit,
        others_act(run, world, request, fresh),
        request.well_formed(),
        others_act_beside_settlement(other, world, other_attempt),
        settlement_holds_lock(other.stage) ==> world.attempts.contains_key(other_attempt),
    ensures
        others_act_beside_settlement(
            other,
            advanced(run, world, request, fresh).committed,
            other_attempt,
        ),
{
    let next = payment_commit_is_pay(first, run, world, request, fresh);
    leads_on(other.committed, world, next);
}

/// What a payment commits is what `pay` makes of the books.
proof fn payment_commit_is_pay(
    first: Ledger,
    run: PaymentRun,
    world: Ledger,
    request: RequestView,
    fresh: Uuid,
) -> (next: Ledger)
    requires
        in_step(first, run, request, fresh),
        run.stage is Commit,
        others_act(run, world, request, fresh),
        request.well_formed(),
    ensures
        next == advanced(run, world, request, fresh).committed,
        next == world.with_attempt(request, fresh).with_key(request, fresh),
        (next, Admission::Charged(fresh)) == pay(world, request, fresh),
        next.well_formed(),
        world.leads_to(next),
{
    let next = advanced(run, world, request, fresh).committed;
    still_free(run.committed, world, request);
    assert(world.pending(request.invoice_id) is None);
    let step = Step::Pay { request, fresh };
    steps_keep_the_books_in_order(world, step);
    step_leads_on(world, step);
    next
}

/// The commit of a settlement is something that a payment of another invoice, or
/// one that does not hold the lock, bears.
pub proof fn settlement_commits_beside_a_payment(
    first: Ledger,
    run: SettlementRun,
    world: Ledger,
    attempt_id: Uuid,
    verdict: VerdictView,
    other: PaymentRun,
    other_request: RequestView,
    other_fresh: Uuid,
)
    requires
        settlement_in_step(first, run, attempt_id, verdict),
        run.stage is Commit,
        others_act_beside_settlement(run, world, attempt_id),
        others_act(other, world, other_request, other_fresh),
        holds_lock(other.stage) ==> other_request.invoice_id
            != world.attempts[attempt_id].invoice_id,
        other.written is AttemptAndKey ==> world.record(
            other_request.business_id,
            other_request.idempotency_key,
        ) is None,
    ensures
        others_act(
            other,
            settlement_advanced(run, world, attempt_id, verdict).committed,
            other_request,
            other_fresh,
        ),
{
    let next = settlement_commit_is_settle(first, run, world, attempt_id, verdict);
    leads_on(other.committed, world, next);
    if holds_lock(other.stage) {
        assert forall|id: Uuid|
            next.pending_on(id, other_request.invoice_id)
                <==> #[trigger] other.committed.pending_on(id, other_request.invoice_id) by {
            assert(world.pending_on(id, other_request.invoice_id)
                <==> other.committed.pending_on(id, other_request.invoice_id));
        }
    }
}

/// The commit of a settlement is something that a settlement on another invoice,
/// or one that does not hold the lock, bears.
pub proof fn settlement_commits_beside_a_settlement(
    first: Ledger,
    run: SettlementRun,
    world: Ledger,
    attempt_id: Uuid,
    verdict: VerdictView,
    other: SettlementRun,
    other_attempt: Uuid,
)
    requires
        settlement_in_step(first, run, attempt_id, verdict),
        run.stage is Commit,
        others_act_beside_settlement(run, world, attempt_id),
        others_act_beside_settlement(other, world, other_attempt),
        settlement_holds_lock(other.stage) ==> world.attempts.contains_key(other_attempt)
            && world.attempts[other_attempt].invoice_id != world.attempts[attempt_id].invoice_id,
    ensures
        others_act_beside_settlement(
            other,
            settlement_advanced(run, world, attempt_id, verdict).committed,
            other_attempt,
        ),
{
    let next = settlement_commit_is_settle(first, run, world, attempt_id, verdict);
    leads_on(other.committed, world, next);
}

/// What a settlement commits is what `settle` makes of the books.
proof fn settlement_commit_is_settle(
    first: Ledger,
    run: SettlementRun,
    world: Ledger,
    attempt_id: Uuid,
    verdict: VerdictView,
) -> (next: Ledger)
    requires
        settlement_in_step(first, run, attempt_id, verdict),
        run.stage is Commit,
        others_act_beside_settlement(run, world, attempt_id),
    ensures
        next == settlement_advanced(run, world, attempt_id, verdict).committed,
        next == settle(world, attempt_id, verdict).0,
        next == world.with_settlement(
            settlement_view(attempt_id, world.row(attempt_id)->0, verdict),
        ),
        next.well_formed(),
        world.leads_to(next),
{
    let next = settlement_advanced(run, world, attempt_id, verdict).committed;
    status_texts_differ();
    let step = Step::Settle { attempt_id, verdict };
    assert(world.attempts[attempt_id].state is Pending);
    assert(settle(world, attempt_id, verdict).0 == next);
    steps_keep_the_books_in_order(world, step);
    step_leads_on(world, step);
    next
}

}
