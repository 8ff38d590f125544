//! The mock provider: a card token decides how a charge ends, and a key has one
//! charge.
use vstd::prelude::*;

use crate::guarantees::answers::same_optional;
use crate::http::HttpReply;
use crate::ids::{is_v4, uuid_text, Uuid};
use crate::mock_psp::{
    charge_requested, processing_reply, reply_for_token, reply_for_token_with, token_outcome,
    ChargeStep, PspState, PspView,
};
use crate::models::{PayInput, PspReply, PspReplyView};

verus! {

/// Whether a reply is of a charge that fails with a code.
pub open spec fn fails_with(reply: PspReply, code: Seq<char>) -> bool {
    &&& reply.status@ == "failed"@
    &&& reply.psp_ref is None
    &&& reply.code matches Some(told) && told@ == code
}

/// Whether a charge with a card token takes this long and ends like this:
/// `tok_success` goes through at once, and `tok_timeout` after 30 seconds; the
/// others fail, each with its code.
pub open spec fn ends_by_token(
    card_token: Seq<char>,
    psp_ref: Seq<char>,
    delay_millis: u64,
    reply: PspReply,
) -> bool {
    &&& delay_millis == if card_token == "tok_timeout"@ {
        30_000
    } else {
        100int
    }
    &&& if card_token == "tok_success"@ || card_token == "tok_timeout"@ {
        &&& reply.status@ == "succeeded"@
        &&& reply.psp_ref matches Some(told) && told@ == psp_ref
        &&& reply.code is None
    } else if card_token == "tok_insufficient_funds"@ {
        fails_with(reply, "insufficient_funds"@)
    } else if card_token == "tok_card_declined"@ {
        fails_with(reply, "card_declined"@)
    } else {
        fails_with(reply, "unknown_token"@)
    }
}

proof fn tokens_differ()
    ensures
        "tok_timeout"@ != "tok_success"@,
        "tok_timeout"@ != "tok_insufficient_funds"@,
        "tok_timeout"@ != "tok_card_declined"@,
{
    reveal_strlit("tok_success");
    reveal_strlit("tok_timeout");
    reveal_strlit("tok_insufficient_funds");
    reveal_strlit("tok_card_declined");
    assert("tok_success"@[4] == 's' && "tok_timeout"@[4] == 't' && "tok_insufficient_funds"@[4]
        == 'i' && "tok_card_declined"@[4] == 'c');
}

/// The card token decides how a charge ends.
pub proof fn token_decides(card_token: &str, psp_ref: String, result: (u64, PspReply))
    requires
        call_ensures(reply_for_token_with, (card_token, psp_ref), result),
    ensures
        ends_by_token(card_token@, psp_ref@, result.0, result.1),
{
    tokens_differ();
}

/// So it does under a drawn reference, which is an id of version 4.
pub proof fn token_decides_under_a_drawn_reference(card_token: &str, result: (u64, PspReply))
    requires
        call_ensures(reply_for_token, (card_token,), result),
    ensures
        exists|reference: Uuid|
            is_v4(reference) && #[trigger] ends_by_token(
                card_token@,
                uuid_text(reference),
                result.0,
                result.1,
            ),
{
    tokens_differ();
    let reference = choose|reference: Uuid|
        is_v4(reference) && (result.0, result.1@) == #[trigger] token_outcome(
            card_token@,
            uuid_text(reference),
        );
    assert(ends_by_token(card_token@, uuid_text(reference), result.0, result.1));
}

/// Nothing is known of a charge that is under way.
pub proof fn nothing_is_known_while_under_way(reply: PspReply)
    requires
        call_ensures(processing_reply, (), reply),
    ensures
        reply.status@ == "processing"@,
        reply.psp_ref is None,
        reply.code is None,
{
}

/// Whether a reply says what is known of a charge.
pub open spec fn is_known_as(reply: PspReply, known: PspReplyView) -> bool {
    &&& reply.status@ == known.status
    &&& match (reply.psp_ref, known.psp_ref) {
        (Some(told), Some(known)) => told@ == known,
        (None, None) => true,
        _ => false,
    }
    &&& match (reply.code, known.code) {
        (Some(told), Some(known)) => told@ == known,
        (None, None) => true,
        _ => false,
    }
}

/// Whether a step refuses a request.
pub open spec fn is_refused(step: ChargeStep, status: int, body: Seq<char>) -> bool {
    step matches ChargeStep::Refused(reply) && reply.status == status && reply.body@ == body
}

/// Whether a request for a charge does this to the provider, and is met like
/// this. Without a key it is refused, and nothing changes; with one it is counted.
/// A key that has a charge keeps it, and it is the answer; a key that has none
/// gets one, which is under way until it ends as its card token decides.
pub open spec fn takes_a_request(
    before: PspView,
    after: PspView,
    key: Option<&str>,
    card_token: Seq<char>,
    psp_ref: Seq<char>,
    step: ChargeStep,
) -> bool {
    match key {
        Some(key) if key@.len() > 0 => {
            let count: int = if before.calls.contains_key(key@) {
                before.calls[key@] as int
            } else {
                0
            };
            &&& after.calls.contains_key(key@) && after.calls[key@] == count + 1
            &&& forall|other: Seq<char>|
                other != key@ ==> (#[trigger] after.calls.contains_key(other)
                    <==> before.calls.contains_key(other)) && (before.calls.contains_key(other)
                    ==> after.calls[other] == before.calls[other])
            &&& if card_token == "tok_network_error"@ {
                &&& is_refused(step, 500, "{\"error\":\"network_error\"}"@)
                &&& after.charges == before.charges
            } else if before.charges.contains_key(key@) {
                &&& step matches ChargeStep::Known(reply) && is_known_as(
                    reply,
                    before.charges[key@],
                )
                &&& after.charges == before.charges
            } else {
                &&& step matches ChargeStep::Started { delay_millis, reply } && ends_by_token(
                    card_token,
                    psp_ref,
                    delay_millis,
                    reply,
                ) && {
                    let started = after.charges[key@];
                    &&& after.charges.contains_key(key@)
                    &&& started.status == "processing"@
                    &&& is_known_as(
                        reply,
                        PspReplyView { status: reply.status@, ..started },
                    )
                }
                &&& after.charges.remove(key@) == before.charges
            }
        },
        _ => {
            &&& is_refused(step, 400, "{\"error\":\"Idempotency-Key required\"}"@)
            &&& after == before
        },
    }
}

proof fn request_is_taken(
    before: PspView,
    after: PspView,
    key: Option<&str>,
    card_token: Seq<char>,
    psp_ref: Seq<char>,
    step: ChargeStep,
)
    requires
        key matches Some(key) ==> before.call_count(key@) < u64::MAX,
        (after, step@) == charge_requested(
            before,
            crate::text::opt_str(key),
            card_token,
            psp_ref,
        ),
    ensures
        takes_a_request(before, after, key, card_token, psp_ref, step),
{
    tokens_differ();
    if let Some(key) = key {
        if step is Started {
            assert(after.charges.remove(key@) == before.charges);
        }
    }
}

/// A request for a charge is taken as the key and the card token demand.
pub proof fn requests_are_taken_by_their_keys()
    ensures
        forall|state: &mut PspState, key: Option<&str>, input: &PayInput, psp_ref: String,
            step: ChargeStep|
            (key matches Some(key) ==> state@.call_count(key@) < u64::MAX)
                && #[trigger] call_ensures(
                PspState::create_charge_with,
                (state, key, input, psp_ref),
                step,
            ) ==> takes_a_request(
                state@,
                final(state)@,
                key,
                input.card_token@,
                psp_ref@,
                step,
            ),
        forall|state: &mut PspState, key: Option<&str>, input: &PayInput, step: ChargeStep|
            (key matches Some(key) ==> state@.call_count(key@) < u64::MAX)
                && #[trigger] call_ensures(PspState::create_charge, (state, key, input), step)
                ==> exists|reference: Uuid|
                is_v4(reference) && #[trigger] takes_a_request(
                    state@,
                    final(state)@,
                    key,
                    input.card_token@,
                    uuid_text(reference),
                    step,
                ),
{
    assert forall|state: &mut PspState, key: Option<&str>, input: &PayInput, psp_ref: String,
        step: ChargeStep|
        (key matches Some(key) ==> state@.call_count(key@) < u64::MAX) && #[trigger] call_ensures(
            PspState::create_charge_with,
            (state, key, input, psp_ref),
            step,
        ) implies takes_a_request(
        state@,
        final(state)@,
        key,
        input.card_token@,
        psp_ref@,
        step,
    ) by {
        request_is_taken(state@, final(state)@, key, input.card_token@, psp_ref@, step);
    }
    assert forall|state: &mut PspState, key: Option<&str>, input: &PayInput, step: ChargeStep|
        (key matches Some(key) ==> state@.call_count(key@) < u64::MAX) && #[trigger] call_ensures(
            PspState::create_charge,
            (state, key, input),
            step,
        ) implies exists|reference: Uuid|
        is_v4(reference) && #[trigger] takes_a_request(
            state@,
            final(state)@,
            key,
            input.card_token@,
            uuid_text(reference),
            step,
        ) by {
        let reference = choose|reference: Uuid|
            is_v4(reference) && (final(state)@, step@) == #[trigger] charge_requested(
                state@,
                crate::text::opt_str(key),
                input.card_token@,
                uuid_text(reference),
            );
        request_is_taken(
            state@,
            final(state)@,
            key,
            input.card_token@,
            uuid_text(reference),
            step,
        );
    }
}

/// How a charge ended is recorded under its key, and is what is looked up there
/// from then on; what is known of other keys, and the counts, stay.
pub proof fn ended_charge_is_looked_up()
    ensures
        forall|state: &mut PspState, key: &str, reply: PspReply| #[trigger]
            call_ensures(PspState::complete_charge, (state, key, reply), ()) ==> {
                &&& final(state)@.calls == state@.calls
                &&& final(state)@.charges.contains_key(key@)
                &&& is_known_as(reply, final(state)@.charges[key@])
                &&& final(state)@.charges.remove(key@) == state@.charges.remove(key@)
            },
{
    assert forall|state: &mut PspState, key: &str, reply: PspReply| #[trigger]
        call_ensures(PspState::complete_charge, (state, key, reply), ()) implies {
        &&& final(state)@.calls == state@.calls
        &&& final(state)@.charges.contains_key(key@)
        &&& is_known_as(reply, final(state)@.charges[key@])
        &&& final(state)@.charges.remove(key@) == state@.charges.remove(key@)
    } by {
        assert(final(state)@.charges.remove(key@) == state@.charges.remove(key@));
    }
}

/// A charge is looked up as it is known, and one that is not known is not found;
/// where it is asked for, it is under way. The count of a key is that of its
/// requests.
pub proof fn charges_are_looked_up_as_known(
    state: PspState,
    key: &str,
    found: Result<PspReply, HttpReply>,
    told: PspReply,
    count: u64,
)
    requires
        call_ensures(PspState::get_charge, (&state, key), found),
        call_ensures(PspState::charge_or_processing, (&state, key), told),
        call_ensures(PspState::get_call_count, (&state, key), count),
    ensures
        match found {
            Ok(reply) => state@.charges.contains_key(key@) && is_known_as(
                reply,
                state@.charges[key@],
            ),
            Err(reply) => {
                &&& !state@.charges.contains_key(key@)
                &&& reply.status == 404
                &&& reply.body@ == "{\"error\":\"charge not found\"}"@
            },
        },
        match found {
            Ok(reply) => told.status@ == reply.status@ && same_optional(told.psp_ref, reply.psp_ref)
                && same_optional(told.code, reply.code),
            Err(_) => told.status@ == "processing"@ && told.psp_ref is None && told.code is None,
        },
        count == if state@.calls.contains_key(key@) {
            state@.calls[key@] as int
        } else {
            0
        },
{
}

/// A new provider knows no charge, and has counted nothing.
pub proof fn new_provider_knows_nothing(state: PspState, key: &str, count: u64)
    requires
        call_ensures(PspState::new, (), state),
        call_ensures(PspState::get_call_count, (&state, key), count),
    ensures
        !state@.charges.contains_key(key@),
        count == 0,
{
}

}
