//! A mock payment provider: charges by card token, each under a key that makes
//! its creation idempotent.
use vstd::hash_map::StringHashMap;
use vstd::prelude::*;
use vstd::string::*;

use crate::http::{HttpReply, ReplyView, BAD_REQUEST, INTERNAL_SERVER_ERROR, NOT_FOUND};
use crate::ids::{is_v4, uuid_text, Uuid};
use crate::models::{copy_optional, PayInput, PspReply, PspReplyView};
use crate::services::payments::{reply_verdict, VerdictView};
use crate::text::same_text;

verus! {

/// The charges that the provider knows, and how often each was asked for.
pub struct PspState {
    charges: StringHashMap<PspReply>,
    create_calls: StringHashMap<u64>,
}

/// What the provider knows.
pub struct PspView {
    pub charges: Map<Seq<char>, PspReplyView>,
    pub calls: Map<Seq<char>, u64>,
}

impl View for PspState {
    type V = PspView;

    closed spec fn view(&self) -> PspView {
        PspView {
            charges: self.charges@.map_values(|reply: PspReply| reply@),
            calls: self.create_calls@,
        }
    }
}

impl PspView {
    /// How often a charge was asked for under a key.
    pub open spec fn call_count(self, key: Seq<char>) -> u64 {
        if self.calls.contains_key(key) {
            self.calls[key]
        } else {
            0
        }
    }
}

/// What to do about a request for a charge.
#[derive(Debug)]
pub enum ChargeStep {
    /// Answer with an error.
    Refused(HttpReply),
    /// Answer with the charge that stands under the key.
    Known(PspReply),
    /// A new charge is under way: after `delay_millis` it stands with `reply`.
    Started { delay_millis: u64, reply: PspReply },
}

/// What a step says.
pub enum ChargeStepView {
    Refused(ReplyView),
    Known(PspReplyView),
    Started { delay_millis: u64, reply: PspReplyView },
}

impl View for ChargeStep {
    type V = ChargeStepView;

    open spec fn view(&self) -> ChargeStepView {
        match *self {
            ChargeStep::Refused(reply) => ChargeStepView::Refused(reply@),
            ChargeStep::Known(reply) => ChargeStepView::Known(reply@),
            ChargeStep::Started { delay_millis, reply } => ChargeStepView::Started {
                delay_millis,
                reply: reply@,
            },
        }
    }
}

/// A charge that went through.
pub open spec fn succeeded_view(psp_ref: Seq<char>) -> PspReplyView {
    PspReplyView { status: "succeeded"@, psp_ref: Some(psp_ref), code: None }
}

/// A charge that did not go through.
pub open spec fn failed_view(code: Seq<char>) -> PspReplyView {
    PspReplyView { status: "failed"@, psp_ref: None, code: Some(code) }
}

/// A charge of which nothing is known yet.
pub open spec fn processing_view() -> PspReplyView {
    PspReplyView { status: "processing"@, psp_ref: None, code: None }
}

/// How long a charge with a card token takes, in milliseconds, and how it ends
/// where `psp_ref` is the reference of a charge that goes through.
pub open spec fn token_outcome(card_token: Seq<char>, psp_ref: Seq<char>) -> (u64, PspReplyView) {
    if card_token == "tok_success"@ {
        (100, succeeded_view(psp_ref))
    } else if card_token == "tok_insufficient_funds"@ {
        (100, failed_view("insufficient_funds"@))
    } else if card_token == "tok_card_declined"@ {
        (100, failed_view("card_declined"@))
    } else if card_token == "tok_timeout"@ {
        (30_000, succeeded_view(psp_ref))
    } else {
        (100, failed_view("unknown_token"@))
    }
}

/// A charge before it is decided.
pub open spec fn pending_charge(outcome: PspReplyView) -> PspReplyView {
    PspReplyView { status: "processing"@, ..outcome }
}

/// The provider after a request for a charge, and what to do about the request.
/// `key` is what stands in the request's `Idempotency-Key` header, and `psp_ref`
/// the reference of a charge that goes through.
pub open spec fn charge_requested(
    state: PspView,
    key: Option<Seq<char>>,
    card_token: Seq<char>,
    psp_ref: Seq<char>,
) -> (PspView, ChargeStepView) {
    if key is None || key->0.len() == 0 {
        (
            state,
            ChargeStepView::Refused(
                ReplyView {
                    status: BAD_REQUEST,
                    body: "{\"error\":\"Idempotency-Key required\"}"@,
                },
            ),
        )
    } else {
        let key = key->0;
        let counted = PspView {
            calls: state.calls.insert(key, (state.call_count(key) + 1) as u64),
            ..state
        };
        if card_token == "tok_network_error"@ {
            (
                counted,
                ChargeStepView::Refused(
                    ReplyView {
                        status: INTERNAL_SERVER_ERROR,
                        body: "{\"error\":\"network_error\"}"@,
                    },
                ),
            )
        } else if state.charges.contains_key(key) {
            (counted, ChargeStepView::Known(state.charges[key]))
        } else {
            let (delay_millis, reply) = token_outcome(card_token, psp_ref);
            (
                PspView { charges: state.charges.insert(key, pending_charge(reply)), ..counted },
                ChargeStepView::Started { delay_millis, reply },
            )
        }
    }
}

/// A charge of which nothing is known yet.
pub fn processing_reply() -> (result: PspReply)
    ensures
        result@ == processing_view(),
{
    PspReply { status: "processing".to_owned(), psp_ref: None, code: None }
}

fn failed_reply(code: &str) -> (result: PspReply)
    ensures
        result@ == failed_view(code@),
{
    PspReply { status: "failed".to_owned(), psp_ref: None, code: Some(code.to_owned()) }
}

/// How long a charge with a card token takes, in milliseconds, and how it ends,
/// where `psp_ref` is the reference of a charge that goes through.
pub fn reply_for_token_with(card_token: &str, psp_ref: String) -> (result: (u64, PspReply))
    ensures
        (result.0, result.1@) == token_outcome(card_token@, psp_ref@),
{
    let quick: u64 = 100;
    if same_text(card_token, "tok_success") {
        (quick, PspReply { status: "succeeded".to_owned(), psp_ref: Some(psp_ref), code: None })
    } else if same_text(card_token, "tok_insufficient_funds") {
        (quick, failed_reply("insufficient_funds"))
    } else if same_text(card_token, "tok_card_declined") {
        (quick, failed_reply("card_declined"))
    } else if same_text(card_token, "tok_timeout") {
        (30_000, PspReply { status: "succeeded".to_owned(), psp_ref: Some(psp_ref), code: None })
    } else {
        (quick, failed_reply("unknown_token"))
    }
}

/// How long a charge with a card token takes, in milliseconds, and how it ends,
/// under a fresh reference.
pub fn reply_for_token(card_token: &str) -> (result: (u64, PspReply))
    ensures
        exists|reference: Uuid|
            is_v4(reference) && (result.0, result.1@) == #[trigger] token_outcome(
                card_token@,
                uuid_text(reference),
            ),
{
    let reference = Uuid::new_v4();
    reply_for_token_with(card_token, reference.text())
}

impl PspState {
    /// A provider that knows no charge.
    pub fn new() -> (result: PspState)
        ensures
            result@.charges == Map::<Seq<char>, PspReplyView>::empty(),
            result@.calls == Map::<Seq<char>, u64>::empty(),
    {
        let result = PspState { charges: StringHashMap::new(), create_calls: StringHashMap::new() };
        assert(result@.charges =~= Map::<Seq<char>, PspReplyView>::empty());
        result
    }

    /// How often a charge was asked for under a key.
    pub fn get_call_count(&self, key: &str) -> (result: u64)
        ensures
            result == self@.call_count(key@),
    {
        match self.create_calls.get(key) {
            Some(calls) => *calls,
            None => 0,
        }
    }

    /// Takes a request for a charge, under the given reference.
    pub fn create_charge_with(
        &mut self,
        key: Option<&str>,
        input: &PayInput,
        psp_ref: String,
    ) -> (result: ChargeStep)
        requires
            key matches Some(key) ==> old(self)@.call_count(key@) < u64::MAX,
        ensures
            (final(self)@, result@) == charge_requested(
                old(self)@,
                crate::text::opt_str(key),
                input.card_token@,
                psp_ref@,
            ),
    {
        let ghost before = self@;
        proof {
            reveal_strlit("");
        }
        let key = match key {
            Some(key) => key,
            None => "",
        };
        if key.is_empty() {
            return ChargeStep::Refused(
                HttpReply {
                    status: BAD_REQUEST,
                    body: "{\"error\":\"Idempotency-Key required\"}".to_owned(),
                },
            );
        }
        let calls: u64 = self.get_call_count(key);
        self.create_calls.insert(key.to_owned(), calls + 1);
        if same_text(input.card_token.as_str(), "tok_network_error") {
            return ChargeStep::Refused(
                HttpReply {
                    status: INTERNAL_SERVER_ERROR,
                    body: "{\"error\":\"network_error\"}".to_owned(),
                },
            );
        }
        if let Some(existing) = self.charges.get(key) {
            return ChargeStep::Known(existing.clone());
        }
        let (delay_millis, reply) = reply_for_token_with(input.card_token.as_str(), psp_ref);
        let pending = PspReply {
            status: "processing".to_owned(),
            psp_ref: copy_optional(&reply.psp_ref),
            code: copy_optional(&reply.code),
        };
        self.charges.insert(key.to_owned(), pending);
        assert(self@.charges =~= before.charges.insert(key@, pending@));
        ChargeStep::Started { delay_millis, reply }
    }

    /// Takes a request for a charge, under a fresh reference.
    pub fn create_charge(&mut self, key: Option<&str>, input: &PayInput) -> (result: ChargeStep)
        requires
            key matches Some(key) ==> old(self)@.call_count(key@) < u64::MAX,
        ensures
            exists|reference: Uuid|
                is_v4(reference) && (final(self)@, result@) == #[trigger] charge_requested(
                    old(self)@,
                    crate::text::opt_str(key),
                    input.card_token@,
                    uuid_text(reference),
                ),
    {
        let reference = Uuid::new_v4();
        self.create_charge_with(key, input, reference.text())
    }

    /// Records how a charge ended.
    pub fn complete_charge(&mut self, key: &str, reply: PspReply)
        ensures
            final(self)@.charges == old(self)@.charges.insert(key@, reply@),
            final(self)@.calls == old(self)@.calls,
    {
        let ghost before = self@;
        self.charges.insert(key.to_owned(), reply);
        assert(self@.charges =~= before.charges.insert(key@, reply@));
    }

    /// The charge under a key, or the word that nothing is known of it yet.
    pub fn charge_or_processing(&self, key: &str) -> (result: PspReply)
        ensures
            result@ == if self@.charges.contains_key(key@) {
                self@.charges[key@]
            } else {
                processing_view()
            },
    {
        match self.charges.get(key) {
            Some(reply) => reply.clone(),
            None => processing_reply(),
        }
    }

    /// The charge under a key.
    pub fn get_charge(&self, key: &str) -> (result: Result<PspReply, HttpReply>)
        ensures
            match result {
                Ok(reply) => self@.charges.contains_key(key@) && reply@ == self@.charges[key@],
                Err(reply) => !self@.charges.contains_key(key@) && reply@ == (ReplyView {
                    status: NOT_FOUND,
                    body: "{\"error\":\"charge not found\"}"@,
                }),
            },
    {
        match self.charges.get(key) {
            Some(reply) => Ok(reply.clone()),
            None => Err(
                HttpReply {
                    status: NOT_FOUND,
                    body: "{\"error\":\"charge not found\"}".to_owned(),
                },
            ),
        }
    }
}

/// Under a key that has a charge, no request starts another: the charge that
/// stands is the answer, whatever the request says, and no charge changes. (A
/// `tok_network_error` request is refused, and changes no charge either.)
pub proof fn charge_is_created_once(
    state: PspView,
    key: Seq<char>,
    card_token: Seq<char>,
    psp_ref: Seq<char>,
)
    requires
        key.len() > 0,
        state.charges.contains_key(key),
    ensures
        charge_requested(state, Some(key), card_token, psp_ref).0.charges == state.charges,
        card_token != "tok_network_error"@ ==> charge_requested(
            state,
            Some(key),
            card_token,
            psp_ref,
        ).1 == ChargeStepView::Known(state.charges[key]),
{
}

/// A request under a key starts a charge exactly where the key has none yet and
/// the network does not fail, and from then on the key has that charge: under
/// way, with the reference and the failure code that it ends with.
pub proof fn started_charge_stands_under_its_key(
    state: PspView,
    key: Seq<char>,
    card_token: Seq<char>,
    psp_ref: Seq<char>,
)
    requires
        key.len() > 0,
    ensures
        ({
            let (after, step) = charge_requested(state, Some(key), card_token, psp_ref);
            &&& step is Started <==> !state.charges.contains_key(key) && card_token
                != "tok_network_error"@
            &&& step matches ChargeStepView::Started { delay_millis, reply } ==> {
                &&& after.charges.contains_key(key)
                &&& after.charges[key].status == "processing"@
                &&& after.charges[key].psp_ref == reply.psp_ref
                &&& after.charges[key].code == reply.code
            }
        }),
{
}

/// Every request under a key is counted, under that key and no other, and a
/// request without a key is not.
pub proof fn requests_are_counted(
    state: PspView,
    key: Option<Seq<char>>,
    card_token: Seq<char>,
    psp_ref: Seq<char>,
    other: Seq<char>,
)
    requires
        key matches Some(key) ==> state.call_count(key) < u64::MAX,
    ensures
        charge_requested(state, key, card_token, psp_ref).0.call_count(other) == state.call_count(
            other,
        ) + (if key == Some(other) && other.len() > 0 {
            1int
        } else {
            0int
        }),
{
}

/// How a charge ends is up to the card token: `tok_success` and `tok_timeout` go
/// through, every other token fails with a code. While the charge is under way
/// there is no verdict.
pub proof fn token_decides_the_outcome(card_token: Seq<char>, psp_ref: Seq<char>)
    ensures
        ({
            let outcome = token_outcome(card_token, psp_ref).1;
            let succeeds = card_token == "tok_success"@ || card_token == "tok_timeout"@;
            &&& reply_verdict(outcome) == Some(
                VerdictView {
                    succeeded: succeeds,
                    psp_ref: if succeeds {
                        Some(psp_ref)
                    } else {
                        None
                    },
                    failure_code: if succeeds {
                        None
                    } else if card_token == "tok_insufficient_funds"@ {
                        Some("insufficient_funds"@)
                    } else if card_token == "tok_card_declined"@ {
                        Some("card_declined"@)
                    } else {
                        Some("unknown_token"@)
                    },
                },
            )
            &&& reply_verdict(pending_charge(outcome)) is None
        }),
{
    reveal_strlit("succeeded");
    reveal_strlit("failed");
    reveal_strlit("processing");
    assert("succeeded"@[0] == 's' && "failed"@[0] == 'f' && "processing"@[0] == 'p');
    reveal_strlit("tok_success");
    reveal_strlit("tok_timeout");
    reveal_strlit("tok_insufficient_funds");
    reveal_strlit("tok_card_declined");
    assert("tok_success"@[4] == 's' && "tok_timeout"@[4] == 't' && "tok_insufficient_funds"@[4]
        == 'i' && "tok_card_declined"@[4] == 'c');
}

}
