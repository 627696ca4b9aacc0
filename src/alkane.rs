//! The responder: its handlers, the dispatch of a decoded message to them,
//! and the whole call from opcode and arguments to outcome.

use vstd::prelude::*;

use crate::error::AlkaneError;
use crate::message::{decode, MetaAlkaneMessage, INITIALIZE_OPCODE, MINT_OPCODE};
use crate::response::{empty_response, CallResponse, CallResponseView};

verus! {

/// A stateless alkane: each call is answered by a fresh value.
#[derive(Debug, Default)]
pub struct MetaAlkane;

/// The content of a call's outcome.
pub open spec fn outcome_view(r: Result<CallResponse, AlkaneError>) -> Result<CallResponseView, AlkaneError> {
    match r {
        Ok(resp) => Ok(resp@),
        Err(e) => Err(e),
    }
}

/// What a decoded message answers: every known operation answers with the
/// empty response.
pub open spec fn message_outcome(m: MetaAlkaneMessage) -> Result<CallResponseView, AlkaneError> {
    match m {
        MetaAlkaneMessage::Initialize => Ok(empty_response()),
        MetaAlkaneMessage::Mint { .. } => Ok(empty_response()),
    }
}

/// What a call with `opcode` and `args` answers: the outcome of the message
/// they select, or `Unimplemented` when they select none.
pub open spec fn call_outcome(opcode: u128, args: Seq<u128>) -> Result<CallResponseView, AlkaneError> {
    match decode(opcode, args) {
        Some(m) => message_outcome(m),
        None => Err(AlkaneError::Unimplemented),
    }
}

impl MetaAlkane {
    /// Handles `Initialize`: answers with the empty response.
    pub fn initialize(&self) -> (r: Result<CallResponse, AlkaneError>)
        ensures
            outcome_view(r) == Ok::<CallResponseView, AlkaneError>(empty_response()),
    {
        Ok(CallResponse::default())
    }

    /// Handles `Mint`: the amount is accepted and not used; answers with the
    /// empty response.
    pub fn mint(&self, _amount: u128) -> (r: Result<CallResponse, AlkaneError>)
        ensures
            outcome_view(r) == Ok::<CallResponseView, AlkaneError>(empty_response()),
    {
        Ok(CallResponse::default())
    }

    /// Handles every call that selects no operation: fails as unimplemented.
    pub fn fallback(&self) -> (r: Result<CallResponse, AlkaneError>)
        ensures
            r == Err::<CallResponse, AlkaneError>(AlkaneError::Unimplemented),
    {
        Err(AlkaneError::Unimplemented)
    }

    /// Answers a call: decodes the message that `opcode` and `args` select
    /// and dispatches it, or falls back when they select none.
    pub fn execute(&self, opcode: u128, args: &Vec<u128>) -> (r: Result<CallResponse, AlkaneError>)
        ensures
            outcome_view(r) == call_outcome(opcode, args@),
            r is Ok <==> (opcode == INITIALIZE_OPCODE || (opcode == MINT_OPCODE && args@.len() >= 1)),
    {
        match MetaAlkaneMessage::from_opcode(opcode, args) {
            Some(m) => m.dispatch(self),
            None => self.fallback(),
        }
    }
}

impl MetaAlkaneMessage {
    /// Hands the message to the handler of its operation on `responder`.
    pub fn dispatch(&self, responder: &MetaAlkane) -> (r: Result<CallResponse, AlkaneError>)
        ensures
            outcome_view(r) == message_outcome(*self),
    {
        match self {
            MetaAlkaneMessage::Initialize => responder.initialize(),
            MetaAlkaneMessage::Mint { amount } => responder.mint(*amount),
        }
    }
}

/// A call with opcode 0 answers with the empty response, whatever arguments
/// follow.
pub proof fn lemma_initialize_answers_empty(args: Seq<u128>)
    ensures
        call_outcome(INITIALIZE_OPCODE, args) == Ok::<CallResponseView, AlkaneError>(empty_response()),
{
}

/// A call with opcode 77 and an amount answers with the empty response, for
/// every amount; so the amount never shows in the outcome.
pub proof fn lemma_mint_answers_empty(amount: u128, other: u128, rest: Seq<u128>)
    ensures
        call_outcome(MINT_OPCODE, seq![amount] + rest) == Ok::<CallResponseView, AlkaneError>(empty_response()),
        call_outcome(MINT_OPCODE, seq![amount] + rest) == call_outcome(MINT_OPCODE, seq![other] + rest),
{
}

/// A call with any opcode but 0 and 77 fails as unimplemented.
pub proof fn lemma_unknown_opcode_fails(opcode: u128, args: Seq<u128>)
    requires
        opcode != INITIALIZE_OPCODE,
        opcode != MINT_OPCODE,
    ensures
        call_outcome(opcode, args) == Err::<CallResponseView, AlkaneError>(AlkaneError::Unimplemented),
{
}

} // verus!
