//! The operations a caller can select, and how an opcode with its arguments
//! selects one.

use vstd::prelude::*;

verus! {

/// The opcode of [`MetaAlkaneMessage::Initialize`].
pub const INITIALIZE_OPCODE: u128 = 0;

/// The opcode of [`MetaAlkaneMessage::Mint`].
pub const MINT_OPCODE: u128 = 77;

/// An operation of the alkane, with its arguments.
#[derive(Clone, Copy, Debug, PartialEq, Eq, Structural)]
pub enum MetaAlkaneMessage {
    /// Opcode 0, no arguments.
    Initialize,
    /// Opcode 77, one argument: an amount.
    Mint { amount: u128 },
}

/// The message that `opcode` selects, its arguments taken in order from
/// `args`; `None` when the opcode is unknown or an argument is missing.
/// Arguments beyond those the operation takes are ignored.
pub open spec fn decode(opcode: u128, args: Seq<u128>) -> Option<MetaAlkaneMessage> {
    if opcode == INITIALIZE_OPCODE {
        Some(MetaAlkaneMessage::Initialize)
    } else if opcode == MINT_OPCODE && args.len() >= 1 {
        Some(MetaAlkaneMessage::Mint { amount: args[0] })
    } else {
        None
    }
}

impl MetaAlkaneMessage {
    /// Decodes the message that `opcode` and `args` select.
    pub fn from_opcode(opcode: u128, args: &Vec<u128>) -> (r: Option<MetaAlkaneMessage>)
        ensures
            r == decode(opcode, args@),
    {
        if opcode == INITIALIZE_OPCODE {
            Some(MetaAlkaneMessage::Initialize)
        } else if opcode == MINT_OPCODE && args.len() >= 1 {
            Some(MetaAlkaneMessage::Mint { amount: args[0] })
        } else {
            None
        }
    }
}

} // verus!
