//! The registrar: from a permitted transfer and the ledger's reply to the record.

use crate::compliance::{decision_for, ComplianceDecision};
use crate::party::Party;
use vstd::prelude::*;

verus! {

/// What the host's ledger answered when asked to append a transfer.
#[derive(Clone, Copy, Debug, PartialEq, Eq, Structural)]
pub enum LedgerReply {
    /// The transfer is on the ledger.
    Appended,
    /// The write could not be completed; nothing is on the ledger.
    Unavailable,
}

/// Why a permitted transfer was not registered.
#[derive(Clone, Copy, Debug, PartialEq, Eq, Structural)]
pub enum RegistrationError {
    /// The ledger could not complete the write.
    LedgerUnavailable,
}

/// The two ends of a transfer, by identifier.
pub struct Transfer {
    pub initiator: Seq<char>,
    pub recipient: Seq<char>,
}

/// The record of a registered transfer. One exists only for an initiator that the rules
/// permit, and it is never changed.
#[derive(Debug, PartialEq, Eq)]
pub struct TransactionRecord {
    initiator: String,
    recipient: String,
}

impl View for TransactionRecord {
    type V = Transfer;

    closed spec fn view(&self) -> Transfer {
        Transfer { initiator: self.initiator@, recipient: self.recipient@ }
    }
}

impl Clone for TransactionRecord {
    fn clone(&self) -> (copy: Self)
        ensures
            copy@ == self@,
    {
        proof {
            use_type_invariant(self);
        }
        TransactionRecord { initiator: self.initiator.clone(), recipient: self.recipient.clone() }
    }
}

impl TransactionRecord {
    /// Holds of every value of this type: the rules permit its initiator.
    #[verifier::type_invariant]
    spec fn initiator_permitted(self) -> bool {
        decision_for(self.initiator@) == ComplianceDecision::Permit
    }

    /// The initiator's identifier. The rules permit this initiator.
    pub fn initiator(&self) -> (identifier: &str)
        ensures
            identifier@ == self@.initiator,
            decision_for(self@.initiator) == ComplianceDecision::Permit,
    {
        proof {
            use_type_invariant(self);
        }
        self.initiator.as_str()
    }

    /// The recipient's identifier.
    pub fn recipient(&self) -> (identifier: &str)
        ensures
            identifier@ == self@.recipient,
    {
        self.recipient.as_str()
    }
}

/// What the registrar makes of a permitted transfer, given the ledger's reply: with the
/// write done, the record of the two identifiers; with the ledger unavailable, no record.
pub open spec fn registration(
    initiator: Seq<char>,
    recipient: Seq<char>,
    reply: LedgerReply,
) -> Result<Transfer, RegistrationError> {
    match reply {
        LedgerReply::Appended => Ok(Transfer { initiator, recipient }),
        LedgerReply::Unavailable => Err(RegistrationError::LedgerUnavailable),
    }
}

/// Registers a transfer that the rules have permitted. The compliance of the initiator is
/// not looked at again: it is the caller's to have obtained `Permit`. The write itself is
/// the host's; `reply` is what the ledger answered to it.
pub fn register(initiator: &Party, recipient: &Party, reply: LedgerReply) -> (result: Result<
    TransactionRecord,
    RegistrationError,
>)
    requires
        decision_for(initiator@) == ComplianceDecision::Permit,
    ensures
        match result {
            Ok(record) => registration(initiator@, recipient@, reply) == Ok::<
                Transfer,
                RegistrationError,
            >(record@),
            Err(error) => registration(initiator@, recipient@, reply) == Err::<
                Transfer,
                RegistrationError,
            >(error),
        },
{
    match reply {
        LedgerReply::Appended => Ok(
            TransactionRecord {
                initiator: initiator.identifier().to_owned(),
                recipient: recipient.identifier().to_owned(),
            },
        ),
        LedgerReply::Unavailable => Err(RegistrationError::LedgerUnavailable),
    }
}

} // verus!
