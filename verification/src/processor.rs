//! The instruction processor: from an invocation to a registered or a rejected transfer.
//!
//! An invocation starts with its accounts. `process_instruction` takes it as far as the
//! decision: it ends there, rejected, or it hands out the permitted transfer, which the host
//! appends to its ledger. `conclude` takes the ledger's reply and ends the invocation,
//! registered or rejected. The processor itself writes nothing.

use crate::compliance::{decision_for, evaluate, ComplianceDecision, ReasonCode};
use crate::party::Party;
use crate::registrar::{
    register, registration, LedgerReply, RegistrationError, TransactionRecord, Transfer,
};
use vstd::prelude::*;

verus! {

/// Why an invocation ended without a registered transfer.
#[derive(Clone, Copy, Debug, PartialEq, Eq, Structural)]
pub enum Failure {
    /// The invocation names fewer than two accounts.
    MissingAccount,
    /// The rules deny the transfer.
    Denied(ReasonCode),
    /// The rules permit the transfer, and the registrar could not record it.
    Ledger(RegistrationError),
}

/// A transfer that the rules have permitted and that awaits the ledger.
#[derive(Debug, PartialEq, Eq)]
pub struct PermittedTransfer {
    initiator: Party,
    recipient: Party,
}

impl View for PermittedTransfer {
    type V = Transfer;

    closed spec fn view(&self) -> Transfer {
        Transfer { initiator: self.initiator@, recipient: self.recipient@ }
    }
}

impl PermittedTransfer {
    /// Holds of every value of this type: the rules permit its initiator.
    #[verifier::type_invariant]
    spec fn initiator_permitted(self) -> bool {
        decision_for(self.initiator@) == ComplianceDecision::Permit
    }

    /// The party that asked for the transfer. The rules permit it.
    pub fn initiator(&self) -> (party: &Party)
        ensures
            party@ == self@.initiator,
            decision_for(self@.initiator) == ComplianceDecision::Permit,
    {
        proof {
            use_type_invariant(self);
        }
        &self.initiator
    }

    /// The party that receives the transfer.
    pub fn recipient(&self) -> (party: &Party)
        ensures
            party@ == self@.recipient,
    {
        &self.recipient
    }
}

/// How far an invocation with the given accounts gets before the ledger is needed. The
/// first account is the initiator, the second the recipient; further accounts are not looked
/// at. With fewer than two the invocation is malformed and no decision is made. The rules
/// are put to the initiator alone.
pub open spec fn admission(accounts: Seq<Party>) -> Result<Transfer, Failure> {
    if accounts.len() < 2 {
        Err(Failure::MissingAccount)
    } else {
        match decision_for(accounts[0]@) {
            ComplianceDecision::Deny(reason) => Err(Failure::Denied(reason)),
            ComplianceDecision::Permit => Ok(
                Transfer { initiator: accounts[0]@, recipient: accounts[1]@ },
            ),
        }
    }
}

/// How an invocation ends once the ledger has replied to the append of a permitted transfer.
pub open spec fn conclusion(transfer: Transfer, reply: LedgerReply) -> Result<Transfer, Failure> {
    match registration(transfer.initiator, transfer.recipient, reply) {
        Ok(recorded) => Ok(recorded),
        Err(error) => Err(Failure::Ledger(error)),
    }
}

/// Takes an invocation up to the decision. The program's identifier and the instruction's
/// payload play no part in it. `Err` ends the invocation; nothing is to be written. `Ok`
/// hands out the permitted transfer for the host to append to its ledger.
pub fn process_instruction(
    _program_id: &str,
    accounts: &[Party],
    _instruction_data: &[u8],
) -> (outcome: Result<PermittedTransfer, Failure>)
    ensures
        match outcome {
            Ok(transfer) => admission(accounts@) == Ok::<Transfer, Failure>(transfer@),
            Err(failure) => admission(accounts@) == Err::<Transfer, Failure>(failure),
        },
{
    if accounts.len() < 2 {
        return Err(Failure::MissingAccount);
    }
    let initiator = &accounts[0];
    let recipient = &accounts[1];
    match evaluate(initiator) {
        ComplianceDecision::Deny(reason) => Err(Failure::Denied(reason)),
        ComplianceDecision::Permit => Ok(
            PermittedTransfer { initiator: initiator.clone(), recipient: recipient.clone() },
        ),
    }
}

/// Ends an invocation whose transfer was permitted, with the ledger's reply to the append:
/// the registrar makes the record, or the invocation is rejected for the ledger's failure.
pub fn conclude(transfer: PermittedTransfer, reply: LedgerReply) -> (outcome: Result<
    TransactionRecord,
    Failure,
>)
    ensures
        match outcome {
            Ok(record) => conclusion(transfer@, reply) == Ok::<Transfer, Failure>(record@),
            Err(failure) => conclusion(transfer@, reply) == Err::<Transfer, Failure>(failure),
        },
{
    proof {
        use_type_invariant(&transfer);
    }
    match register(&transfer.initiator, &transfer.recipient, reply) {
        Ok(record) => Ok(record),
        Err(error) => Err(Failure::Ledger(error)),
    }
}

/// No transfer reaches the registrar against the rules: an invocation is admitted only with
/// two accounts and a permitted initiator, and a denial is passed on with its reason.
pub proof fn law_admitted_is_permitted(accounts: Seq<Party>)
    ensures
        admission(accounts) is Ok <==> accounts.len() >= 2 && decision_for(accounts[0]@)
            == ComplianceDecision::Permit,
        forall|reason: ReasonCode|
            admission(accounts) == Err::<Transfer, Failure>(Failure::Denied(reason))
                <==> accounts.len() >= 2 && decision_for(accounts[0]@)
                == ComplianceDecision::Deny(reason),
        admission(accounts) == Err::<Transfer, Failure>(Failure::MissingAccount)
            <==> accounts.len() < 2,
{
}

} // verus!
