//! Compliance gate for transfers under the rules of private insurance.
//!
//! A transfer has an initiator and a recipient, each known by an identifier. The rule
//! engine ([`compliance`]) classifies the initiator ([`classification`]) and permits or
//! denies the transfer. A permitted transfer goes to the registrar ([`registrar`]); the
//! instruction processor ([`processor`]) ties the steps together for one invocation. The
//! ledger is the host's: the library decides, and never writes.

pub mod address;
pub mod classification;
pub mod compliance;
pub mod party;
pub mod processor;
pub mod registrar;
pub mod text;

pub use classification::{classify, validate_branch, EntityClassification, PermittedBranch};
pub use compliance::{decide, evaluate, ComplianceDecision, ReasonCode};
pub use party::Party;
pub use processor::{conclude, process_instruction, Failure, PermittedTransfer};
pub use registrar::{register, LedgerReply, RegistrationError, TransactionRecord};
