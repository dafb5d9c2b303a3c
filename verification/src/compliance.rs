//! The rule engine: from the initiator of a transfer to Permit or Deny.

use crate::classification::{
    authorized, classification_of, classify, declares_permitted_branch, validate_branch,
    EntityClass, EntityClassification, ASSOCIATION_MARKER, AUTHORIZED_MARKER,
    BENEFIT_CLUB_MARKER, COOPERATIVE_MARKER,
};
use crate::party::Party;
use crate::text::{has_prefix, lemma_prefix_agrees};
use vstd::prelude::*;

verus! {

/// Why a transfer is denied.
#[derive(Clone, Copy, Debug, PartialEq, Eq, Structural)]
pub enum ReasonCode {
    /// The initiator holds no licence.
    UnauthorizedEntity,
    /// The initiator is a cooperative outside the branches open to cooperatives.
    BranchNotPermitted,
    /// The initiator is an association or a benefit club.
    ProhibitedEntityType,
}

impl ReasonCode {
    /// The stable number under which the reason is reported to the outside.
    pub open spec fn number(self) -> u32 {
        match self {
            ReasonCode::UnauthorizedEntity => 0,
            ReasonCode::BranchNotPermitted => 1,
            ReasonCode::ProhibitedEntityType => 2,
        }
    }

    /// The stable number under which the reason is reported to the outside.
    pub fn code(&self) -> (code: u32)
        ensures
            code == self.number(),
    {
        match self {
            ReasonCode::UnauthorizedEntity => 0,
            ReasonCode::BranchNotPermitted => 1,
            ReasonCode::ProhibitedEntityType => 2,
        }
    }
}

/// The outcome of one evaluation.
#[derive(Clone, Copy, Debug, PartialEq, Eq, Structural)]
pub enum ComplianceDecision {
    Permit,
    Deny(ReasonCode),
}

/// What the rules say of an entity of the given category. The rules are tried in order and
/// the first that denies wins:
/// 1. an unlicensed entity is denied;
/// 2. a cooperative that declares no permitted branch is denied;
/// 3. an association or a benefit club is denied;
/// otherwise the transfer is permitted.
pub open spec fn ruling(class: EntityClass) -> ComplianceDecision {
    match class {
        EntityClass::Unauthorized => ComplianceDecision::Deny(ReasonCode::UnauthorizedEntity),
        EntityClass::Cooperative { declared_branch } => if declares_permitted_branch(
            declared_branch,
        ) {
            ComplianceDecision::Permit
        } else {
            ComplianceDecision::Deny(ReasonCode::BranchNotPermitted)
        },
        EntityClass::Association | EntityClass::BenefitClub => ComplianceDecision::Deny(
            ReasonCode::ProhibitedEntityType,
        ),
        EntityClass::AuthorizedGeneral => ComplianceDecision::Permit,
    }
}

/// What the rules say of the entity with the given identifier.
pub open spec fn decision_for(identifier: Seq<char>) -> ComplianceDecision {
    ruling(classification_of(identifier))
}

/// Applies the rules to an entity that has been classified.
pub fn decide(classification: &EntityClassification) -> (decision: ComplianceDecision)
    ensures
        decision == ruling(classification@),
{
    match classification {
        EntityClassification::Unauthorized => ComplianceDecision::Deny(
            ReasonCode::UnauthorizedEntity,
        ),
        EntityClassification::Cooperative { declared_branch } => {
            if validate_branch(declared_branch.as_str()) {
                ComplianceDecision::Permit
            } else {
                ComplianceDecision::Deny(ReasonCode::BranchNotPermitted)
            }
        },
        EntityClassification::Association | EntityClassification::BenefitClub => {
            ComplianceDecision::Deny(ReasonCode::ProhibitedEntityType)
        },
        EntityClassification::AuthorizedGeneral => ComplianceDecision::Permit,
    }
}

/// Evaluates a transfer. Only its initiator is subject to the rules. Total: every initiator
/// gets exactly one decision.
pub fn evaluate(initiator: &Party) -> (decision: ComplianceDecision)
    ensures
        decision == decision_for(initiator@),
{
    let classification = classify(initiator.identifier());
    decide(&classification)
}

/// An initiator whose identifier lacks the licence marker is denied as unauthorized,
/// whatever else the identifier holds.
pub proof fn law_unlicensed_is_denied(identifier: Seq<char>)
    requires
        !authorized(identifier),
    ensures
        decision_for(identifier) == ComplianceDecision::Deny(ReasonCode::UnauthorizedEntity),
{
}

/// An identifier that begins with the marker of cooperatives and declares no permitted branch
/// is denied: for its branch where it carries the licence marker too, as unauthorized where
/// it does not.
pub proof fn law_cooperative_outside_branches(identifier: Seq<char>)
    requires
        has_prefix(identifier, COOPERATIVE_MARKER@),
        !declares_permitted_branch(identifier),
    ensures
        authorized(identifier) ==> decision_for(identifier) == ComplianceDecision::Deny(
            ReasonCode::BranchNotPermitted,
        ),
        !authorized(identifier) ==> decision_for(identifier) == ComplianceDecision::Deny(
            ReasonCode::UnauthorizedEntity,
        ),
{
}

/// An identifier that begins with the marker of cooperatives and declares a permitted branch
/// is permitted where it carries the licence marker too, and denied as unauthorized where it
/// does not.
pub proof fn law_cooperative_within_branches(identifier: Seq<char>)
    requires
        has_prefix(identifier, COOPERATIVE_MARKER@),
        declares_permitted_branch(identifier),
    ensures
        authorized(identifier) ==> decision_for(identifier) == ComplianceDecision::Permit,
        !authorized(identifier) ==> decision_for(identifier) == ComplianceDecision::Deny(
            ReasonCode::UnauthorizedEntity,
        ),
{
}

/// An identifier that begins with the marker of associations or of benefit clubs is denied:
/// as a prohibited kind of entity where it carries the licence marker too, as unauthorized
/// where it does not. No branch it may declare changes that.
pub proof fn law_association_or_club_is_denied(identifier: Seq<char>)
    requires
        has_prefix(identifier, ASSOCIATION_MARKER@) || has_prefix(
            identifier,
            BENEFIT_CLUB_MARKER@,
        ),
    ensures
        authorized(identifier) ==> decision_for(identifier) == ComplianceDecision::Deny(
            ReasonCode::ProhibitedEntityType,
        ),
        !authorized(identifier) ==> decision_for(identifier) == ComplianceDecision::Deny(
            ReasonCode::UnauthorizedEntity,
        ),
{
    reveal_strlit("coop");
    reveal_strlit("assoc");
    reveal_strlit("clube");
    if has_prefix(identifier, COOPERATIVE_MARKER@) {
        lemma_prefix_agrees(identifier, COOPERATIVE_MARKER@, 0);
        lemma_prefix_agrees(identifier, COOPERATIVE_MARKER@, 1);
        if has_prefix(identifier, ASSOCIATION_MARKER@) {
            lemma_prefix_agrees(identifier, ASSOCIATION_MARKER@, 0);
        } else {
            lemma_prefix_agrees(identifier, BENEFIT_CLUB_MARKER@, 1);
        }
    }
}

/// The licence marker and the markers of cooperatives, associations and benefit clubs part
/// within their first two characters, so no identifier begins with the licence marker and
/// with one of the others. The licence is tried first: with these markers it decides alone.
pub proof fn law_licence_decides(identifier: Seq<char>)
    ensures
        authorized(identifier) ==> decision_for(identifier) == ComplianceDecision::Permit,
        !authorized(identifier) ==> decision_for(identifier) == ComplianceDecision::Deny(
            ReasonCode::UnauthorizedEntity,
        ),
{
    reveal_strlit("authorized");
    reveal_strlit("coop");
    reveal_strlit("assoc");
    reveal_strlit("clube");
    if authorized(identifier) {
        lemma_prefix_agrees(identifier, AUTHORIZED_MARKER@, 0);
        lemma_prefix_agrees(identifier, AUTHORIZED_MARKER@, 1);
        if has_prefix(identifier, COOPERATIVE_MARKER@) {
            lemma_prefix_agrees(identifier, COOPERATIVE_MARKER@, 0);
        }
        if has_prefix(identifier, ASSOCIATION_MARKER@) {
            lemma_prefix_agrees(identifier, ASSOCIATION_MARKER@, 1);
        }
        if has_prefix(identifier, BENEFIT_CLUB_MARKER@) {
            lemma_prefix_agrees(identifier, BENEFIT_CLUB_MARKER@, 0);
        }
    }
}

} // verus!
