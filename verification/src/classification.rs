//! Legal category of an entity, read off its identifier.

use crate::text::{contains, has_prefix, has_substring, starts_with};
use vstd::prelude::*;

verus! {

/// Identifiers of entities licensed to operate private insurance begin with this.
pub const AUTHORIZED_MARKER: &'static str = "authorized";

/// Identifiers of cooperatives begin with this.
pub const COOPERATIVE_MARKER: &'static str = "coop";

/// Identifiers of associations begin with this.
pub const ASSOCIATION_MARKER: &'static str = "assoc";

/// Identifiers of benefit clubs begin with this.
pub const BENEFIT_CLUB_MARKER: &'static str = "clube";

/// The insurance branches open to cooperatives. The set is closed.
#[derive(Clone, Copy, Debug, PartialEq, Eq, Structural)]
pub enum PermittedBranch {
    Agricultural,
    Health,
    WorkAccident,
}

impl PermittedBranch {
    /// The text by which an identifier declares this branch.
    pub open spec fn marker_text(self) -> Seq<char> {
        match self {
            PermittedBranch::Agricultural => "agricola"@,
            PermittedBranch::Health => "saude"@,
            PermittedBranch::WorkAccident => "acidentes"@,
        }
    }

    /// The text by which an identifier declares this branch.
    pub fn marker(&self) -> (marker: &'static str)
        ensures
            marker@ == self.marker_text(),
    {
        match self {
            PermittedBranch::Agricultural => "agricola",
            PermittedBranch::Health => "saude",
            PermittedBranch::WorkAccident => "acidentes",
        }
    }
}

/// The category of an entity, as the rules see it.
#[derive(Debug, PartialEq, Eq)]
pub enum EntityClassification {
    /// Not licensed at all.
    Unauthorized,
    /// A licensed cooperative; it carries its identifier, in which the branch is looked up.
    Cooperative { declared_branch: String },
    /// A licensed association.
    Association,
    /// A licensed benefit club.
    BenefitClub,
    /// Licensed, and none of the above.
    AuthorizedGeneral,
}

/// `EntityClassification` with its text as a sequence of characters.
pub enum EntityClass {
    Unauthorized,
    Cooperative { declared_branch: Seq<char> },
    Association,
    BenefitClub,
    AuthorizedGeneral,
}

impl View for EntityClassification {
    type V = EntityClass;

    open spec fn view(&self) -> EntityClass {
        match self {
            EntityClassification::Unauthorized => EntityClass::Unauthorized,
            EntityClassification::Cooperative { declared_branch } => EntityClass::Cooperative {
                declared_branch: declared_branch@,
            },
            EntityClassification::Association => EntityClass::Association,
            EntityClassification::BenefitClub => EntityClass::BenefitClub,
            EntityClassification::AuthorizedGeneral => EntityClass::AuthorizedGeneral,
        }
    }
}

impl Clone for EntityClassification {
    fn clone(&self) -> (copy: Self)
        ensures
            copy@ == self@,
    {
        match self {
            EntityClassification::Unauthorized => EntityClassification::Unauthorized,
            EntityClassification::Cooperative { declared_branch } => {
                EntityClassification::Cooperative { declared_branch: declared_branch.clone() }
            },
            EntityClassification::Association => EntityClassification::Association,
            EntityClassification::BenefitClub => EntityClassification::BenefitClub,
            EntityClassification::AuthorizedGeneral => EntityClassification::AuthorizedGeneral,
        }
    }
}

/// Whether the identifier is that of a licensed entity.
pub open spec fn authorized(identifier: Seq<char>) -> bool {
    has_prefix(identifier, AUTHORIZED_MARKER@)
}

/// Whether the identifier declares the given branch: the branch's marker stands anywhere in it.
pub open spec fn declares_branch(identifier: Seq<char>, branch: PermittedBranch) -> bool {
    has_substring(identifier, branch.marker_text())
}

/// Whether the identifier declares at least one permitted branch.
pub open spec fn declares_permitted_branch(identifier: Seq<char>) -> bool {
    ||| declares_branch(identifier, PermittedBranch::Agricultural)
    ||| declares_branch(identifier, PermittedBranch::Health)
    ||| declares_branch(identifier, PermittedBranch::WorkAccident)
}

/// The category that an identifier stands for. The markers are tried in a fixed order, and
/// the licence comes first: without it nothing else is looked at.
pub open spec fn classification_of(identifier: Seq<char>) -> EntityClass {
    if !authorized(identifier) {
        EntityClass::Unauthorized
    } else if has_prefix(identifier, COOPERATIVE_MARKER@) {
        EntityClass::Cooperative { declared_branch: identifier }
    } else if has_prefix(identifier, ASSOCIATION_MARKER@) {
        EntityClass::Association
    } else if has_prefix(identifier, BENEFIT_CLUB_MARKER@) {
        EntityClass::BenefitClub
    } else {
        EntityClass::AuthorizedGeneral
    }
}

/// Whether the identifier begins with the marker of licensed entities.
pub fn is_authorized(identifier: &str) -> (yes: bool)
    ensures
        yes == authorized(identifier@),
{
    starts_with(identifier, AUTHORIZED_MARKER)
}

/// Whether the identifier begins with the marker of cooperatives.
pub fn is_cooperative(identifier: &str) -> (yes: bool)
    ensures
        yes == has_prefix(identifier@, COOPERATIVE_MARKER@),
{
    starts_with(identifier, COOPERATIVE_MARKER)
}

/// Whether the identifier begins with the marker of associations.
pub fn is_association(identifier: &str) -> (yes: bool)
    ensures
        yes == has_prefix(identifier@, ASSOCIATION_MARKER@),
{
    starts_with(identifier, ASSOCIATION_MARKER)
}

/// Whether the identifier begins with the marker of benefit clubs.
pub fn is_benefit_club(identifier: &str) -> (yes: bool)
    ensures
        yes == has_prefix(identifier@, BENEFIT_CLUB_MARKER@),
{
    starts_with(identifier, BENEFIT_CLUB_MARKER)
}

/// Classifies an entity by its identifier. Total: every string has exactly one category.
pub fn classify(identifier: &str) -> (classification: EntityClassification)
    ensures
        classification@ == classification_of(identifier@),
{
    if !is_authorized(identifier) {
        EntityClassification::Unauthorized
    } else if is_cooperative(identifier) {
        EntityClassification::Cooperative { declared_branch: identifier.to_owned() }
    } else if is_association(identifier) {
        EntityClassification::Association
    } else if is_benefit_club(identifier) {
        EntityClassification::BenefitClub
    } else {
        EntityClassification::AuthorizedGeneral
    }
}

/// The category depends on the characters of the identifier and on nothing else: classified
/// again, an identifier gets the category it got before.
pub proof fn law_same_identifier_same_category(first: Seq<char>, second: Seq<char>)
    requires
        first =~= second,
    ensures
        classification_of(first) == classification_of(second),
{
}

/// Whether the identifier of a cooperative declares a branch that cooperatives may operate.
/// The marker may stand anywhere in the identifier, not only at its start.
pub fn validate_branch(identifier: &str) -> (permitted: bool)
    ensures
        permitted == declares_permitted_branch(identifier@),
{
    contains(identifier, PermittedBranch::Agricultural.marker()) || contains(
        identifier,
        PermittedBranch::Health.marker(),
    ) || contains(identifier, PermittedBranch::WorkAccident.marker())
}

} // verus!
