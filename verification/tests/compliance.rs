use mutualchain::{
    decide, evaluate, ComplianceDecision, EntityClassification, Party, ReasonCode,
};

fn decision_for(identifier: &str) -> ComplianceDecision {
    evaluate(&Party::new(identifier.to_string()))
}

#[test]
fn reason_codes_are_stable() {
    assert_eq!(ReasonCode::UnauthorizedEntity.code(), 0);
    assert_eq!(ReasonCode::BranchNotPermitted.code(), 1);
    assert_eq!(ReasonCode::ProhibitedEntityType.code(), 2);
}

#[test]
fn licensed_insurer_is_permitted() {
    assert_eq!(decision_for("authorized-insurer-1"), ComplianceDecision::Permit);
    assert_eq!(decision_for("authorized"), ComplianceDecision::Permit);
}

#[test]
fn unknown_initiator_is_denied_as_unauthorized() {
    assert_eq!(
        decision_for("random-entity"),
        ComplianceDecision::Deny(ReasonCode::UnauthorizedEntity)
    );
    assert_eq!(decision_for(""), ComplianceDecision::Deny(ReasonCode::UnauthorizedEntity));
}

#[test]
fn cooperative_without_the_licence_marker_is_denied_as_unauthorized() {
    assert_eq!(
        decision_for("coop-transport-union"),
        ComplianceDecision::Deny(ReasonCode::UnauthorizedEntity)
    );
    assert_eq!(
        decision_for("coop-agricola-123"),
        ComplianceDecision::Deny(ReasonCode::UnauthorizedEntity)
    );
}

#[test]
fn association_without_the_licence_marker_is_denied_as_unauthorized() {
    assert_eq!(
        decision_for("assoc-benefit-1"),
        ComplianceDecision::Deny(ReasonCode::UnauthorizedEntity)
    );
    assert_eq!(
        decision_for("clube-do-bairro"),
        ComplianceDecision::Deny(ReasonCode::UnauthorizedEntity)
    );
}

#[test]
fn the_licence_marker_alone_decides() {
    let identifiers = [
        "",
        "random-entity",
        "authorized-insurer-1",
        "authorized-coop-saude",
        "authorized-assoc",
        "coop-saude",
        "assoc-benefit-1",
        "clube-1",
        "authorize",
    ];
    for identifier in identifiers {
        let expected = if identifier.starts_with("authorized") {
            ComplianceDecision::Permit
        } else {
            ComplianceDecision::Deny(ReasonCode::UnauthorizedEntity)
        };
        assert_eq!(decision_for(identifier), expected);
    }
}

#[test]
fn evaluate_is_decide_after_classify() {
    for identifier in ["", "random-entity", "authorized-insurer-1", "coop-saude", "assoc-1"] {
        let classification = mutualchain::classify(identifier);
        assert_eq!(decision_for(identifier), decide(&classification));
    }
}

#[test]
fn the_rules_deny_an_unauthorized_entity() {
    assert_eq!(
        decide(&EntityClassification::Unauthorized),
        ComplianceDecision::Deny(ReasonCode::UnauthorizedEntity)
    );
}

#[test]
fn the_rules_deny_a_cooperative_outside_the_permitted_branches() {
    let cooperative = EntityClassification::Cooperative {
        declared_branch: "coop-transport-union".to_string(),
    };
    assert_eq!(decide(&cooperative), ComplianceDecision::Deny(ReasonCode::BranchNotPermitted));
}

#[test]
fn the_rules_permit_a_cooperative_within_a_permitted_branch() {
    for identifier in ["coop-agricola-123", "coop-saude", "coop-acidentes"] {
        let cooperative =
            EntityClassification::Cooperative { declared_branch: identifier.to_string() };
        assert_eq!(decide(&cooperative), ComplianceDecision::Permit);
    }
}

#[test]
fn the_rules_deny_associations_and_benefit_clubs() {
    assert_eq!(
        decide(&EntityClassification::Association),
        ComplianceDecision::Deny(ReasonCode::ProhibitedEntityType)
    );
    assert_eq!(
        decide(&EntityClassification::BenefitClub),
        ComplianceDecision::Deny(ReasonCode::ProhibitedEntityType)
    );
}

#[test]
fn the_rules_permit_an_authorized_general_entity() {
    assert_eq!(decide(&EntityClassification::AuthorizedGeneral), ComplianceDecision::Permit);
}

#[test]
fn the_recipient_plays_no_part_in_the_decision() {
    let initiator = Party::new("authorized-insurer-1".to_string());
    assert_eq!(evaluate(&initiator), ComplianceDecision::Permit);
    let accounts = [initiator, Party::new("random-entity".to_string())];
    assert!(mutualchain::process_instruction("program", &accounts, &[]).is_ok());
}
