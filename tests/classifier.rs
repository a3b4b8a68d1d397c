use zeroclaw::catalog::OccupationCategory;
use zeroclaw::classifier::TaskClassifier;

#[test]
fn test_classifier_new() {
    let classifier = TaskClassifier::new();
    assert_eq!(classifier.occupations().len(), 44);
}

#[test]
fn test_classify_software() {
    let classifier = TaskClassifier::new();
    let result = classifier.classify("Write a REST API in Rust with authentication");

    assert_eq!(result.occupation, "Software Developers");
    assert_eq!(result.hourly_wage, 6950);
    assert!(result.confidence > 0);
}

#[test]
fn test_classify_finance() {
    let classifier = TaskClassifier::new();
    let result = classifier.classify("Prepare quarterly financial statements and audit trail");

    assert!(
        result.occupation.contains("Account") || result.occupation.contains("Financial"),
        "Expected finance occupation, got: {}",
        result.occupation
    );
}

#[test]
fn test_classify_fallback() {
    let classifier = TaskClassifier::new();
    let result = classifier.classify("xyzzy foobar baz");

    assert_eq!(result.occupation, "General and Operations Managers");
    assert_eq!(result.confidence, 300);
}

#[test]
fn test_estimate_hours_complex() {
    let hours = TaskClassifier::estimate_hours(
        "Implement a complete microservices architecture with event sourcing",
    );
    assert!(hours >= 1000, "Complex task should estimate >= 1 hour");
}

#[test]
fn test_estimate_hours_simple() {
    let hours = TaskClassifier::estimate_hours("Fix typo");
    assert!(hours <= 1000, "Simple task should estimate <= 1 hour");
}

#[test]
fn test_fuzzy_match() {
    let classifier = TaskClassifier::new();

    assert!(classifier.fuzzy_match("Software Developers").is_some());
    assert!(classifier.fuzzy_match("software developers").is_some());
    assert!(classifier.fuzzy_match("Software").is_some());
}

#[test]
fn test_occupations_by_category() {
    let classifier = TaskClassifier::new();
    let tech = classifier.occupations_by_category(OccupationCategory::TechnologyEngineering);

    assert!(!tech.is_empty());
    assert!(tech.iter().any(|o| o.name == "Software Developers"));
}

#[test]
fn scenario_backend_service() {
    let classifier = TaskClassifier::new();
    let result = classifier.classify("Write a backend service with authentication");
    assert_eq!(result.occupation, "Software Developers");
    assert_eq!(result.hourly_wage, 6950);
    assert_eq!(result.confidence, 333);
    assert_eq!(result.reasoning, "Matched 1 keywords");
    assert_eq!(result.category, OccupationCategory::TechnologyEngineering);
    assert_eq!(result.estimated_hours, 500);
    assert_eq!(result.max_payment, 3475);
}

#[test]
fn fallback_result_in_full() {
    let classifier = TaskClassifier::new();
    let result = classifier.classify("xyzzy foobar baz");
    assert_eq!(result.hourly_wage, 6400);
    assert_eq!(result.category, OccupationCategory::BusinessFinance);
    assert_eq!(result.reasoning, "Fallback classification - no strong keyword match");
    assert_eq!(result.estimated_hours, 500);
    assert_eq!(result.max_payment, 3200);
    assert_eq!(classifier.fallback_occupation(), "General and Operations Managers");
    assert_eq!(classifier.fallback_wage(), 6400);
}

#[test]
fn payment_rounds_half_cent_up() {
    let classifier = TaskClassifier::new();
    let result = classifier.classify("Fix nurse schedule");
    assert_eq!(result.occupation, "Registered Nurses");
    assert_eq!(result.estimated_hours, 250);
    assert_eq!(result.max_payment, 1656);
}

#[test]
fn two_keywords_and_case_sensitive_markers() {
    let classifier = TaskClassifier::new();
    let result =
        classifier.classify("Review the patient care plan for the registered nurse on duty");
    assert_eq!(result.occupation, "Registered Nurses");
    assert_eq!(result.confidence, 667);
    assert_eq!(result.reasoning, "Matched 2 keywords");
    assert_eq!(result.estimated_hours, 550);
    assert_eq!(result.max_payment, 3642);
}

#[test]
fn matching_ignores_instruction_case() {
    let classifier = TaskClassifier::new();
    let result = classifier.classify("SOFTWARE");
    assert_eq!(result.occupation, "Software Developers");
}

#[test]
fn classify_lowered_uses_the_given_lowercase_text() {
    let classifier = TaskClassifier::new();
    let result = classifier.classify_lowered("XYZZY", "software");
    assert_eq!(result.occupation, "Software Developers");
    assert_eq!(result.confidence, 333);
}

#[test]
fn three_keywords_give_full_confidence() {
    let classifier = TaskClassifier::new();
    let result = classifier.classify("software code programming");
    assert_eq!(result.occupation, "Software Developers");
    assert_eq!(result.confidence, 1000);
}

#[test]
fn hours_stay_within_bounds() {
    assert_eq!(TaskClassifier::estimate_hours(""), 500);
    assert_eq!(TaskClassifier::estimate_hours("Fix typo"), 250);
    assert_eq!(TaskClassifier::estimate_hours("   "), 500);
    let long = "implement ".repeat(100);
    assert_eq!(TaskClassifier::estimate_hours(&long), 4000);
    let medium = "word ".repeat(30);
    assert_eq!(TaskClassifier::estimate_hours(&medium), 1500);
    assert_eq!(TaskClassifier::estimate_hours("IMPLEMENT it"), 1000);
    assert_eq!(TaskClassifier::estimate_hours("BUILD it"), 500);
}

#[test]
fn estimate_hours_lowered_reads_the_given_text() {
    assert_eq!(TaskClassifier::estimate_hours_lowered("Do it", "implement it"), 1000);
    assert_eq!(TaskClassifier::estimate_hours_lowered("Do it", "fix it"), 250);
}

#[test]
fn get_occupation_is_exact() {
    let classifier = TaskClassifier::new();
    let occ = classifier.get_occupation("Registered Nurses").unwrap();
    assert_eq!(occ.hourly_wage, 6622);
    assert_eq!(occ.category, OccupationCategory::HealthcareSocialServices);
    assert!(classifier.get_occupation("registered nurses").is_none());
    assert!(classifier.get_occupation("Nobody").is_none());
}

#[test]
fn fuzzy_match_tiers() {
    let classifier = TaskClassifier::new();
    assert_eq!(
        classifier.fuzzy_match("registered NURSES").unwrap().name,
        "Registered Nurses"
    );
    assert_eq!(classifier.fuzzy_match("Software").unwrap().name, "Software Developers");
    assert_eq!(
        classifier.fuzzy_match("senior registered nurses team").unwrap().name,
        "Registered Nurses"
    );
    assert!(classifier.fuzzy_match("xyzzy").is_none());
}

#[test]
fn category_sizes_and_names() {
    let classifier = TaskClassifier::new();
    assert_eq!(
        classifier.occupations_by_category(OccupationCategory::TechnologyEngineering).len(),
        4
    );
    assert_eq!(classifier.occupations_by_category(OccupationCategory::BusinessFinance).len(), 22);
    assert_eq!(
        classifier.occupations_by_category(OccupationCategory::HealthcareSocialServices).len(),
        7
    );
    assert_eq!(
        classifier.occupations_by_category(OccupationCategory::LegalMediaOperations).len(),
        11
    );
    assert_eq!(
        OccupationCategory::LegalMediaOperations.display_name(),
        "Legal, Media & Operations"
    );
    assert_eq!(OccupationCategory::BusinessFinance.display_name(), "Business & Finance");
}

#[test]
fn catalog_is_well_formed() {
    let classifier = TaskClassifier::default();
    for occ in classifier.occupations() {
        assert!(occ.hourly_wage > 0);
        assert!(!occ.keywords.is_empty());
    }
    assert_eq!(classifier.occupations()[0].name, "Software Developers");
}

#[test]
fn ties_go_to_the_earliest_catalog_position() {
    let classifier = TaskClassifier::new();
    let result = classifier.classify("audit");
    assert_eq!(result.occupation, "Accountants and Auditors");
    assert_eq!(result.confidence, 333);
    let again = TaskClassifier::new().classify("audit");
    assert_eq!(again.occupation, result.occupation);
    assert_eq!(again.max_payment, result.max_payment);
}

#[test]
fn keywords_match_inside_longer_words() {
    let classifier = TaskClassifier::new();
    let result = classifier.classify("modern");
    assert_eq!(result.occupation, "Registered Nurses");
    assert_eq!(result.hourly_wage, 6622);
    assert_eq!(result.confidence, 333);
    assert_eq!(result.reasoning, "Matched 1 keywords");
}
