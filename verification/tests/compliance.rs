use opensase_hr::compliance::global_compliance::{
    ComplianceFramework, ComplianceRegistry, DataCategory, DataClassifier, DataResidencyEngine,
    GdprEvaluator, LegalBasis, PolicyEngine, ResidencyRequirement, TransferMechanism,
};

#[test]
fn test_policy_engine() {
    let engine = PolicyEngine::new();
    let results = engine.evaluate("DE", &[DataCategory::PersonalData]);
    assert!(!results.is_empty());
    assert!(results.iter().any(|r| r.framework == ComplianceFramework::Gdpr));
}

#[test]
fn test_gdpr_transfer_adequacy() {
    let evaluator = GdprEvaluator::new();
    let result = evaluator.check_transfer("JP", TransferMechanism::AdequacyDecision);
    assert!(result.allowed);
}

#[test]
fn test_gdpr_transfer_scc() {
    let evaluator = GdprEvaluator::new();
    let result = evaluator.check_transfer("AU", TransferMechanism::StandardContractualClauses);
    assert!(result.allowed);
    assert!(!result.conditions.is_empty());
}

#[test]
fn test_data_residency_strict() {
    let engine = DataResidencyEngine::new();
    let locations = engine.get_allowed_locations("RU");
    assert!(locations.iter().all(|l| l.country == "RU"));
}

#[test]
fn test_data_residency_regional() {
    let engine = DataResidencyEngine::new();
    let locations = engine.get_allowed_locations("DE");
    assert!(!locations.is_empty());
}

#[test]
fn test_data_classifier() {
    let cats = DataClassifier::classify_field("employee_salary");
    assert!(
        cats.contains(&DataCategory::FinancialData) || cats.contains(&DataCategory::EmploymentData)
    );
}

#[test]
fn global_compliance_test_registry() {
    let frameworks = ComplianceRegistry::supported_frameworks();
    assert!(frameworks.len() >= 10);
}

#[test]
fn evaluation_lists_the_policies_that_apply() {
    let engine = PolicyEngine::new();
    let ids = |j: &str, cats: &[DataCategory]| -> Vec<String> {
        engine.evaluate(j, cats).into_iter().map(|r| r.policy_id).collect()
    };
    assert_eq!(ids("DE", &[DataCategory::PersonalData]), vec!["GDPR-2016-679"]);
    assert_eq!(
        ids("NO", &[DataCategory::HealthData, DataCategory::SensitivePersonalData]),
        vec!["GDPR-2016-679"]
    );
    assert_eq!(ids("BR", &[DataCategory::PersonalData]), vec!["LGPD-2018"]);
    assert_eq!(ids("CN", &[DataCategory::PersonalData]), vec!["PIPL-2021"]);
    assert!(ids("DE", &[DataCategory::HealthData]).is_empty());
    assert!(ids("DE", &[]).is_empty());
    assert!(ids("US", &[DataCategory::PersonalData]).is_empty());
    let r = &engine.evaluate("US-CA", &[DataCategory::PersonalData])[0];
    assert_eq!(r.policy_id, "CCPA-2018");
    assert_eq!(r.framework, ComplianceFramework::Ccpa);
    assert!(r.compliant);
    assert!(r.violations.is_empty());
    assert!(r.required_actions.is_empty());
}

#[test]
fn frameworks_by_jurisdiction() {
    let engine = PolicyEngine::default();
    assert_eq!(engine.get_applicable_frameworks("FR"), vec![ComplianceFramework::Gdpr]);
    assert_eq!(engine.get_applicable_frameworks("IS"), vec![ComplianceFramework::Gdpr]);
    assert_eq!(engine.get_applicable_frameworks("US-CA"), vec![ComplianceFramework::Ccpa]);
    assert_eq!(engine.get_applicable_frameworks("SG"), vec![ComplianceFramework::Pdpa]);
    assert_eq!(engine.get_applicable_frameworks("ZA"), vec![ComplianceFramework::Popia]);
    assert_eq!(engine.get_applicable_frameworks("JP"), vec![ComplianceFramework::Appi]);
    assert!(engine.get_applicable_frameworks("US").is_empty());
    assert!(engine.get_applicable_frameworks("").is_empty());
}

#[test]
fn transfers_without_adequacy_rest_on_the_mechanism() {
    let evaluator = GdprEvaluator::default();
    let adequate = evaluator.check_transfer("CH", TransferMechanism::ContractualNecessity);
    assert!(adequate.allowed);
    assert_eq!(adequate.mechanism, TransferMechanism::AdequacyDecision);
    assert!(adequate.conditions.is_empty());
    assert_eq!(adequate.documentation, vec!["Transfer record"]);

    let scc = evaluator.check_transfer("AU", TransferMechanism::StandardContractualClauses);
    assert_eq!(scc.mechanism, TransferMechanism::StandardContractualClauses);
    assert_eq!(scc.conditions, vec!["SCCs signed", "TIA completed"]);
    assert_eq!(scc.documentation, vec!["Signed SCCs", "Transfer Impact Assessment"]);

    let bcr = evaluator.check_transfer("AU", TransferMechanism::BindingCorporateRules);
    assert!(bcr.allowed);
    assert_eq!(bcr.conditions, vec!["BCRs approved by lead DPA"]);
    assert_eq!(bcr.documentation, vec!["BCR approval"]);

    let consent = evaluator.check_transfer("AU", TransferMechanism::ExplicitConsent);
    assert!(consent.allowed);
    assert_eq!(consent.conditions, vec!["Explicit consent", "Risks communicated"]);
    assert_eq!(consent.documentation, vec!["Consent record"]);

    for mechanism in [TransferMechanism::ContractualNecessity, TransferMechanism::AdequacyDecision] {
        let refused = evaluator.check_transfer("AU", mechanism);
        assert!(!refused.allowed);
        assert_eq!(refused.mechanism, mechanism);
        assert!(refused.conditions.is_empty());
        assert!(refused.documentation.is_empty());
    }
}

#[test]
fn legal_bases_and_deadlines() {
    assert_eq!(
        GdprEvaluator::get_legal_bases("payroll"),
        vec![LegalBasis::Contract, LegalBasis::LegalObligation]
    );
    assert_eq!(
        GdprEvaluator::get_legal_bases("hr_administration"),
        vec![LegalBasis::Contract, LegalBasis::LegalObligation]
    );
    assert_eq!(GdprEvaluator::get_legal_bases("tax_reporting"), vec![LegalBasis::LegalObligation]);
    assert_eq!(
        GdprEvaluator::get_legal_bases("marketing"),
        vec![LegalBasis::Consent, LegalBasis::LegitimateInterests]
    );
    assert_eq!(GdprEvaluator::get_legal_bases("Payroll"), vec![LegalBasis::Consent]);
    assert_eq!(GdprEvaluator::dsr_deadline_days(true), 90);
    assert_eq!(GdprEvaluator::dsr_deadline_days(false), 30);
}

#[test]
fn residency_rules_decide_the_locations() {
    let engine = DataResidencyEngine::default();
    let ids = |c: &str| -> Vec<String> {
        engine.get_allowed_locations(c).iter().map(|l| l.id.clone()).collect()
    };
    assert_eq!(ids("RU"), vec!["ru-mo"]);
    assert_eq!(ids("CN"), vec!["cn-sh"]);
    assert_eq!(ids("DE"), vec!["eu-de", "eu-ie"]);
    assert_eq!(ids("ID"), vec!["eu-de", "eu-ie", "ap-sg", "us-va", "cn-sh", "ru-mo"]);
    assert_eq!(ids("US").len(), 6);

    let ru = engine.get_requirement("RU").unwrap();
    assert_eq!(ru.regulation, "Federal Law 242-FZ");
    assert_eq!(ru.requirement, ResidencyRequirement::Strict);
    assert_eq!(ru.allowed_locations, vec!["RU"]);
    let at = engine.get_requirement("AT").unwrap();
    assert_eq!(at.country, "AT");
    assert_eq!(at.requirement, ResidencyRequirement::Regional);
    assert_eq!(at.allowed_locations, vec!["EU", "EEA", "CH", "GB"]);
    assert_eq!(engine.get_requirement("ID").unwrap().requirement, ResidencyRequirement::Mirrored);
    assert!(engine.get_requirement("US").is_none());
    let de = engine.get_allowed_locations("DE")[0];
    assert_eq!(de.certifications, vec!["SOC2", "ISO27001", "C5"]);
}

#[test]
fn fields_are_classified_by_name_in_any_case() {
    assert_eq!(
        DataClassifier::classify_field("employee_salary"),
        vec![DataCategory::FinancialData, DataCategory::EmploymentData]
    );
    assert_eq!(
        DataClassifier::classify_field("Employee_Name"),
        vec![DataCategory::PersonalData, DataCategory::EmploymentData]
    );
    assert_eq!(DataClassifier::classify_field("GPS"), vec![DataCategory::LocationData]);
    assert_eq!(
        DataClassifier::classify_field("medical_fingerprint_bank_card"),
        vec![DataCategory::FinancialData, DataCategory::HealthData, DataCategory::BiometricData]
    );
    assert_eq!(DataClassifier::classify_field("notes"), vec![DataCategory::PersonalData]);
    assert_eq!(DataClassifier::classify_field(""), vec![DataCategory::PersonalData]);
    assert_eq!(DataClassifier::classify_lowercase("GPS"), vec![DataCategory::PersonalData]);
    assert!(DataClassifier::is_sensitive(DataCategory::HealthData));
    assert!(DataClassifier::is_sensitive(DataCategory::GeneticData));
    assert!(DataClassifier::is_sensitive(DataCategory::BiometricData));
    assert!(DataClassifier::is_sensitive(DataCategory::SensitivePersonalData));
    assert!(!DataClassifier::is_sensitive(DataCategory::PersonalData));
    assert!(!DataClassifier::is_sensitive(DataCategory::FinancialData));
}

#[test]
fn registry_tables() {
    let frameworks = ComplianceRegistry::supported_frameworks();
    assert_eq!(frameworks.len(), 11);
    assert_eq!(frameworks[0], ("GDPR", "EU/EEA", "Data protection, 4% revenue fines"));
    assert_eq!(frameworks[10], ("HIPAA", "US", "Healthcare data"));
    assert_eq!(
        ComplianceRegistry::data_localization_countries(),
        vec![("RU", "Strict"), ("CN", "Strict"), ("ID", "Mirrored"), ("VN", "Mirrored"), ("IN", "Flexible")]
    );
    let adequate = ComplianceRegistry::gdpr_adequacy_countries();
    assert_eq!(adequate.len(), 15);
    assert!(adequate.contains(&"JP"));
    assert!(!adequate.contains(&"AU"));
}
