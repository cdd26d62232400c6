use opensase_hr::payroll::africa_mobile_gateway::{AfricaMobileMoneyRegistry, ProviderRouter};
use opensase_hr::payroll::asia_pacific::AsiaPacificRegistry;
use opensase_hr::payroll::central_eastern_europe::CentralEasternEuropeRegistry;
use opensase_hr::payroll::developed_asia::DevelopedAsiaRegistry;
use opensase_hr::payroll::europe_east_noneu::EasternEuropeNonEuRegistry;
use opensase_hr::payroll::middle_east::MiddleEastRegistry;
use opensase_hr::payroll::rate::Rate;
use opensase_hr::payroll::south_africa::SouthernAfricaRegistry;
use opensase_hr::payroll::south_america::SouthAmericaRegistry;
use opensase_hr::payroll::southern_europe::SouthernEuropeRegistry;
use opensase_hr::payroll::west_africa::WestAfricaTaxRegistry;
use opensase_hr::payroll::west_africa_enhanced::validate_phone_number;
use opensase_hr::payroll::western_europe::WesternEuropeExtendedRegistry;

#[test]
fn test_provider_router() {
    let router = ProviderRouter::new();

    // Kenya M-PESA routing
    let provider = router.route("KE", "+254712345678", None).unwrap();
    assert_eq!(provider, "MPESA_KE");

    // Ghana MTN routing
    let provider = router.route("GH", "+233241234567", None).unwrap();
    assert_eq!(provider, "MTN_GH");

    // Nigeria (aggregator)
    let provider = router.route("NG", "+2348012345678", None).unwrap();
    assert_eq!(provider, "FLUTTERWAVE");
}

#[test]
fn test_preferred_provider() {
    let router = ProviderRouter::new();

    // Explicit provider selection
    let provider = router.route("KE", "+254712345678", Some("AIRTEL_KE")).unwrap();
    assert_eq!(provider, "AIRTEL_KE");
}

#[test]
fn africa_mobile_gateway_test_registry() {
    let countries = AfricaMobileMoneyRegistry::supported_countries();
    assert!(countries.len() >= 16);

    assert!(AfricaMobileMoneyRegistry::uses_aggregator("ZA"));
    assert!(AfricaMobileMoneyRegistry::uses_aggregator("NG"));
    assert!(!AfricaMobileMoneyRegistry::uses_aggregator("KE"));
}

#[test]
fn asia_pacific_test_registry() {
    assert_eq!(AsiaPacificRegistry::supported_countries().len(), 8);
    assert!(AsiaPacificRegistry::has_mandatory_pension("IN"));
}

#[test]
fn central_eastern_europe_test_registry() {
    let countries = CentralEasternEuropeRegistry::supported_countries();
    assert_eq!(countries.len(), 11);
    assert!(CentralEasternEuropeRegistry::is_eurozone("EE"));
    assert!(CentralEasternEuropeRegistry::has_flat_tax("HU"));
}

#[test]
fn test_middle_east_registry() {
    let countries = MiddleEastRegistry::supported_countries();
    assert!(countries.len() >= 12);

    assert!(MiddleEastRegistry::is_gcc("AE"));
    assert!(MiddleEastRegistry::is_gcc("SA"));
    assert!(!MiddleEastRegistry::is_gcc("IL"));

    assert!(MiddleEastRegistry::requires_wps("AE"));
    assert!(MiddleEastRegistry::requires_wps("SA"));
}

#[test]
fn test_southern_africa_registry() {
    let countries = SouthernAfricaRegistry::supported_countries();
    assert_eq!(countries.len(), 10);

    assert!(SouthernAfricaRegistry::is_cma_country("NA"));
    assert!(SouthernAfricaRegistry::is_cma_country("LS"));
    assert!(!SouthernAfricaRegistry::is_cma_country("ZA"));
}

#[test]
fn test_south_america_registry() {
    let countries = SouthAmericaRegistry::supported_countries();
    assert_eq!(countries.len(), 12);

    assert!(SouthAmericaRegistry::has_thirteenth_salary("BR"));
    assert!(SouthAmericaRegistry::has_thirteenth_salary("AR"));
    assert!(SouthAmericaRegistry::is_dollarized("EC"));
    assert!(!SouthAmericaRegistry::is_dollarized("BR"));
}

#[test]
fn southern_europe_test_registry() {
    let countries = SouthernEuropeRegistry::supported_countries();
    assert_eq!(countries.len(), 6);
    assert!(SouthernEuropeRegistry::is_eurozone("ES"));
    assert!(SouthernEuropeRegistry::has_special_regime("PT"));
}

#[test]
fn test_west_africa_registry() {
    let countries = WestAfricaTaxRegistry::supported_countries();
    assert_eq!(countries.len(), 16);

    assert!(WestAfricaTaxRegistry::is_uemoa_country("CI"));
    assert!(WestAfricaTaxRegistry::is_uemoa_country("SN"));
    assert!(!WestAfricaTaxRegistry::is_uemoa_country("NG"));
    assert!(!WestAfricaTaxRegistry::is_uemoa_country("GH"));

    assert_eq!(WestAfricaTaxRegistry::get_currency("NG"), "NGN");
    assert_eq!(WestAfricaTaxRegistry::get_currency("CI"), "XOF");
}

#[test]
fn test_phone_validation() {
    // Nigeria: +234 (4) + 10 digits = 14 chars
    let (valid, _) = validate_phone_number("+2348031234567", "NG");
    assert!(valid);

    // Ghana: +233 (4) + 9 digits = 13 chars
    let (valid, _) = validate_phone_number("+233201234567", "GH");
    assert!(valid);

    // Invalid: no country code
    let (valid, err) = validate_phone_number("08031234567", "NG");
    assert!(!valid);
    assert!(!err.is_empty());
}

#[test]
fn western_europe_test_registry() {
    let countries = WesternEuropeExtendedRegistry::supported_countries();
    assert_eq!(countries.len(), 7);
    assert!(WesternEuropeExtendedRegistry::is_eu_member("AT"));
    assert!(WesternEuropeExtendedRegistry::is_efta_member("CH"));
    assert!(WesternEuropeExtendedRegistry::has_participation_exemption("LU"));
}

#[test]
fn routing_falls_through_prefix_providers_and_message() {
    let router = ProviderRouter::default();
    // A prefix decides before the first provider of the country does.
    assert_eq!(router.route("KE", "+254733000000", None).unwrap(), "AIRTEL_KE");
    assert_eq!(router.route("KE", "0790123456", None).unwrap(), "MPESA_KE");
    assert_eq!(router.route("GH", "0201234567", None).unwrap(), "VODAFONE_GH");
    assert_eq!(router.route("GH", "+233261234567", None).unwrap(), "AIRTEL_GH");
    // No prefix fits: the first provider of the country.
    assert_eq!(router.route("KE", "+254999000000", None).unwrap(), "MPESA_KE");
    assert_eq!(router.route("GH", "", None).unwrap(), "MTN_GH");
    assert_eq!(router.route("ET", "+251911000000", None).unwrap(), "TELEBIRR");
    // The payer's choice comes before everything, known country or not.
    assert_eq!(router.route("XX", "1", Some("ANY")).unwrap(), "ANY");
    // No provider at all.
    assert_eq!(
        router.route("XX", "+1555000", None).unwrap_err(),
        "No provider available for country: XX"
    );
    assert_eq!(router.route("", "", None).unwrap_err(), "No provider available for country: ");
}

#[test]
fn phone_numbers_are_brought_into_national_form() {
    let router = ProviderRouter::new();
    assert_eq!(router.normalize_phone("+254712345678", "KE"), "0712345678");
    assert_eq!(router.normalize_phone("+27821234567", "ZA"), "0821234567");
    assert_eq!(router.normalize_phone("+254", "KE"), "0");
    assert_eq!(router.normalize_phone("0712345678", "KE"), "0712345678");
    assert_eq!(router.normalize_phone("+254712345678", "GH"), "+254712345678");
    assert_eq!(router.normalize_phone("+251911000000", "ET"), "+251911000000");
    assert_eq!(router.normalize_phone("+2547é", "KE"), "07é");
}

#[test]
fn providers_by_country() {
    let router = ProviderRouter::new();
    assert_eq!(router.get_providers("NG"), vec!["FLUTTERWAVE", "PAYSTACK", "OPAY"]);
    assert_eq!(router.get_providers("CI"), vec!["WAVE", "ORANGE_CI", "MTN_CI"]);
    assert_eq!(router.get_providers("MA"), vec!["ORANGE_MA", "INWI_MA"]);
    assert!(router.get_providers("US").is_empty());
    let countries = AfricaMobileMoneyRegistry::supported_countries();
    assert_eq!(countries.len(), 16);
    assert_eq!(countries[0], ("KE", "Kenya", vec!["M-PESA", "Airtel Money"]));
    assert_eq!(countries[8], ("CI", "Côte d'Ivoire", vec!["Wave", "Orange Money", "MTN MoMo"]));
    assert_eq!(countries[15], ("MA", "Morocco", vec!["Orange Money", "Inwi"]));
    assert!(!AfricaMobileMoneyRegistry::uses_aggregator(""));
}

#[test]
fn phone_validation_gives_reasons() {
    assert_eq!(validate_phone_number("+2348031234567", "NG"), (true, String::new()));
    assert_eq!(
        validate_phone_number("08031234567", "NG"),
        (false, "Expected +234 format with 14 digits".to_string())
    );
    assert_eq!(
        validate_phone_number("+234803123456", "NG"),
        (false, "Expected +234 format with 14 digits".to_string())
    );
    assert_eq!(
        validate_phone_number("+2331234567", "LR"),
        (false, "Expected +231 format with 11 digits".to_string())
    );
    assert_eq!(validate_phone_number("+2311234567", "LR"), (true, String::new()));
    // The length is counted in bytes, not in characters.
    assert_eq!(validate_phone_number("+23112345é", "LR"), (true, String::new()));
    assert_eq!(
        validate_phone_number("+2348031234567", "KE"),
        (false, "Unknown country code: KE".to_string())
    );
}

#[test]
fn registry_tables_and_predicates() {
    assert_eq!(CentralEasternEuropeRegistry::supported_countries()[1], ("CZ", "Czech Republic", "CZK"));
    assert!(!CentralEasternEuropeRegistry::is_eurozone("PL"));
    assert!(CentralEasternEuropeRegistry::is_eu_member("PL"));
    assert!(CentralEasternEuropeRegistry::is_eu_member("anything"));
    assert!(CentralEasternEuropeRegistry::uses_sepa(""));
    assert!(!CentralEasternEuropeRegistry::has_flat_tax("PL"));

    assert_eq!(WesternEuropeExtendedRegistry::supported_countries()[4], ("LI", "Liechtenstein", "CHF"));
    assert!(!WesternEuropeExtendedRegistry::is_eu_member("CH"));
    assert!(!WesternEuropeExtendedRegistry::is_efta_member("AT"));
    assert!(WesternEuropeExtendedRegistry::uses_sepa("MC"));
    assert!(!WesternEuropeExtendedRegistry::uses_sepa("DE"));
    assert!(!WesternEuropeExtendedRegistry::has_participation_exemption("AT"));

    assert_eq!(EasternEuropeNonEuRegistry::supported_countries().len(), 10);
    assert_eq!(EasternEuropeNonEuRegistry::supported_countries()[8], ("XK", "Kosovo", "EUR"));
    assert!(EasternEuropeNonEuRegistry::has_flat_tax("GE"));
    assert!(!EasternEuropeNonEuRegistry::has_flat_tax("TR"));
    assert!(EasternEuropeNonEuRegistry::has_military_levy("UA"));
    assert!(!EasternEuropeNonEuRegistry::has_military_levy("RU"));
    assert!(EasternEuropeNonEuRegistry::uses_euro("XK"));
    assert!(!EasternEuropeNonEuRegistry::uses_euro("UA"));

    assert_eq!(DevelopedAsiaRegistry::supported_countries().len(), 5);
    assert!(DevelopedAsiaRegistry::has_progressive_tax("JP"));
    assert!(!DevelopedAsiaRegistry::has_progressive_tax("HK"));
    assert!(DevelopedAsiaRegistry::has_flat_tax_option("HK"));
    assert!(!DevelopedAsiaRegistry::has_flat_tax_option("SG"));
    assert!(DevelopedAsiaRegistry::uses_mandatory_pension("HK"));
    assert!(!DevelopedAsiaRegistry::uses_mandatory_pension("CN"));

    assert!(SouthernEuropeRegistry::uses_sepa("MT"));
    assert!(!SouthernEuropeRegistry::uses_sepa("FR"));
    assert!(!SouthernEuropeRegistry::has_special_regime("IT"));
    assert!(!AsiaPacificRegistry::has_mandatory_pension("VN"));
    assert!(!MiddleEastRegistry::requires_wps("KW"));
    assert!(!SouthAmericaRegistry::has_thirteenth_salary("VE"));
    assert_eq!(SouthernAfricaRegistry::supported_countries()[1], ("ZW", "Zimbabwe", "USD/ZWL"));
    assert_eq!(WestAfricaTaxRegistry::supported_countries()[2], ("CI", "Côte d'Ivoire", "XOF"));
    for (code, currency) in [("GH", "GHS"), ("GN", "GNF"), ("SL", "SLE"), ("LR", "LRD"), ("MR", "MRU"), ("GM", "GMD"), ("CV", "CVE"), ("SN", "XOF"), ("??", "XOF")] {
        assert_eq!(WestAfricaTaxRegistry::get_currency(code), currency);
    }
}

#[test]
fn developed_asia_test_registry() {
    let countries = DevelopedAsiaRegistry::supported_countries();
    assert_eq!(countries.len(), 5);
    assert_eq!(DevelopedAsiaRegistry::max_tax_rate("JP"), Rate::new(45, 0));
    assert!(DevelopedAsiaRegistry::has_flat_tax_option("HK"));
}

#[test]
fn europe_east_noneu_test_registry() {
    assert_eq!(EasternEuropeNonEuRegistry::supported_countries().len(), 10);
    assert!(EasternEuropeNonEuRegistry::has_flat_tax("UA"));
    assert!(EasternEuropeNonEuRegistry::has_military_levy("UA"));
    assert_eq!(EasternEuropeNonEuRegistry::flat_tax_rate("GE"), Some(Rate::new(20, 2)));
}

#[test]
fn tax_rates_by_country() {
    for (code, percent) in [("JP", 45), ("KR", 45), ("TW", 40), ("SG", 24), ("HK", 17)] {
        assert_eq!(DevelopedAsiaRegistry::max_tax_rate(code), Rate::new(percent, 0));
    }
    assert_eq!(DevelopedAsiaRegistry::max_tax_rate("CN"), Rate::zero());
    for (code, hundredths) in [("UA", 18), ("MD", 12), ("BY", 13), ("GE", 20), ("AM", 20), ("RU", 13), ("MK", 10)] {
        assert_eq!(EasternEuropeNonEuRegistry::flat_tax_rate(code), Some(Rate::new(hundredths, 2)));
        assert!(EasternEuropeNonEuRegistry::has_flat_tax(code));
    }
    for code in ["AZ", "TR", "XK", ""] {
        assert_eq!(EasternEuropeNonEuRegistry::flat_tax_rate(code), None);
        assert!(!EasternEuropeNonEuRegistry::has_flat_tax(code));
    }
    for (code, hundredths) in [("IN", 30), ("ID", 35), ("VN", 35), ("TH", 35), ("PH", 35), ("MY", 30), ("PK", 35), ("BD", 35)] {
        assert_eq!(AsiaPacificRegistry::max_tax_rate(code), Some(Rate::new(hundredths, 2)));
    }
    assert_eq!(AsiaPacificRegistry::max_tax_rate("JP"), None);
}
