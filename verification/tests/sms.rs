use opensase_hr::sms::{SmsTemplateRegistry, UssdRegistry};
use opensase_hr::text::{
    keep_digits, str_contains, str_replace, str_starts_with, str_trim_end, u64_to_padded_string,
    u64_to_string,
};

#[test]
fn test_ussd_registry() {
    let registry = UssdRegistry::new();

    // Nigeria codes should exist
    let ng_codes = registry.get_codes("NG").unwrap();
    assert_eq!(ng_codes.check_balance, "*400#");

    // Build attendance USSD
    let ussd = registry.build_attendance_ussd("NG", "EMP001").unwrap();
    assert!(ussd.contains("EMP001"));

    // Build leave request USSD
    let leave_ussd =
        registry.build_leave_request_ussd("GH", "EMP002", 1, "20240201", "20240205").unwrap();
    assert!(leave_ussd.contains("EMP002"));
}

#[test]
fn test_sms_templates() {
    let registry = SmsTemplateRegistry::new();

    // English payslip SMS
    let sms = registry.format_payslip_sms("en", "Jan 2024", "₦", "500,000", "*400*3#");
    assert!(sms.contains("Jan 2024"));
    assert!(sms.contains("₦500,000"));

    // French leave approval
    let sms = registry.format_leave_approved_sms("fr", "Annuel", "01/02/2024", "05/02/2024");
    assert!(sms.contains("APPROUVÉ"));

    // Fallback to English
    let sms = registry.format_payslip_sms("unknown", "Jan 2024", "₦", "500,000", "*400*3#");
    assert!(sms.contains("OpenSASE"));
}

#[test]
fn ussd_codes_are_built_exactly() {
    let registry = UssdRegistry::default();
    assert_eq!(registry.build_attendance_ussd("NG", "EMP001").unwrap(), "*400*1*EMP001");
    assert_eq!(registry.build_attendance_ussd("SN", "").unwrap(), "*404*1*");
    assert_eq!(
        registry.build_leave_request_ussd("GH", "EMP002", 1, "20240201", "20240205").unwrap(),
        "*402*2*EMP002*1*20240201*20240205#"
    );
    assert_eq!(
        registry.build_leave_request_ussd("KE", "E", 255, "a", "b").unwrap(),
        "*401*2*E*255*a*b#"
    );
    assert_eq!(registry.build_leave_request_ussd("CI", "E", 0, "", "").unwrap(), "*403*2*E*0**#");
    assert!(registry.build_attendance_ussd("ZA", "EMP001").is_none());
    assert!(registry.build_leave_request_ussd("ng", "EMP001", 1, "a", "b").is_none());
    assert!(registry.get_codes("FR").is_none());
    let ke = registry.get_codes("KE").unwrap();
    assert_eq!(ke.check_attendance, "*401*1#");
    assert_eq!(ke.request_leave, "*401*2#");
    assert_eq!(ke.view_payslip, "*401*3#");
    assert_eq!(ke.emergency_contact, "*401*9#");
}

#[test]
fn messages_are_filled_in_exactly() {
    let registry = SmsTemplateRegistry::default();
    assert_eq!(
        registry.format_payslip_sms("en", "Jan 2024", "₦", "500,000", "*400*3#"),
        "OpenSASE: Your payslip for Jan 2024 is ready. Net: ₦500,000. View in app or dial *400*3#"
    );
    assert_eq!(
        registry.format_payslip_sms("xx", "Jan 2024", "₦", "500,000", "*400*3#"),
        registry.format_payslip_sms("en", "Jan 2024", "₦", "500,000", "*400*3#")
    );
    assert_eq!(
        registry.format_leave_approved_sms("fr", "Annuel", "01/02/2024", "05/02/2024"),
        "OpenSASE: Votre congé Annuel du 01/02/2024 au 05/02/2024 a été APPROUVÉ."
    );
    assert_eq!(
        registry.format_salary_credit_sms("sw", "KSh", "10", "Feb"),
        "OpenSASE: Mshahara wa KSh10 umewekwa kwa Feb."
    );
    // What was filled in is searched again by the later replacements.
    assert_eq!(
        registry.format_salary_credit_sms("en", "{amount}", "7", "{period}"),
        "OpenSASE: Salary of 77 credited for {period}."
    );
    assert_eq!(registry.get_templates("ha").attendance_reminder, "OpenSASE: Tunatarwa don shiga aiki. Danna {ussd}.");
    assert_eq!(registry.get_templates("yo").leave_rejected, "OpenSASE: A ko ibeere isinmi. Idi: {reason}");
    assert_eq!(registry.get_templates("de").salary_credit, registry.get_templates("en").salary_credit);
}

#[test]
fn text_helpers_agree_with_the_standard_library() {
    let samples = ["", "a", "aaa", "abcabc", "{x}{x}", "xx{x", "ab#c##", "###", "₦5₦", "0700123", "+254 7-12"];
    let patterns = ["a", "aa", "abc", "{x}", "#", "₦", "x{", "07"];
    for s in samples {
        for p in patterns {
            assert_eq!(str_contains(s, p), s.contains(p), "contains {:?} {:?}", s, p);
            assert_eq!(str_starts_with(s, p), s.starts_with(p), "starts_with {:?} {:?}", s, p);
            for to in ["", "Z", "aa", "{x}"] {
                assert_eq!(str_replace(s, p, to), s.replace(p, to), "replace {:?} {:?} {:?}", s, p, to);
            }
        }
        assert!(str_contains(s, ""));
        assert!(str_starts_with(s, ""));
        assert_eq!(str_trim_end(s, '#'), s.trim_end_matches('#'));
        assert_eq!(str_trim_end(s, 'c'), s.trim_end_matches('c'));
        let digits: String = s.chars().filter(|c| c.is_ascii_digit()).collect();
        assert_eq!(keep_digits(s), digits);
    }
    for n in [0u64, 1, 9, 10, 99, 100, 12345, 99999, 100000, u64::MAX] {
        assert_eq!(u64_to_string(n), format!("{}", n));
        assert_eq!(u64_to_padded_string(n, 5), format!("{:05}", n));
        assert_eq!(u64_to_padded_string(n, 0), format!("{}", n));
    }
}
