use opensase_hr::api::{employee_number, inclusive_days, page_window, ApiResponse, PageWindow};

#[test]
fn response_envelopes() {
    let ok: ApiResponse<u32> = ApiResponse::success(7);
    assert!(ok.success);
    assert_eq!(ok.data, Some(7));
    assert_eq!(ok.error, None);
    let failed: ApiResponse<u32> = ApiResponse::error("Payroll run 9 not found");
    assert!(!failed.success);
    assert_eq!(failed.data, None);
    assert_eq!(failed.error.as_deref(), Some("Payroll run 9 not found"));
}

#[test]
fn page_windows() {
    assert_eq!(page_window(None, None), PageWindow { page: 1, limit: 20, offset: 0 });
    assert_eq!(page_window(Some(0), Some(0)), PageWindow { page: 1, limit: 0, offset: 0 });
    assert_eq!(page_window(Some(3), Some(25)), PageWindow { page: 3, limit: 25, offset: 50 });
    assert_eq!(page_window(Some(2), Some(100)), PageWindow { page: 2, limit: 100, offset: 100 });
    assert_eq!(page_window(Some(2), Some(101)), PageWindow { page: 2, limit: 100, offset: 100 });
    assert_eq!(
        page_window(Some(u32::MAX), Some(u32::MAX)),
        PageWindow { page: u32::MAX, limit: 100, offset: (u32::MAX as i64 - 1) * 100 }
    );
}

#[test]
fn employee_numbers_have_six_digits() {
    assert_eq!(employee_number(0), "EMP-000000");
    assert_eq!(employee_number(42), "EMP-000042");
    assert_eq!(employee_number(999_999), "EMP-999999");
    assert_eq!(employee_number(1_000_000), "EMP-000000");
    assert_eq!(employee_number(u32::MAX), "EMP-967295");
}

#[test]
fn leave_counts_both_ends() {
    assert_eq!(inclusive_days(0), Some(1));
    assert_eq!(inclusive_days(4), Some(5));
    assert_eq!(inclusive_days(-1), Some(0));
    assert_eq!(inclusive_days(-3), Some(-2));
    assert_eq!(inclusive_days(i32::MAX as i64 - 1), Some(i32::MAX));
    assert_eq!(inclusive_days(i32::MAX as i64), None);
    assert_eq!(inclusive_days(i32::MIN as i64 - 1), Some(i32::MIN));
    assert_eq!(inclusive_days(i32::MIN as i64 - 2), None);
    assert_eq!(inclusive_days(i64::MAX), None);
}
