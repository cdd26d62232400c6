use opensase_hr::auth::rbac::{has_permission, AuthContext, Permission, PermissionSet, Role};
use opensase_hr::domain::value_objects::{EmployeeId, TaxId, TaxIdError, TaxIdType};
use opensase_hr::leave::models::StandardLeaveType;

#[test]
fn test_role_permissions() {
    let hr_manager = Role::HrManager;
    assert!(has_permission(hr_manager, Permission::PayrollProcess));
    assert!(has_permission(hr_manager, Permission::LeaveApprove));
    assert!(!has_permission(hr_manager, Permission::SystemAdmin));

    let employee = Role::Employee;
    assert!(has_permission(employee, Permission::LeaveRequest));
    assert!(!has_permission(employee, Permission::PayrollProcess));
}

#[test]
fn test_employee_id_format() {
    let id = EmployeeId::new(2024, 123);
    assert_eq!(id.to_string(), "EMP-2024-00123");
}

#[test]
fn test_ssn_validation() {
    let ssn = TaxId::new_ssn("123-45-6789").unwrap();
    assert_eq!(ssn.masked(), "***-**-6789");
}

#[test]
fn permission_sets_by_role() {
    let all = Permission::all();
    assert_eq!(all.len(), 22);
    assert!(all.contains(&Permission::SystemAdmin));
    assert_eq!(Role::SuperAdmin.permissions().len(), 22);
    let tenant = Role::TenantAdmin.permissions();
    assert_eq!(tenant.len(), 21);
    assert!(!tenant.contains(&Permission::SystemAdmin));
    assert!(tenant.contains(&Permission::ReportsExport));
    assert_eq!(Role::HrManager.permissions().len(), 21);
    assert_eq!(Role::HrStaff.permissions().len(), 10);
    assert_eq!(Role::DepartmentHead.permissions().len(), 7);
    assert_eq!(Role::TeamLead.permissions().len(), 5);
    assert_eq!(Role::Employee.permissions().len(), 5);
    assert!(has_permission(Role::HrStaff, Permission::EmployeeUpdate));
    assert!(!has_permission(Role::HrStaff, Permission::EmployeeDelete));
    assert!(has_permission(Role::DepartmentHead, Permission::ReportsView));
    assert!(!has_permission(Role::TeamLead, Permission::PayrollView));
    assert!(has_permission(Role::Employee, Permission::BenefitsEnroll));
    assert!(!has_permission(Role::Employee, Permission::LeaveApprove));

    let mut set = PermissionSet::new();
    assert!(!set.contains(&Permission::LeaveAdmin));
    set.insert(Permission::LeaveAdmin);
    set.insert(Permission::LeaveAdmin);
    assert!(set.contains(&Permission::LeaveAdmin));
    assert_eq!(set.len(), 1);
}

#[test]
fn employee_ids() {
    let id = EmployeeId::new(2024, 123);
    assert_eq!(id.year(), 2024);
    assert_eq!(id.sequence(), 123);
    assert_eq!(EmployeeId::new(7, 0).to_string(), "EMP-7-00000");
    assert_eq!(EmployeeId::new(65535, 99999).to_string(), "EMP-65535-99999");
    assert_eq!(EmployeeId::new(1999, 100000).to_string(), "EMP-1999-100000");
    assert_eq!(EmployeeId::new(2024, u32::MAX).to_string(), "EMP-2024-4294967295");
    assert_eq!(EmployeeId::new(2024, 5), EmployeeId::new(2024, 5));

    assert_eq!(EmployeeId::generate_in(Some(2031), 9).to_string(), "EMP-2031-00009");
    assert_eq!(EmployeeId::generate_in(Some(0), 9).year(), 0);
    assert_eq!(EmployeeId::generate_in(Some(65535), 9).year(), 65535);
    assert_eq!(EmployeeId::generate_in(Some(65536), 9).year(), 2024);
    assert_eq!(EmployeeId::generate_in(Some(-1), 9).year(), 2024);
    assert_eq!(EmployeeId::generate_in(None, 9).year(), 2024);

    let now = EmployeeId::generate(42);
    assert_eq!(now.sequence(), 42);
    let year: u16 = chrono::Utc::now().format("%Y").to_string().parse().unwrap();
    assert!(now.year() == year || now.year() == year + 1);
    assert_eq!(EmployeeId::default().sequence(), 0);
}

#[test]
fn tax_ids() {
    let ssn = TaxId::new_ssn("123-45-6789").unwrap();
    assert_eq!(*ssn.id_type(), TaxIdType::SSN);
    assert_eq!(ssn.to_string(), "***-**-6789");
    assert_eq!(ssn.clone(), ssn);
    assert_eq!(TaxId::new_ssn(" 123 45 6789 x").unwrap(), ssn);
    assert_eq!(TaxId::new_ssn("12345678").unwrap_err(), TaxIdError::Invalid);
    assert_eq!(TaxId::new_ssn("1234567890").unwrap_err(), TaxIdError::Invalid);
    assert_eq!(TaxId::new_ssn("").unwrap_err(), TaxIdError::Invalid);
    assert_eq!(TaxId::new_ssn("١٢٣٤٥٦٧٨٩").unwrap_err(), TaxIdError::Invalid);
    assert_eq!(TaxIdError::Invalid.to_string(), "Invalid tax ID");

    let ein = TaxId::new_ein("12-3456789").unwrap();
    assert_eq!(*ein.id_type(), TaxIdType::EIN);
    assert_eq!(ein.masked(), "***-**-6789");
    assert_eq!(TaxId::new_ein("12-34").unwrap().masked(), "***-**-****");
    assert_eq!(TaxId::new_ein("12-345").unwrap().masked(), "***-**-2345");
    assert_eq!(TaxId::new_ein("no digits").unwrap().masked(), "***-**-****");

    assert_eq!(TaxId::normalize("a1b2-3"), "123");
    assert!(TaxId::validate_ssn("123456789"));
    assert!(!TaxId::validate_ssn("12345678a"));
    assert!(!TaxId::validate_ssn("123-45-6789"));
}

#[test]
fn leave_types() {
    let days: Vec<i32> = [
        StandardLeaveType::Annual,
        StandardLeaveType::Sick,
        StandardLeaveType::Maternity,
        StandardLeaveType::Paternity,
        StandardLeaveType::Compassionate,
        StandardLeaveType::Study,
        StandardLeaveType::LeaveWithoutPay,
    ]
    .iter()
    .map(|t| t.default_days())
    .collect();
    assert_eq!(days, vec![21, 12, 84, 10, 5, 20, 30]);
    assert!(StandardLeaveType::Annual.is_paid());
    assert!(StandardLeaveType::Maternity.is_paid());
    assert!(!StandardLeaveType::Study.is_paid());
    assert!(!StandardLeaveType::LeaveWithoutPay.is_paid());
    assert_eq!(StandardLeaveType::Annual.code(), "annual");
    assert_eq!(StandardLeaveType::LeaveWithoutPay.code(), "lwop");
    assert_eq!(StandardLeaveType::Compassionate.code(), "compassionate");
}

#[test]
fn test_auth_context() {
    let ctx = AuthContext {
        user_id: uuid::Uuid::new_v4().as_u128(),
        tenant_id: uuid::Uuid::new_v4().as_u128(),
        employee_id: Some(uuid::Uuid::new_v4().as_u128()),
        role: Role::Employee,
        permissions: Role::Employee.permissions(),
        department_id: None,
    };

    assert!(ctx.has_permission(Permission::LeaveRequest));
    assert!(!ctx.has_permission(Permission::PayrollApprove));
    assert!(ctx.can_access_employee(ctx.employee_id.unwrap()));
}

#[test]
fn access_to_employee_records() {
    let context = |role: Role, employee_id: Option<u128>| AuthContext {
        user_id: 1,
        tenant_id: 2,
        employee_id,
        role,
        permissions: PermissionSet::new(),
        department_id: Some(3),
    };
    for role in [Role::SuperAdmin, Role::TenantAdmin, Role::HrManager, Role::HrStaff] {
        assert!(context(role, None).can_access_employee(7));
        assert!(context(role, Some(8)).can_access_employee(7));
    }
    for role in [Role::DepartmentHead, Role::TeamLead, Role::Employee] {
        assert!(context(role, Some(7)).can_access_employee(7));
        assert!(!context(role, Some(8)).can_access_employee(7));
        assert!(!context(role, None).can_access_employee(7));
    }
    // The set of the context decides, not the role.
    assert!(!context(Role::SuperAdmin, None).has_permission(Permission::EmployeeView));
}
