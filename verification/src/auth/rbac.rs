//! Roles and the permissions they carry.

use vstd::prelude::*;

verus! {

/// The roles of users.
#[derive(Debug, Clone, Copy, PartialEq, Eq, Hash, Structural)]
pub enum Role {
    /// Administers the platform across tenants.
    SuperAdmin,
    /// Administers one company.
    TenantAdmin,
    /// Has the whole of HR.
    HrManager,
    /// Has part of HR.
    HrStaff,
    /// Sees a department.
    DepartmentHead,
    /// Sees a team.
    TeamLead,
    /// Serves themself.
    Employee,
}

/// What a user may be allowed to do.
#[derive(Debug, Clone, Copy, PartialEq, Eq, Hash, Structural)]
pub enum Permission {
    EmployeeView,
    EmployeeCreate,
    EmployeeUpdate,
    EmployeeDelete,
    PayrollView,
    PayrollProcess,
    PayrollApprove,
    LeaveRequest,
    LeaveApprove,
    LeaveAdmin,
    PerformanceView,
    PerformanceReview,
    PerformanceAdmin,
    RecruitmentView,
    RecruitmentManage,
    BenefitsEnroll,
    BenefitsAdmin,
    ComplianceView,
    ComplianceAdmin,
    SystemAdmin,
    ReportsView,
    ReportsExport,
}

/// Whether `role` carries `permission`.
pub open spec fn grants(role: Role, permission: Permission) -> bool {
    match role {
        Role::SuperAdmin => true,
        Role::TenantAdmin => permission != Permission::SystemAdmin,
        Role::HrManager => permission != Permission::SystemAdmin,
        Role::HrStaff => matches!(
            permission,
            Permission::EmployeeView | Permission::EmployeeCreate | Permission::EmployeeUpdate
                | Permission::PayrollView | Permission::LeaveRequest | Permission::LeaveApprove
                | Permission::PerformanceView | Permission::RecruitmentView
                | Permission::BenefitsEnroll | Permission::ReportsView
        ),
        Role::DepartmentHead => matches!(
            permission,
            Permission::EmployeeView | Permission::PayrollView | Permission::LeaveRequest
                | Permission::LeaveApprove | Permission::PerformanceView
                | Permission::PerformanceReview | Permission::ReportsView
        ),
        Role::TeamLead => matches!(
            permission,
            Permission::EmployeeView | Permission::LeaveRequest | Permission::LeaveApprove
                | Permission::PerformanceView | Permission::PerformanceReview
        ),
        Role::Employee => matches!(
            permission,
            Permission::EmployeeView | Permission::PayrollView | Permission::LeaveRequest
                | Permission::PerformanceView | Permission::BenefitsEnroll
        ),
    }
}

/// Every role carries what every role below it in the line of command
/// carries: a team lead what an employee may do about others, a department
/// head what a team lead may, and so on up to the administrator of the
/// platform.
pub proof fn lemma_roles_grow_upwards(permission: Permission)
    ensures
        grants(Role::TeamLead, permission) ==> grants(Role::DepartmentHead, permission),
        grants(Role::DepartmentHead, permission) ==> grants(Role::HrManager, permission),
        grants(Role::HrStaff, permission) ==> grants(Role::HrManager, permission),
        grants(Role::HrManager, permission) ==> grants(Role::TenantAdmin, permission),
        grants(Role::TenantAdmin, permission) ==> grants(Role::SuperAdmin, permission),
        grants(Role::Employee, permission) ==> grants(Role::HrManager, permission),
{
}

/// A set of permissions.
#[derive(Debug, Clone)]
pub struct PermissionSet {
    items: Vec<Permission>,
}

impl View for PermissionSet {
    type V = Set<Permission>;

    closed spec fn view(&self) -> Set<Permission> {
        self.items@.to_set()
    }
}

impl PermissionSet {
    /// The empty set.
    pub fn new() -> (s: PermissionSet)
        ensures
            s@ == Set::<Permission>::empty(),
    {
        let s = PermissionSet { items: Vec::new() };
        assert(s@ =~= Set::<Permission>::empty());
        s
    }

    /// Whether the set holds `permission`.
    pub fn contains(&self, permission: &Permission) -> (b: bool)
        ensures
            b == self@.contains(*permission),
    {
        let n: usize = self.items.len();
        let mut i: usize = 0;
        while i < n
            invariant
                n == self.items@.len(),
                i <= n,
                forall|k: int| 0 <= k < i ==> self.items@[k] != *permission,
            decreases n - i,
        {
            if self.items[i] == *permission {
                assert(self.items@.contains(*permission));
                return true;
            }
            i += 1;
        }
        false
    }

    /// Adds `permission` to the set.
    pub fn insert(&mut self, permission: Permission)
        ensures
            final(self)@ == old(self)@.insert(permission),
    {
        let ghost before = self.items@;
        if !self.contains(&permission) {
            self.items.push(permission);
        }
        proof {
            assert forall|p: Permission| self.items@.contains(p) <==> before.contains(p) || p
                == permission by {
                if before.contains(p) {
                    let k = choose|k: int| 0 <= k < before.len() && before[k] == p;
                    assert(self.items@[k] == p);
                }
                if self.items@.contains(p) && p != permission {
                    let k = choose|k: int| 0 <= k < self.items@.len() && self.items@[k] == p;
                    assert(before[k] == p);
                }
                if p == permission {
                    if !before.contains(p) {
                        assert(self.items@[before.len() as int] == p);
                    }
                }
            }
            assert(self@ =~= old(self)@.insert(permission));
        }
    }

    /// The number of permissions in the set.
    pub fn len(&self) -> (n: usize)
        ensures
            n >= self@.len(),
    {
        proof {
            self.items@.lemma_cardinality_of_set();
        }
        self.items.len()
    }
}

/// The list of every permission.
pub open spec fn every_permission() -> Seq<Permission> {
    seq![
        Permission::EmployeeView,
        Permission::EmployeeCreate,
        Permission::EmployeeUpdate,
        Permission::EmployeeDelete,
        Permission::PayrollView,
        Permission::PayrollProcess,
        Permission::PayrollApprove,
        Permission::LeaveRequest,
        Permission::LeaveApprove,
        Permission::LeaveAdmin,
        Permission::PerformanceView,
        Permission::PerformanceReview,
        Permission::PerformanceAdmin,
        Permission::RecruitmentView,
        Permission::RecruitmentManage,
        Permission::BenefitsEnroll,
        Permission::BenefitsAdmin,
        Permission::ComplianceView,
        Permission::ComplianceAdmin,
        Permission::SystemAdmin,
        Permission::ReportsView,
        Permission::ReportsExport,
    ]
}

/// The list of every permission leaves none out.
pub proof fn lemma_every_permission_is_listed(permission: Permission)
    ensures
        every_permission().contains(permission),
{
    let list = every_permission();
    match permission {
        Permission::EmployeeView => assert(list[0] == permission),
        Permission::EmployeeCreate => assert(list[1] == permission),
        Permission::EmployeeUpdate => assert(list[2] == permission),
        Permission::EmployeeDelete => assert(list[3] == permission),
        Permission::PayrollView => assert(list[4] == permission),
        Permission::PayrollProcess => assert(list[5] == permission),
        Permission::PayrollApprove => assert(list[6] == permission),
        Permission::LeaveRequest => assert(list[7] == permission),
        Permission::LeaveApprove => assert(list[8] == permission),
        Permission::LeaveAdmin => assert(list[9] == permission),
        Permission::PerformanceView => assert(list[10] == permission),
        Permission::PerformanceReview => assert(list[11] == permission),
        Permission::PerformanceAdmin => assert(list[12] == permission),
        Permission::RecruitmentView => assert(list[13] == permission),
        Permission::RecruitmentManage => assert(list[14] == permission),
        Permission::BenefitsEnroll => assert(list[15] == permission),
        Permission::BenefitsAdmin => assert(list[16] == permission),
        Permission::ComplianceView => assert(list[17] == permission),
        Permission::ComplianceAdmin => assert(list[18] == permission),
        Permission::SystemAdmin => assert(list[19] == permission),
        Permission::ReportsView => assert(list[20] == permission),
        Permission::ReportsExport => assert(list[21] == permission),
    }
}

/// The permissions of a role.
pub open spec fn permissions_of(role: Role) -> Set<Permission> {
    Set::new(|p: Permission| grants(role, p))
}

/// The permissions of `list` that `role` carries.
fn granted_among(role: Role, list: &[Permission]) -> (s: PermissionSet)
    ensures
        forall|p: Permission| #[trigger] s@.contains(p) <==> list@.contains(p) && grants(role, p),
{
    let mut s = PermissionSet::new();
    let n: usize = list.len();
    let mut i: usize = 0;
    while i < n
        invariant
            n == list@.len(),
            i <= n,
            forall|p: Permission| #[trigger]
                s@.contains(p) <==> (exists|k: int| 0 <= k < i && list@[k] == p) && grants(
                    role,
                    p,
                ),
        decreases n - i,
    {
        let ghost before = s@;
        let item = list[i];
        let granted = role_grants(role, item);
        if granted {
            s.insert(item);
        }
        proof {
            assert forall|p: Permission| #[trigger]
                s@.contains(p) <==> (exists|k: int| 0 <= k < i + 1 && list@[k] == p) && grants(
                    role,
                    p,
                ) by {
                if s@.contains(p) {
                    if before.contains(p) {
                        let k = choose|k: int| 0 <= k < i && list@[k] == p;
                        assert(0 <= k < i + 1 && list@[k] == p);
                    } else {
                        assert(p == item);
                        assert(0 <= i < i + 1 && list@[i as int] == p);
                    }
                }
                if (exists|k: int| 0 <= k < i + 1 && list@[k] == p) && grants(role, p) {
                    let k = choose|k: int| 0 <= k < i + 1 && list@[k] == p;
                    if k < i {
                        assert(before.contains(p));
                    } else {
                        assert(p == item);
                    }
                }
            }
        }
        i += 1;
    }
    proof {
        assert forall|p: Permission| #[trigger]
            s@.contains(p) <==> list@.contains(p) && grants(role, p) by {
            if s@.contains(p) {
                let k = choose|k: int| 0 <= k < n && list@[k] == p;
                assert(list@[k] == p);
            }
            if list@.contains(p) {
                let k = choose|k: int| 0 <= k < list@.len() && list@[k] == p;
                assert(0 <= k < n && list@[k] == p);
            }
        }
    }
    s
}

/// Whether `role` carries `permission`.
fn role_grants(role: Role, permission: Permission) -> (b: bool)
    ensures
        b == grants(role, permission),
{
    match role {
        Role::SuperAdmin => true,
        Role::TenantAdmin => permission != Permission::SystemAdmin,
        Role::HrManager => permission != Permission::SystemAdmin,
        Role::HrStaff => match permission {
            Permission::EmployeeView => true,
            Permission::EmployeeCreate => true,
            Permission::EmployeeUpdate => true,
            Permission::PayrollView => true,
            Permission::LeaveRequest => true,
            Permission::LeaveApprove => true,
            Permission::PerformanceView => true,
            Permission::RecruitmentView => true,
            Permission::BenefitsEnroll => true,
            Permission::ReportsView => true,
            _ => false,
        },
        Role::DepartmentHead => match permission {
            Permission::EmployeeView => true,
            Permission::PayrollView => true,
            Permission::LeaveRequest => true,
            Permission::LeaveApprove => true,
            Permission::PerformanceView => true,
            Permission::PerformanceReview => true,
            Permission::ReportsView => true,
            _ => false,
        },
        Role::TeamLead => match permission {
            Permission::EmployeeView => true,
            Permission::LeaveRequest => true,
            Permission::LeaveApprove => true,
            Permission::PerformanceView => true,
            Permission::PerformanceReview => true,
            _ => false,
        },
        Role::Employee => match permission {
            Permission::EmployeeView => true,
            Permission::PayrollView => true,
            Permission::LeaveRequest => true,
            Permission::PerformanceView => true,
            Permission::BenefitsEnroll => true,
            _ => false,
        },
    }
}

/// The list of every permission.
fn permission_list() -> (list: [Permission; 22])
    ensures
        list@ == every_permission(),
{
    let list = [
        Permission::EmployeeView,
        Permission::EmployeeCreate,
        Permission::EmployeeUpdate,
        Permission::EmployeeDelete,
        Permission::PayrollView,
        Permission::PayrollProcess,
        Permission::PayrollApprove,
        Permission::LeaveRequest,
        Permission::LeaveApprove,
        Permission::LeaveAdmin,
        Permission::PerformanceView,
        Permission::PerformanceReview,
        Permission::PerformanceAdmin,
        Permission::RecruitmentView,
        Permission::RecruitmentManage,
        Permission::BenefitsEnroll,
        Permission::BenefitsAdmin,
        Permission::ComplianceView,
        Permission::ComplianceAdmin,
        Permission::SystemAdmin,
        Permission::ReportsView,
        Permission::ReportsExport,
    ];
    assert(list@ =~= every_permission());
    list
}

impl Role {
    /// The permissions the role carries.
    pub fn permissions(&self) -> (s: PermissionSet)
        ensures
            s@ == permissions_of(*self),
    {
        let list = permission_list();
        let s = granted_among(*self, &list);
        proof {
            assert forall|p: Permission| s@.contains(p) <==> grants(*self, p) by {
                lemma_every_permission_is_listed(p);
            }
            assert(s@ =~= permissions_of(*self));
        }
        s
    }
}

impl Permission {
    /// The set of every permission.
    pub fn all() -> (s: PermissionSet)
        ensures
            s@ == Set::<Permission>::full(),
            s@ == permissions_of(Role::SuperAdmin),
    {
        let s = Role::SuperAdmin.permissions();
        assert(s@ =~= Set::<Permission>::full());
        s
    }
}

/// Whether `role` carries `permission`.
pub fn has_permission(role: Role, permission: Permission) -> (b: bool)
    ensures
        b == grants(role, permission),
{
    role.permissions().contains(&permission)
}

/// Who is asking, and with what rights. Users, tenants, employees and
/// departments are known by the numbers of their identifiers.
#[derive(Debug, Clone)]
pub struct AuthContext {
    pub user_id: u128,
    pub tenant_id: u128,
    pub employee_id: Option<u128>,
    pub role: Role,
    pub permissions: PermissionSet,
    pub department_id: Option<u128>,
}

impl AuthContext {
    /// Whether the user may see the record of `employee_id`: administrators
    /// and the staff of HR may see every record, everybody else their own.
    pub open spec fn may_access(&self, employee_id: u128) -> bool {
        self.role == Role::SuperAdmin || self.role == Role::TenantAdmin || self.role
            == Role::HrManager || self.role == Role::HrStaff || self.employee_id == Some(
            employee_id,
        )
    }

    /// Whether the context holds `permission`. What counts is the set of
    /// the context, not what its role would carry.
    pub fn has_permission(&self, permission: Permission) -> (b: bool)
        ensures
            b == self.permissions@.contains(permission),
    {
        self.permissions.contains(&permission)
    }

    /// Whether the user may see the record of `employee_id`.
    pub fn can_access_employee(&self, employee_id: u128) -> (b: bool)
        ensures
            b == self.may_access(employee_id),
    {
        match self.role {
            Role::SuperAdmin => true,
            Role::TenantAdmin => true,
            Role::HrManager => true,
            Role::HrStaff => true,
            _ => match self.employee_id {
                Some(own) => own == employee_id,
                None => false,
            },
        }
    }
}

} // verus!
