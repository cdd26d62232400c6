//! The kinds of leave and what each of them grants by default.

use vstd::prelude::*;

verus! {

/// The kinds of leave that Nigerian practice knows.
#[derive(Debug, Clone, Copy, PartialEq, Eq, Structural)]
pub enum StandardLeaveType {
    Annual,
    Sick,
    Maternity,
    Paternity,
    Compassionate,
    Study,
    LeaveWithoutPay,
}

impl StandardLeaveType {
    /// The days a year that the kind of leave grants by default.
    pub open spec fn spec_default_days(&self) -> i32 {
        match self {
            StandardLeaveType::Annual => 21,
            StandardLeaveType::Sick => 12,
            StandardLeaveType::Maternity => 84,
            StandardLeaveType::Paternity => 10,
            StandardLeaveType::Compassionate => 5,
            StandardLeaveType::Study => 20,
            StandardLeaveType::LeaveWithoutPay => 30,
        }
    }

    /// The days a year that the kind of leave grants by default; maternity
    /// leave is twelve weeks.
    #[verifier::when_used_as_spec(spec_default_days)]
    pub fn default_days(&self) -> (days: i32)
        ensures
            days == self.spec_default_days(),
    {
        match self {
            StandardLeaveType::Annual => 21,
            StandardLeaveType::Sick => 12,
            StandardLeaveType::Maternity => 84,
            StandardLeaveType::Paternity => 10,
            StandardLeaveType::Compassionate => 5,
            StandardLeaveType::Study => 20,
            StandardLeaveType::LeaveWithoutPay => 30,
        }
    }

    /// Whether the kind of leave is paid.
    pub open spec fn spec_is_paid(&self) -> bool {
        *self != StandardLeaveType::Study && *self != StandardLeaveType::LeaveWithoutPay
    }

    /// Whether the kind of leave is paid: all are but study leave and leave
    /// without pay.
    #[verifier::when_used_as_spec(spec_is_paid)]
    pub fn is_paid(&self) -> (b: bool)
        ensures
            b == self.spec_is_paid(),
    {
        match self {
            StandardLeaveType::Study => false,
            StandardLeaveType::LeaveWithoutPay => false,
            _ => true,
        }
    }

    /// The short name of the kind of leave.
    pub open spec fn spec_code(&self) -> &'static str {
        match self {
            StandardLeaveType::Annual => "annual",
            StandardLeaveType::Sick => "sick",
            StandardLeaveType::Maternity => "maternity",
            StandardLeaveType::Paternity => "paternity",
            StandardLeaveType::Compassionate => "compassionate",
            StandardLeaveType::Study => "study",
            StandardLeaveType::LeaveWithoutPay => "lwop",
        }
    }

    /// The short name of the kind of leave.
    #[verifier::when_used_as_spec(spec_code)]
    pub fn code(&self) -> (c: &'static str)
        ensures
            c == self.spec_code(),
    {
        match self {
            StandardLeaveType::Annual => "annual",
            StandardLeaveType::Sick => "sick",
            StandardLeaveType::Maternity => "maternity",
            StandardLeaveType::Paternity => "paternity",
            StandardLeaveType::Compassionate => "compassionate",
            StandardLeaveType::Study => "study",
            StandardLeaveType::LeaveWithoutPay => "lwop",
        }
    }
}

/// Where a request for leave stands.
#[derive(Debug, Clone, Copy, PartialEq, Eq, Structural)]
pub enum LeaveRequestStatus {
    Pending,
    Approved,
    Rejected,
    Cancelled,
}

} // verus!
