//! The identifier of an employee, such as `EMP-2024-00001`.

use vstd::prelude::*;
use crate::clock::{calendar_year, utc_now, year_of, Timestamp};
use crate::text::{decimal, u64_to_padded_string, u64_to_string, zero_padded};

verus! {

/// The year an identifier gets where the clock gives none that fits.
pub const FALLBACK_YEAR: u16 = 2024;

/// The identifier of an employee: a prefix, the year of issue and a number
/// that runs within the year.
#[derive(Clone, Debug, PartialEq, Eq, Hash)]
pub struct EmployeeId {
    prefix: String,
    year: u16,
    sequence: u32,
}

/// The year of issue for a reading of the calendar: the year itself where
/// it is one of the years 0 to 65535, and 2024 otherwise.
pub open spec fn issue_year(reading: Option<i32>) -> u16 {
    match reading {
        Some(y) => if 0 <= y <= u16::MAX {
            y as u16
        } else {
            FALLBACK_YEAR
        },
        None => FALLBACK_YEAR,
    }
}

/// The text of an identifier: the prefix, the year and the number with at
/// least five digits, joined by hyphens.
pub open spec fn id_text(prefix: Seq<char>, year: u16, sequence: u32) -> Seq<char> {
    prefix + seq!['-'] + decimal(year as nat) + seq!['-'] + zero_padded(
        decimal(sequence as nat),
        5,
    )
}

impl EmployeeId {
    /// The prefix of the identifier.
    pub closed spec fn prefix(&self) -> Seq<char> {
        self.prefix@
    }

    /// The year of issue.
    pub closed spec fn spec_year(&self) -> u16 {
        self.year
    }

    /// The number within the year.
    pub closed spec fn spec_sequence(&self) -> u32 {
        self.sequence
    }

    /// The identifier `EMP`, `year`, `sequence`.
    pub fn new(year: u16, sequence: u32) -> (id: EmployeeId)
        ensures
            id.prefix() == "EMP"@,
            id.year() == year,
            id.sequence() == sequence,
    {
        EmployeeId { prefix: "EMP".to_owned(), year, sequence }
    }

    /// The identifier with the number `sequence`, issued in the year that
    /// a reading of the calendar gave.
    pub fn generate_in(reading: Option<i32>, sequence: u32) -> (id: EmployeeId)
        ensures
            id.prefix() == "EMP"@,
            id.year() == issue_year(reading),
            id.sequence() == sequence,
    {
        let year: u16 = match reading {
            Some(y) => if 0 <= y && y <= 65535 {
                y as u16
            } else {
                FALLBACK_YEAR
            },
            None => FALLBACK_YEAR,
        };
        EmployeeId::new(year, sequence)
    }

    /// The identifier with the number `sequence`, issued in the current
    /// year: the outcome is that of [`Self::generate_in`] for the year of the
    /// instant the clock gave.
    pub fn generate(sequence: u32) -> (id: EmployeeId)
        ensures
            id.prefix() == "EMP"@,
            id.sequence() == sequence,
            exists|at: Timestamp| id.year() == issue_year(#[trigger] calendar_year(at.secs, at.nanos)),
    {
        let at = utc_now();
        let id = EmployeeId::generate_in(year_of(at), sequence);
        assert(id.year() == issue_year(calendar_year(at.secs, at.nanos)));
        id
    }

    /// The year of issue.
    #[verifier::when_used_as_spec(spec_year)]
    pub fn year(&self) -> (y: u16)
        ensures
            y == self.spec_year(),
    {
        self.year
    }

    /// The number within the year.
    #[verifier::when_used_as_spec(spec_sequence)]
    pub fn sequence(&self) -> (n: u32)
        ensures
            n == self.spec_sequence(),
    {
        self.sequence
    }

    /// The identifier as text, such as `EMP-2024-00123`.
    pub fn to_string(&self) -> (s: String)
        ensures
            s@ == id_text(self.prefix(), self.year(), self.sequence()),
    {
        proof {
            reveal_strlit("-");
        }
        let mut s = self.prefix.clone();
        s.append("-");
        s.append(u64_to_string(self.year as u64).as_str());
        s.append("-");
        s.append(u64_to_padded_string(self.sequence as u64, 5).as_str());
        assert(s@ =~= id_text(self.prefix(), self.year(), self.sequence()));
        s
    }
}

impl Default for EmployeeId {
    fn default() -> (id: EmployeeId)
        ensures
            id.prefix() == "EMP"@,
            id.sequence() == 0,
    {
        EmployeeId::generate(0)
    }
}

} // verus!
