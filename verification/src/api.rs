//! What the HTTP interface computes before it reads and after it writes:
//! the envelope of an answer, the window of a page and the numbers that
//! are made up for new records.

use vstd::prelude::*;
use crate::text::{decimal, u64_to_padded_string, zero_padded};

verus! {

/// The envelope of an answer: the data of a success, or the message of a
/// failure.
#[derive(Debug)]
pub struct ApiResponse<T> {
    pub success: bool,
    pub data: Option<T>,
    pub error: Option<String>,
}

impl<T> ApiResponse<T> {
    /// The answer that carries `data`.
    pub fn success(data: T) -> (r: ApiResponse<T>)
        ensures
            r.success,
            r.data == Some(data),
            r.error is None,
    {
        ApiResponse { success: true, data: Some(data), error: None }
    }

    /// The answer that carries the message of a failure.
    pub fn error(message: &str) -> (r: ApiResponse<T>)
        ensures
            !r.success,
            r.data is None,
            r.error is Some,
            r.error->0@ == message@,
    {
        ApiResponse { success: false, data: None, error: Some(message.to_owned()) }
    }
}

/// The page asked for where none or page zero is asked for.
pub const FIRST_PAGE: u32 = 1;

/// The rows of a page where no number is asked for.
pub const DEFAULT_PAGE_SIZE: u32 = 20;

/// The most rows a page may have.
pub const MAX_PAGE_SIZE: u32 = 100;

/// The part of a list that a page shows.
#[derive(Debug, Clone, Copy, PartialEq, Eq, Structural)]
pub struct PageWindow {
    /// The number of the page, counted from one.
    pub page: u32,
    /// The most rows the page shows.
    pub limit: i64,
    /// The rows that come before the page.
    pub offset: i64,
}

/// The window of the page asked for: pages count from one, a page has
/// twenty rows unless asked otherwise and never more than a hundred.
pub open spec fn spec_page_window(page: Option<u32>, per_page: Option<u32>) -> PageWindow {
    let page = match page {
        Some(p) if p >= 1 => p,
        _ => FIRST_PAGE,
    };
    let limit = match per_page {
        Some(n) if n <= MAX_PAGE_SIZE => n,
        Some(_) => MAX_PAGE_SIZE,
        None => DEFAULT_PAGE_SIZE,
    };
    PageWindow { page, limit: limit as i64, offset: ((page - 1) * limit) as i64 }
}

/// The window of the page asked for.
pub fn page_window(page: Option<u32>, per_page: Option<u32>) -> (w: PageWindow)
    ensures
        w == spec_page_window(page, per_page),
        w.page >= 1,
        0 <= w.limit <= MAX_PAGE_SIZE,
        w.offset == (w.page - 1) * w.limit,
{
    let page: u32 = match page {
        Some(p) => if p >= 1 {
            p
        } else {
            FIRST_PAGE
        },
        None => FIRST_PAGE,
    };
    let limit: u32 = match per_page {
        Some(n) => if n <= MAX_PAGE_SIZE {
            n
        } else {
            MAX_PAGE_SIZE
        },
        None => DEFAULT_PAGE_SIZE,
    };
    let before: i64 = (page - 1) as i64;
    assert(before * (limit as i64) <= 0xffff_ffff * 100) by (nonlinear_arith)
        requires
            0 <= before <= 0xffff_ffff,
            0 <= limit <= 100,
    ;
    assert(0 <= before * (limit as i64)) by (nonlinear_arith)
        requires
            0 <= before,
            0 <= limit,
    ;
    PageWindow { page, limit: limit as i64, offset: before * (limit as i64) }
}

/// The number of a new employee for a random draw: `EMP-` and the last six
/// decimal digits of the draw.
pub open spec fn employee_number_text(draw: u32) -> Seq<char> {
    "EMP-"@ + zero_padded(decimal((draw % 1_000_000) as nat), 6)
}

/// The number of a new employee for a random draw.
pub fn employee_number(draw: u32) -> (s: String)
    ensures
        s@ == employee_number_text(draw),
{
    let mut s = "EMP-".to_owned();
    s.append(u64_to_padded_string((draw % 1_000_000) as u64, 6).as_str());
    s
}

/// The days of a leave that lasts from one date to another, both counted,
/// where the second is `days_between` days after the first; `None` where
/// the count does not fit.
pub open spec fn spec_inclusive_days(days_between: i64) -> Option<i32> {
    if i32::MIN <= days_between + 1 <= i32::MAX {
        Some((days_between + 1) as i32)
    } else {
        None
    }
}

/// The days of a leave, first and last day counted.
pub fn inclusive_days(days_between: i64) -> (r: Option<i32>)
    ensures
        r == spec_inclusive_days(days_between),
{
    if days_between >= -2147483649 && days_between <= 2147483646 {
        Some((days_between + 1) as i32)
    } else {
        None
    }
}

} // verus!
