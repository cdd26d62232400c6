//! South and south-east Asia.

use vstd::prelude::*;
use crate::payroll::rate::Rate;
use crate::text::{is_one_of, str_eq, views_of};

verus! {

/// The countries of south and south-east Asia that the platform supports: code,
/// name and currency of each.
pub open spec fn country_table() -> Seq<(&'static str, &'static str, &'static str)> {
    seq![
        ("IN", "India", "INR"),
        ("ID", "Indonesia", "IDR"),
        ("VN", "Vietnam", "VND"),
        ("PH", "Philippines", "PHP"),
        ("TH", "Thailand", "THB"),
        ("MY", "Malaysia", "MYR"),
        ("PK", "Pakistan", "PKR"),
        ("BD", "Bangladesh", "BDT"),
    ]
}

/// The codes of the countries with a pension scheme that the law prescribes.
pub open spec fn mandatory_pension_codes() -> Seq<&'static str> {
    seq!["IN", "ID", "PH", "MY", "TH"]
}

/// The highest rate of income tax of a country, as a fraction; `None` for
/// a country that is not supported.
pub open spec fn top_rate(code: Seq<char>) -> Option<Rate> {
    if code == "IN"@ {
        Some(Rate { mantissa: 30, scale: 2 })
    } else if code == "ID"@ || code == "VN"@ || code == "TH"@ {
        Some(Rate { mantissa: 35, scale: 2 })
    } else if code == "PH"@ {
        Some(Rate { mantissa: 35, scale: 2 })
    } else if code == "MY"@ {
        Some(Rate { mantissa: 30, scale: 2 })
    } else if code == "PK"@ || code == "BD"@ {
        Some(Rate { mantissa: 35, scale: 2 })
    } else {
        None
    }
}

/// What the platform knows of the countries of south and south-east Asia.
#[derive(Debug)]
pub struct AsiaPacificRegistry;

impl AsiaPacificRegistry {
    /// The countries of south and south-east Asia that the platform supports.
    pub fn supported_countries() -> (r: Vec<(&'static str, &'static str, &'static str)>)
        ensures
            r@ == country_table(),
    {
        vec![
            ("IN", "India", "INR"),
            ("ID", "Indonesia", "IDR"),
            ("VN", "Vietnam", "VND"),
            ("PH", "Philippines", "PHP"),
            ("TH", "Thailand", "THB"),
            ("MY", "Malaysia", "MYR"),
            ("PK", "Pakistan", "PKR"),
            ("BD", "Bangladesh", "BDT"),
        ]
    }

    /// Whether the country has a pension scheme that the law prescribes.
    pub fn has_mandatory_pension(code: &str) -> (b: bool)
        ensures
            b == views_of(mandatory_pension_codes()).contains(code@),
    {
        let codes = ["IN", "ID", "PH", "MY", "TH"];
        assert(codes@ =~= mandatory_pension_codes());
        is_one_of(code, &codes)
    }

    /// The highest rate of income tax of the country, as a fraction.
    pub fn max_tax_rate(code: &str) -> (r: Option<Rate>)
        ensures
            r == top_rate(code@),
    {
        if str_eq(code, "IN") {
            Some(Rate { mantissa: 30, scale: 2 })
        } else if str_eq(code, "ID") || str_eq(code, "VN") || str_eq(code, "TH") {
            Some(Rate { mantissa: 35, scale: 2 })
        } else if str_eq(code, "PH") {
            Some(Rate { mantissa: 35, scale: 2 })
        } else if str_eq(code, "MY") {
            Some(Rate { mantissa: 30, scale: 2 })
        } else if str_eq(code, "PK") || str_eq(code, "BD") {
            Some(Rate { mantissa: 35, scale: 2 })
        } else {
            None
        }
    }
}

} // verus!
