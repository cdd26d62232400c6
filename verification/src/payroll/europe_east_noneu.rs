//! Eastern Europe outside the EU, the Caucasus and Turkey.

use vstd::prelude::*;
use crate::payroll::rate::Rate;
use crate::text::{is_one_of, str_eq, views_of};

verus! {

/// The countries of eastern Europe outside the EU that the platform supports:
/// code, name and currency of each.
pub open spec fn country_table() -> Seq<(&'static str, &'static str, &'static str)> {
    seq![
        ("UA", "Ukraine", "UAH"),
        ("MD", "Moldova", "MDL"),
        ("BY", "Belarus", "BYN"),
        ("GE", "Georgia", "GEL"),
        ("AM", "Armenia", "AMD"),
        ("AZ", "Azerbaijan", "AZN"),
        ("RU", "Russia", "RUB"),
        ("TR", "Turkey", "TRY"),
        ("XK", "Kosovo", "EUR"),
        ("MK", "North Macedonia", "MKD"),
    ]
}

/// The codes of the countries that tax income at one rate.
pub open spec fn flat_tax_codes() -> Seq<&'static str> {
    seq!["UA", "MD", "BY", "GE", "AM", "RU", "MK"]
}

/// The one rate at which a country taxes income, as a fraction; `None` for
/// a country that has no such rate.
pub open spec fn flat_rate(code: Seq<char>) -> Option<Rate> {
    if code == "UA"@ {
        Some(Rate { mantissa: 18, scale: 2 })
    } else if code == "MD"@ {
        Some(Rate { mantissa: 12, scale: 2 })
    } else if code == "BY"@ {
        Some(Rate { mantissa: 13, scale: 2 })
    } else if code == "GE"@ {
        Some(Rate { mantissa: 20, scale: 2 })
    } else if code == "AM"@ {
        Some(Rate { mantissa: 20, scale: 2 })
    } else if code == "RU"@ {
        Some(Rate { mantissa: 13, scale: 2 })
    } else if code == "MK"@ {
        Some(Rate { mantissa: 10, scale: 2 })
    } else {
        None
    }
}

/// What the platform knows of the countries of eastern Europe outside the EU.
#[derive(Debug)]
pub struct EasternEuropeNonEuRegistry;

impl EasternEuropeNonEuRegistry {
    /// The countries of eastern Europe outside the EU that the platform
    /// supports.
    pub fn supported_countries() -> (r: Vec<(&'static str, &'static str, &'static str)>)
        ensures
            r@ == country_table(),
    {
        vec![
            ("UA", "Ukraine", "UAH"),
            ("MD", "Moldova", "MDL"),
            ("BY", "Belarus", "BYN"),
            ("GE", "Georgia", "GEL"),
            ("AM", "Armenia", "AMD"),
            ("AZ", "Azerbaijan", "AZN"),
            ("RU", "Russia", "RUB"),
            ("TR", "Turkey", "TRY"),
            ("XK", "Kosovo", "EUR"),
            ("MK", "North Macedonia", "MKD"),
        ]
    }

    /// Whether the country taxes income at one rate.
    pub fn has_flat_tax(code: &str) -> (b: bool)
        ensures
            b == views_of(flat_tax_codes()).contains(code@),
    {
        let codes = ["UA", "MD", "BY", "GE", "AM", "RU", "MK"];
        assert(codes@ =~= flat_tax_codes());
        is_one_of(code, &codes)
    }

    /// Whether the country raises a military levy: Ukraine does.
    pub fn has_military_levy(code: &str) -> (b: bool)
        ensures
            b == (code@ == "UA"@),
    {
        str_eq(code, "UA")
    }

    /// Whether the country pays in euro: Kosovo does.
    pub fn uses_euro(code: &str) -> (b: bool)
        ensures
            b == (code@ == "XK"@),
    {
        str_eq(code, "XK")
    }

    /// The one rate at which the country taxes income, as a fraction.
    pub fn flat_tax_rate(code: &str) -> (r: Option<Rate>)
        ensures
            r == flat_rate(code@),
    {
        if str_eq(code, "UA") {
            Some(Rate { mantissa: 18, scale: 2 })
        } else if str_eq(code, "MD") {
            Some(Rate { mantissa: 12, scale: 2 })
        } else if str_eq(code, "BY") {
            Some(Rate { mantissa: 13, scale: 2 })
        } else if str_eq(code, "GE") {
            Some(Rate { mantissa: 20, scale: 2 })
        } else if str_eq(code, "AM") {
            Some(Rate { mantissa: 20, scale: 2 })
        } else if str_eq(code, "RU") {
            Some(Rate { mantissa: 13, scale: 2 })
        } else if str_eq(code, "MK") {
            Some(Rate { mantissa: 10, scale: 2 })
        } else {
            None
        }
    }
}

} // verus!
