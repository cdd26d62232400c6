//! The developed economies of east and south-east Asia.

use vstd::prelude::*;
use crate::payroll::rate::Rate;
use crate::text::{is_one_of, str_eq, views_of};

verus! {

/// The developed economies of Asia that the platform supports: code, name and
/// currency of each.
pub open spec fn country_table() -> Seq<(&'static str, &'static str, &'static str)> {
    seq![
        ("JP", "Japan", "JPY"),
        ("KR", "South Korea", "KRW"),
        ("TW", "Taiwan", "TWD"),
        ("HK", "Hong Kong", "HKD"),
        ("SG", "Singapore", "SGD"),
    ]
}

/// The codes of the countries that tax income at rising rates.
pub open spec fn progressive_tax_codes() -> Seq<&'static str> {
    seq!["JP", "KR", "TW", "SG"]
}

/// The codes of the countries that let a taxpayer choose one standard rate.
pub open spec fn flat_tax_option_codes() -> Seq<&'static str> {
    seq!["HK"]
}

/// The codes of the countries with a pension scheme that the law prescribes.
pub open spec fn mandatory_pension_codes() -> Seq<&'static str> {
    seq!["JP", "KR", "TW", "SG", "HK"]
}

/// The highest rate of income tax of a country, in per cent; zero for a
/// country that is not supported.
pub open spec fn top_rate(code: Seq<char>) -> Rate {
    if code == "JP"@ || code == "KR"@ {
        Rate { mantissa: 45, scale: 0 }
    } else if code == "TW"@ {
        Rate { mantissa: 40, scale: 0 }
    } else if code == "SG"@ {
        Rate { mantissa: 24, scale: 0 }
    } else if code == "HK"@ {
        Rate { mantissa: 17, scale: 0 }
    } else {
        Rate { mantissa: 0, scale: 0 }
    }
}

/// What the platform knows of the developed economies of Asia.
#[derive(Debug)]
pub struct DevelopedAsiaRegistry;

impl DevelopedAsiaRegistry {
    /// The developed economies of Asia that the platform supports.
    pub fn supported_countries() -> (r: Vec<(&'static str, &'static str, &'static str)>)
        ensures
            r@ == country_table(),
    {
        vec![
            ("JP", "Japan", "JPY"),
            ("KR", "South Korea", "KRW"),
            ("TW", "Taiwan", "TWD"),
            ("HK", "Hong Kong", "HKD"),
            ("SG", "Singapore", "SGD"),
        ]
    }

    /// Whether the country taxes income at rising rates.
    pub fn has_progressive_tax(code: &str) -> (b: bool)
        ensures
            b == views_of(progressive_tax_codes()).contains(code@),
    {
        let codes = ["JP", "KR", "TW", "SG"];
        assert(codes@ =~= progressive_tax_codes());
        is_one_of(code, &codes)
    }

    /// Whether the country lets a taxpayer choose one standard rate.
    pub fn has_flat_tax_option(code: &str) -> (b: bool)
        ensures
            b == views_of(flat_tax_option_codes()).contains(code@),
    {
        let codes = ["HK"];
        assert(codes@ =~= flat_tax_option_codes());
        is_one_of(code, &codes)
    }

    /// Whether the country has a pension scheme that the law prescribes.
    pub fn uses_mandatory_pension(code: &str) -> (b: bool)
        ensures
            b == views_of(mandatory_pension_codes()).contains(code@),
    {
        let codes = ["JP", "KR", "TW", "SG", "HK"];
        assert(codes@ =~= mandatory_pension_codes());
        is_one_of(code, &codes)
    }

    /// The highest rate of income tax of the country, in per cent; zero for
    /// a country that is not supported.
    pub fn max_tax_rate(code: &str) -> (r: Rate)
        ensures
            r == top_rate(code@),
    {
        if str_eq(code, "JP") || str_eq(code, "KR") {
            Rate { mantissa: 45, scale: 0 }
        } else if str_eq(code, "TW") {
            Rate { mantissa: 40, scale: 0 }
        } else if str_eq(code, "SG") {
            Rate { mantissa: 24, scale: 0 }
        } else if str_eq(code, "HK") {
            Rate { mantissa: 17, scale: 0 }
        } else {
            Rate { mantissa: 0, scale: 0 }
        }
    }
}

} // verus!
