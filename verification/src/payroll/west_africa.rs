//! West Africa.

use vstd::prelude::*;
use crate::text::{is_one_of, str_eq, views_of};

verus! {

/// The countries of West Africa that the platform supports: code, name and
/// currency of each.
pub open spec fn country_table() -> Seq<(&'static str, &'static str, &'static str)> {
    seq![
        ("NG", "Nigeria", "NGN"),
        ("GH", "Ghana", "GHS"),
        ("CI", "Côte d'Ivoire", "XOF"),
        ("SN", "Senegal", "XOF"),
        ("ML", "Mali", "XOF"),
        ("BF", "Burkina Faso", "XOF"),
        ("NE", "Niger", "XOF"),
        ("GN", "Guinea", "GNF"),
        ("BJ", "Benin", "XOF"),
        ("TG", "Togo", "XOF"),
        ("SL", "Sierra Leone", "SLE"),
        ("LR", "Liberia", "LRD"),
        ("MR", "Mauritania", "MRU"),
        ("GW", "Guinea-Bissau", "XOF"),
        ("GM", "Gambia", "GMD"),
        ("CV", "Cape Verde", "CVE"),
    ]
}

/// The codes of the countries of the West African monetary union, which pay in
/// CFA francs.
pub open spec fn uemoa_codes() -> Seq<&'static str> {
    seq!["CI", "SN", "ML", "BF", "NE", "GW", "BJ", "TG"]
}

/// The currency of a country of West Africa: its own where it has one,
/// and the CFA franc of the monetary union otherwise.
pub open spec fn currency_of(code: Seq<char>) -> &'static str {
    if code == "NG"@ {
        "NGN"
    }     else if code == "GH"@ {
        "GHS"
    }     else if code == "GN"@ {
        "GNF"
    }     else if code == "SL"@ {
        "SLE"
    }     else if code == "LR"@ {
        "LRD"
    }     else if code == "MR"@ {
        "MRU"
    }     else if code == "GM"@ {
        "GMD"
    }     else if code == "CV"@ {
        "CVE"
    } else {
        "XOF"
    }
}

/// What the platform knows of the countries of West Africa.
#[derive(Debug)]
pub struct WestAfricaTaxRegistry;

impl WestAfricaTaxRegistry {
    /// The countries of West Africa that the platform supports.
    pub fn supported_countries() -> (r: Vec<(&'static str, &'static str, &'static str)>)
        ensures
            r@ == country_table(),
    {
        vec![
            ("NG", "Nigeria", "NGN"),
            ("GH", "Ghana", "GHS"),
            ("CI", "Côte d'Ivoire", "XOF"),
            ("SN", "Senegal", "XOF"),
            ("ML", "Mali", "XOF"),
            ("BF", "Burkina Faso", "XOF"),
            ("NE", "Niger", "XOF"),
            ("GN", "Guinea", "GNF"),
            ("BJ", "Benin", "XOF"),
            ("TG", "Togo", "XOF"),
            ("SL", "Sierra Leone", "SLE"),
            ("LR", "Liberia", "LRD"),
            ("MR", "Mauritania", "MRU"),
            ("GW", "Guinea-Bissau", "XOF"),
            ("GM", "Gambia", "GMD"),
            ("CV", "Cape Verde", "CVE"),
        ]
    }

    /// Whether the country belongs to the West African monetary union.
    pub fn is_uemoa_country(code: &str) -> (b: bool)
        ensures
            b == views_of(uemoa_codes()).contains(code@),
    {
        let codes = ["CI", "SN", "ML", "BF", "NE", "GW", "BJ", "TG"];
        assert(codes@ =~= uemoa_codes());
        is_one_of(code, &codes)
    }

    /// The currency of a country: its own where it has one, and the CFA
    /// franc of the monetary union otherwise.
    pub fn get_currency(country_code: &str) -> (c: &'static str)
        ensures
            c == currency_of(country_code@),
    {
        if str_eq(country_code, "NG") {
            "NGN"
        }         else if str_eq(country_code, "GH") {
            "GHS"
        }         else if str_eq(country_code, "GN") {
            "GNF"
        }         else if str_eq(country_code, "SL") {
            "SLE"
        }         else if str_eq(country_code, "LR") {
            "LRD"
        }         else if str_eq(country_code, "MR") {
            "MRU"
        }         else if str_eq(country_code, "GM") {
            "GMD"
        }         else if str_eq(country_code, "CV") {
            "CVE"
        } else {
            "XOF"
        }
    }
}

} // verus!
