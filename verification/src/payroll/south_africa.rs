//! Southern Africa.

use vstd::prelude::*;
use crate::text::{is_one_of, views_of};

verus! {

/// The countries of southern Africa that the platform supports: code, name and
/// currency of each.
pub open spec fn country_table() -> Seq<(&'static str, &'static str, &'static str)> {
    seq![
        ("ZA", "South Africa", "ZAR"),
        ("ZW", "Zimbabwe", "USD/ZWL"),
        ("ZM", "Zambia", "ZMW"),
        ("MW", "Malawi", "MWK"),
        ("MZ", "Mozambique", "MZN"),
        ("BW", "Botswana", "BWP"),
        ("NA", "Namibia", "NAD"),
        ("LS", "Lesotho", "LSL"),
        ("SZ", "Eswatini", "SZL"),
        ("AO", "Angola", "AOA"),
    ]
}

/// The codes of the countries of the Common Monetary Area, whose currencies are
/// pegged to the rand.
pub open spec fn cma_codes() -> Seq<&'static str> {
    seq!["NA", "LS", "SZ"]
}

/// What the platform knows of the countries of southern Africa.
#[derive(Debug)]
pub struct SouthernAfricaRegistry;

impl SouthernAfricaRegistry {
    /// The countries of southern Africa that the platform supports.
    pub fn supported_countries() -> (r: Vec<(&'static str, &'static str, &'static str)>)
        ensures
            r@ == country_table(),
    {
        vec![
            ("ZA", "South Africa", "ZAR"),
            ("ZW", "Zimbabwe", "USD/ZWL"),
            ("ZM", "Zambia", "ZMW"),
            ("MW", "Malawi", "MWK"),
            ("MZ", "Mozambique", "MZN"),
            ("BW", "Botswana", "BWP"),
            ("NA", "Namibia", "NAD"),
            ("LS", "Lesotho", "LSL"),
            ("SZ", "Eswatini", "SZL"),
            ("AO", "Angola", "AOA"),
        ]
    }

    /// Whether the country belongs to the Common Monetary Area.
    pub fn is_cma_country(code: &str) -> (b: bool)
        ensures
            b == views_of(cma_codes()).contains(code@),
    {
        let codes = ["NA", "LS", "SZ"];
        assert(codes@ =~= cma_codes());
        is_one_of(code, &codes)
    }
}

} // verus!
