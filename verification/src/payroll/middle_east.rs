//! The Middle East: the Gulf states, the Levant and their neighbours.

use vstd::prelude::*;
use crate::text::{is_one_of, views_of};

verus! {

/// The countries of the Middle East that the platform supports: code, name and
/// currency of each.
pub open spec fn country_table() -> Seq<(&'static str, &'static str, &'static str)> {
    seq![
        ("AE", "UAE", "AED"),
        ("SA", "Saudi Arabia", "SAR"),
        ("QA", "Qatar", "QAR"),
        ("KW", "Kuwait", "KWD"),
        ("BH", "Bahrain", "BHD"),
        ("OM", "Oman", "OMR"),
        ("IL", "Israel", "ILS"),
        ("JO", "Jordan", "JOD"),
        ("LB", "Lebanon", "LBP"),
        ("IQ", "Iraq", "IQD"),
        ("TR", "Turkey", "TRY"),
        ("IR", "Iran", "IRR"),
    ]
}

/// The codes of the countries of the Gulf Cooperation Council, which tax no
/// income.
pub open spec fn gcc_codes() -> Seq<&'static str> {
    seq!["AE", "SA", "QA", "KW", "BH", "OM"]
}

/// The codes of the countries that prescribe the Wage Protection System.
pub open spec fn wps_codes() -> Seq<&'static str> {
    seq!["AE", "SA", "QA", "BH", "OM"]
}

/// What the platform knows of the countries of the Middle East.
#[derive(Debug)]
pub struct MiddleEastRegistry;

impl MiddleEastRegistry {
    /// The countries of the Middle East that the platform supports.
    pub fn supported_countries() -> (r: Vec<(&'static str, &'static str, &'static str)>)
        ensures
            r@ == country_table(),
    {
        vec![
            ("AE", "UAE", "AED"),
            ("SA", "Saudi Arabia", "SAR"),
            ("QA", "Qatar", "QAR"),
            ("KW", "Kuwait", "KWD"),
            ("BH", "Bahrain", "BHD"),
            ("OM", "Oman", "OMR"),
            ("IL", "Israel", "ILS"),
            ("JO", "Jordan", "JOD"),
            ("LB", "Lebanon", "LBP"),
            ("IQ", "Iraq", "IQD"),
            ("TR", "Turkey", "TRY"),
            ("IR", "Iran", "IRR"),
        ]
    }

    /// Whether the country belongs to the Gulf Cooperation Council.
    pub fn is_gcc(code: &str) -> (b: bool)
        ensures
            b == views_of(gcc_codes()).contains(code@),
    {
        let codes = ["AE", "SA", "QA", "KW", "BH", "OM"];
        assert(codes@ =~= gcc_codes());
        is_one_of(code, &codes)
    }

    /// Whether the country prescribes the Wage Protection System.
    pub fn requires_wps(code: &str) -> (b: bool)
        ensures
            b == views_of(wps_codes()).contains(code@),
    {
        let codes = ["AE", "SA", "QA", "BH", "OM"];
        assert(codes@ =~= wps_codes());
        is_one_of(code, &codes)
    }
}

} // verus!
