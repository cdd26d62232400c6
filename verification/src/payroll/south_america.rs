//! South America.

use vstd::prelude::*;
use crate::text::{is_one_of, views_of};

verus! {

/// The countries of South America that the platform supports: code, name and
/// currency of each.
pub open spec fn country_table() -> Seq<(&'static str, &'static str, &'static str)> {
    seq![
        ("BR", "Brazil", "BRL"),
        ("AR", "Argentina", "ARS"),
        ("CO", "Colombia", "COP"),
        ("PE", "Peru", "PEN"),
        ("CL", "Chile", "CLP"),
        ("EC", "Ecuador", "USD"),
        ("VE", "Venezuela", "VES"),
        ("BO", "Bolivia", "BOB"),
        ("PY", "Paraguay", "PYG"),
        ("UY", "Uruguay", "UYU"),
        ("GY", "Guyana", "GYD"),
        ("SR", "Suriname", "SRD"),
    ]
}

/// The codes of the countries that pay a thirteenth salary.
pub open spec fn thirteenth_salary_codes() -> Seq<&'static str> {
    seq!["BR", "AR", "CO", "PE", "CL", "EC", "BO", "PY", "UY"]
}

/// The codes of the countries that pay in US dollars.
pub open spec fn dollarized_codes() -> Seq<&'static str> {
    seq!["EC"]
}

/// What the platform knows of the countries of South America.
#[derive(Debug)]
pub struct SouthAmericaRegistry;

impl SouthAmericaRegistry {
    /// The countries of South America that the platform supports.
    pub fn supported_countries() -> (r: Vec<(&'static str, &'static str, &'static str)>)
        ensures
            r@ == country_table(),
    {
        vec![
            ("BR", "Brazil", "BRL"),
            ("AR", "Argentina", "ARS"),
            ("CO", "Colombia", "COP"),
            ("PE", "Peru", "PEN"),
            ("CL", "Chile", "CLP"),
            ("EC", "Ecuador", "USD"),
            ("VE", "Venezuela", "VES"),
            ("BO", "Bolivia", "BOB"),
            ("PY", "Paraguay", "PYG"),
            ("UY", "Uruguay", "UYU"),
            ("GY", "Guyana", "GYD"),
            ("SR", "Suriname", "SRD"),
        ]
    }

    /// Whether the country pays a thirteenth salary.
    pub fn has_thirteenth_salary(code: &str) -> (b: bool)
        ensures
            b == views_of(thirteenth_salary_codes()).contains(code@),
    {
        let codes = ["BR", "AR", "CO", "PE", "CL", "EC", "BO", "PY", "UY"];
        assert(codes@ =~= thirteenth_salary_codes());
        is_one_of(code, &codes)
    }

    /// Whether the country pays in US dollars.
    pub fn is_dollarized(code: &str) -> (b: bool)
        ensures
            b == views_of(dollarized_codes()).contains(code@),
    {
        let codes = ["EC"];
        assert(codes@ =~= dollarized_codes());
        is_one_of(code, &codes)
    }
}

} // verus!
