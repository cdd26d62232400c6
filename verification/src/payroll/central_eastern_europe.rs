//! Central and eastern Europe: the member states of the EU east of Germany.

use vstd::prelude::*;
use crate::text::{is_one_of, views_of};

verus! {

/// The countries of central and eastern Europe that the platform supports:
/// code, name and currency of each.
pub open spec fn country_table() -> Seq<(&'static str, &'static str, &'static str)> {
    seq![
        ("PL", "Poland", "PLN"),
        ("CZ", "Czech Republic", "CZK"),
        ("HU", "Hungary", "HUF"),
        ("RO", "Romania", "RON"),
        ("BG", "Bulgaria", "BGN"),
        ("SK", "Slovakia", "EUR"),
        ("SI", "Slovenia", "EUR"),
        ("HR", "Croatia", "EUR"),
        ("EE", "Estonia", "EUR"),
        ("LV", "Latvia", "EUR"),
        ("LT", "Lithuania", "EUR"),
    ]
}

/// The codes of the countries that pay in euro.
pub open spec fn eurozone_codes() -> Seq<&'static str> {
    seq!["SK", "SI", "HR", "EE", "LV", "LT"]
}

/// The codes of the countries that tax income at one rate.
pub open spec fn flat_tax_codes() -> Seq<&'static str> {
    seq!["HU", "RO", "BG", "EE"]
}

/// What the platform knows of the countries of central and eastern Europe.
#[derive(Debug)]
pub struct CentralEasternEuropeRegistry;

impl CentralEasternEuropeRegistry {
    /// The countries of central and eastern Europe that the platform supports.
    pub fn supported_countries() -> (r: Vec<(&'static str, &'static str, &'static str)>)
        ensures
            r@ == country_table(),
    {
        vec![
            ("PL", "Poland", "PLN"),
            ("CZ", "Czech Republic", "CZK"),
            ("HU", "Hungary", "HUF"),
            ("RO", "Romania", "RON"),
            ("BG", "Bulgaria", "BGN"),
            ("SK", "Slovakia", "EUR"),
            ("SI", "Slovenia", "EUR"),
            ("HR", "Croatia", "EUR"),
            ("EE", "Estonia", "EUR"),
            ("LV", "Latvia", "EUR"),
            ("LT", "Lithuania", "EUR"),
        ]
    }

    /// Whether the country pays in euro.
    pub fn is_eurozone(code: &str) -> (b: bool)
        ensures
            b == views_of(eurozone_codes()).contains(code@),
    {
        let codes = ["SK", "SI", "HR", "EE", "LV", "LT"];
        assert(codes@ =~= eurozone_codes());
        is_one_of(code, &codes)
    }

    /// Whether the country is a member of the EU: every country of the region
    /// is taken to be one.
    pub fn is_eu_member(code: &str) -> (b: bool)
        ensures
            b,
    {
        true
    }

    /// Whether the country taxes income at one rate.
    pub fn has_flat_tax(code: &str) -> (b: bool)
        ensures
            b == views_of(flat_tax_codes()).contains(code@),
    {
        let codes = ["HU", "RO", "BG", "EE"];
        assert(codes@ =~= flat_tax_codes());
        is_one_of(code, &codes)
    }

    /// Whether the country takes SEPA payments: every country of the region is
    /// taken to.
    pub fn uses_sepa(code: &str) -> (b: bool)
        ensures
            b,
    {
        true
    }
}

} // verus!
