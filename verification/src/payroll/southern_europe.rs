//! Southern Europe: the Mediterranean member states of the EU.

use vstd::prelude::*;
use crate::text::{is_one_of, views_of};

verus! {

/// The countries of southern Europe that the platform supports: code, name and
/// currency of each.
pub open spec fn country_table() -> Seq<(&'static str, &'static str, &'static str)> {
    seq![
        ("ES", "Spain", "EUR"),
        ("IT", "Italy", "EUR"),
        ("PT", "Portugal", "EUR"),
        ("GR", "Greece", "EUR"),
        ("MT", "Malta", "EUR"),
        ("CY", "Cyprus", "EUR"),
    ]
}

/// The codes of the countries that pay in euro.
pub open spec fn eurozone_codes() -> Seq<&'static str> {
    seq!["ES", "IT", "PT", "GR", "MT", "CY"]
}

/// The codes of the countries with a tax regime of their own for newcomers.
pub open spec fn special_regime_codes() -> Seq<&'static str> {
    seq!["ES", "PT", "CY"]
}

/// What the platform knows of the countries of southern Europe.
#[derive(Debug)]
pub struct SouthernEuropeRegistry;

impl SouthernEuropeRegistry {
    /// The countries of southern Europe that the platform supports.
    pub fn supported_countries() -> (r: Vec<(&'static str, &'static str, &'static str)>)
        ensures
            r@ == country_table(),
    {
        vec![
            ("ES", "Spain", "EUR"),
            ("IT", "Italy", "EUR"),
            ("PT", "Portugal", "EUR"),
            ("GR", "Greece", "EUR"),
            ("MT", "Malta", "EUR"),
            ("CY", "Cyprus", "EUR"),
        ]
    }

    /// Whether the country pays in euro.
    pub fn is_eurozone(code: &str) -> (b: bool)
        ensures
            b == views_of(eurozone_codes()).contains(code@),
    {
        let codes = ["ES", "IT", "PT", "GR", "MT", "CY"];
        assert(codes@ =~= eurozone_codes());
        is_one_of(code, &codes)
    }

    /// Whether the country has a tax regime of its own for newcomers.
    pub fn has_special_regime(code: &str) -> (b: bool)
        ensures
            b == views_of(special_regime_codes()).contains(code@),
    {
        let codes = ["ES", "PT", "CY"];
        assert(codes@ =~= special_regime_codes());
        is_one_of(code, &codes)
    }

    /// Whether the country takes SEPA payments: the countries that pay in euro
    /// do.
    pub fn uses_sepa(code: &str) -> (b: bool)
        ensures
            b == views_of(eurozone_codes()).contains(code@),
    {
        Self::is_eurozone(code)
    }
}

} // verus!
