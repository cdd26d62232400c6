//! Western Europe beyond the large economies: the Alpine countries, Ireland and the small states.

use vstd::prelude::*;
use crate::text::{is_one_of, views_of};

verus! {

/// The countries of western Europe that the platform supports: code, name and
/// currency of each.
pub open spec fn country_table() -> Seq<(&'static str, &'static str, &'static str)> {
    seq![
        ("CH", "Switzerland", "CHF"),
        ("AT", "Austria", "EUR"),
        ("LU", "Luxembourg", "EUR"),
        ("IE", "Ireland", "EUR"),
        ("LI", "Liechtenstein", "CHF"),
        ("MC", "Monaco", "EUR"),
        ("AD", "Andorra", "EUR"),
    ]
}

/// The codes of the countries that are members of the EU.
pub open spec fn eu_member_codes() -> Seq<&'static str> {
    seq!["AT", "LU", "IE"]
}

/// The codes of the countries that are members of EFTA.
pub open spec fn efta_member_codes() -> Seq<&'static str> {
    seq!["CH", "LI"]
}

/// The codes of the countries that take SEPA payments.
pub open spec fn sepa_codes() -> Seq<&'static str> {
    seq!["CH", "AT", "LU", "IE", "LI", "MC", "AD"]
}

/// The codes of the countries that exempt holdings from tax.
pub open spec fn participation_exemption_codes() -> Seq<&'static str> {
    seq!["CH", "LU", "IE", "LI"]
}

/// What the platform knows of these countries of western Europe.
#[derive(Debug)]
pub struct WesternEuropeExtendedRegistry;

impl WesternEuropeExtendedRegistry {
    /// The countries of western Europe that the platform supports.
    pub fn supported_countries() -> (r: Vec<(&'static str, &'static str, &'static str)>)
        ensures
            r@ == country_table(),
    {
        vec![
            ("CH", "Switzerland", "CHF"),
            ("AT", "Austria", "EUR"),
            ("LU", "Luxembourg", "EUR"),
            ("IE", "Ireland", "EUR"),
            ("LI", "Liechtenstein", "CHF"),
            ("MC", "Monaco", "EUR"),
            ("AD", "Andorra", "EUR"),
        ]
    }

    /// Whether the country is a member of the EU.
    pub fn is_eu_member(code: &str) -> (b: bool)
        ensures
            b == views_of(eu_member_codes()).contains(code@),
    {
        let codes = ["AT", "LU", "IE"];
        assert(codes@ =~= eu_member_codes());
        is_one_of(code, &codes)
    }

    /// Whether the country is a member of EFTA.
    pub fn is_efta_member(code: &str) -> (b: bool)
        ensures
            b == views_of(efta_member_codes()).contains(code@),
    {
        let codes = ["CH", "LI"];
        assert(codes@ =~= efta_member_codes());
        is_one_of(code, &codes)
    }

    /// Whether the country takes SEPA payments.
    pub fn uses_sepa(code: &str) -> (b: bool)
        ensures
            b == views_of(sepa_codes()).contains(code@),
    {
        let codes = ["CH", "AT", "LU", "IE", "LI", "MC", "AD"];
        assert(codes@ =~= sepa_codes());
        is_one_of(code, &codes)
    }

    /// Whether the country exempts holdings from tax.
    pub fn has_participation_exemption(code: &str) -> (b: bool)
        ensures
            b == views_of(participation_exemption_codes()).contains(code@),
    {
        let codes = ["CH", "LU", "IE", "LI"];
        assert(codes@ =~= participation_exemption_codes());
        is_one_of(code, &codes)
    }
}

} // verus!
