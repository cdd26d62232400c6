//! West Africa in more detail: the form of phone numbers.

use vstd::prelude::*;
use vstd::utf8::encode_utf8;
use crate::text::{decimal, str_eq, str_starts_with, u64_to_string};

verus! {

/// The form of the phone numbers of a country of West Africa: the prefix
/// they carry and the bytes they take, prefix included.
pub open spec fn phone_pattern(country: Seq<char>) -> Option<(&'static str, usize)> {
    if country == "NG"@ {
        Some(("+234", 14usize))
    }     else if country == "GH"@ {
        Some(("+233", 13usize))
    }     else if country == "SN"@ {
        Some(("+221", 13usize))
    }     else if country == "CI"@ {
        Some(("+225", 14usize))
    }     else if country == "ML"@ {
        Some(("+223", 12usize))
    }     else if country == "BF"@ {
        Some(("+226", 12usize))
    }     else if country == "NE"@ {
        Some(("+227", 12usize))
    }     else if country == "GN"@ {
        Some(("+224", 13usize))
    }     else if country == "BJ"@ {
        Some(("+229", 12usize))
    }     else if country == "TG"@ {
        Some(("+228", 12usize))
    }     else if country == "SL"@ {
        Some(("+232", 12usize))
    }     else if country == "LR"@ {
        Some(("+231", 11usize))
    }     else if country == "MR"@ {
        Some(("+222", 12usize))
    }     else if country == "GW"@ {
        Some(("+245", 11usize))
    }     else if country == "GM"@ {
        Some(("+220", 11usize))
    }     else if country == "CV"@ {
        Some(("+238", 11usize))
    } else {
        None
    }
}

/// Whether `phone` has the form `pattern`: it takes as many bytes in UTF-8
/// as the pattern says and begins with the prefix.
pub open spec fn fits(phone: Seq<char>, pattern: (&'static str, usize)) -> bool {
    encode_utf8(phone).len() == pattern.1 && pattern.0@.is_prefix_of(phone)
}

/// What a number that does not fit is told.
pub open spec fn expected_format(pattern: (&'static str, usize)) -> Seq<char> {
    "Expected "@ + pattern.0@ + " format with "@ + decimal(pattern.1 as nat) + " digits"@
}

/// What a number of an unknown country is told.
pub open spec fn unknown_country(country: Seq<char>) -> Seq<char> {
    "Unknown country code: "@ + country
}

/// The verdict on a phone number: whether it is valid and, where it is
/// not, why.
pub open spec fn phone_verdict(phone: Seq<char>, country: Seq<char>) -> (bool, Seq<char>) {
    match phone_pattern(country) {
        Some(pattern) => if fits(phone, pattern) {
            (true, Seq::empty())
        } else {
            (false, expected_format(pattern))
        },
        None => (false, unknown_country(country)),
    }
}

/// The form of the phone numbers of a country.
fn pattern_of(country: &str) -> (r: Option<(&'static str, usize)>)
    ensures
        r == phone_pattern(country@),
{
    if str_eq(country, "NG") {
        Some(("+234", 14))
    }     else if str_eq(country, "GH") {
        Some(("+233", 13))
    }     else if str_eq(country, "SN") {
        Some(("+221", 13))
    }     else if str_eq(country, "CI") {
        Some(("+225", 14))
    }     else if str_eq(country, "ML") {
        Some(("+223", 12))
    }     else if str_eq(country, "BF") {
        Some(("+226", 12))
    }     else if str_eq(country, "NE") {
        Some(("+227", 12))
    }     else if str_eq(country, "GN") {
        Some(("+224", 13))
    }     else if str_eq(country, "BJ") {
        Some(("+229", 12))
    }     else if str_eq(country, "TG") {
        Some(("+228", 12))
    }     else if str_eq(country, "SL") {
        Some(("+232", 12))
    }     else if str_eq(country, "LR") {
        Some(("+231", 11))
    }     else if str_eq(country, "MR") {
        Some(("+222", 12))
    }     else if str_eq(country, "GW") {
        Some(("+245", 11))
    }     else if str_eq(country, "GM") {
        Some(("+220", 11))
    }     else if str_eq(country, "CV") {
        Some(("+238", 11))
    } else {
        None
    }
}

/// Whether `phone` is a phone number of `country` in international form,
/// and the reason where it is not.
pub fn validate_phone_number(phone: &str, country: &str) -> (r: (bool, String))
    ensures
        (r.0, r.1@) == phone_verdict(phone@, country@),
{
    match pattern_of(country) {
        Some((prefix, expected_len)) => {
            if phone.as_bytes().len() == expected_len && str_starts_with(phone, prefix) {
                (true, String::new())
            } else {
                let mut message = "Expected ".to_owned();
                message.append(prefix);
                message.append(" format with ");
                message.append(u64_to_string(expected_len as u64).as_str());
                message.append(" digits");
                assert(message@ =~= expected_format((prefix, expected_len)));
                (false, message)
            }
        },
        None => {
            let mut message = "Unknown country code: ".to_owned();
            message.append(country);
            (false, message)
        },
    }
}

} // verus!
