//! Tax identification numbers.

use vstd::prelude::*;
use crate::text::{all_digits, digits_of, keep_digits, lemma_digits_of, to_chars, char_is_digit};

verus! {

/// The kinds of tax identification numbers.
#[derive(Clone, Copy, Debug, PartialEq, Eq, Hash, Structural)]
pub enum TaxIdType {
    /// Social Security Number (US).
    SSN,
    /// Employer Identification Number (US).
    EIN,
    /// Individual Taxpayer Identification Number (US).
    ITIN,
    /// National Insurance Number (UK).
    NIN,
    /// Tax Identification Number, of no particular kind.
    TIN,
}

/// Why a tax identification number was refused.
#[derive(Debug, Clone, Copy, PartialEq, Eq, Structural)]
pub enum TaxIdError {
    Invalid,
}

impl TaxIdError {
    /// The message of the error.
    pub fn to_string(&self) -> (s: String)
        ensures
            s@ == "Invalid tax ID"@,
    {
        "Invalid tax ID".to_owned()
    }
}

/// A tax identification number. It holds the digits of the number and
/// nothing else.
#[derive(Debug, PartialEq, Eq, Hash)]
pub struct TaxId {
    id_type: TaxIdType,
    value: String,
}

/// Whether `s` has the form of a Social Security Number without its
/// hyphens: nine digits.
pub open spec fn is_ssn(s: Seq<char>) -> bool {
    s.len() == 9 && all_digits(s)
}

/// The number as it is shown: the last four digits behind a mask where it
/// has more than four, and a mask alone otherwise.
pub open spec fn masked_text(digits: Seq<char>) -> Seq<char> {
    if digits.len() > 4 {
        "***-**-"@ + digits.subrange(digits.len() - 4, digits.len() as int)
    } else {
        "***-**-****"@
    }
}

impl TaxId {
    /// The kind of the number.
    pub closed spec fn kind(&self) -> TaxIdType {
        self.id_type
    }

    /// The digits of the number.
    pub closed spec fn digits(&self) -> Seq<char> {
        self.value@
    }

    #[verifier::type_invariant]
    pub closed spec fn inv(&self) -> bool {
        all_digits(self.value@)
    }

    /// A Social Security Number from text that may hold hyphens or other
    /// separators: the digits of the text, where there are exactly nine;
    /// `Invalid` otherwise.
    pub fn new_ssn(value: &str) -> (r: Result<TaxId, TaxIdError>)
        ensures
            match r {
                Ok(id) => digits_of(value@).len() == 9 && id.kind() == TaxIdType::SSN
                    && id.digits() == digits_of(value@),
                Err(e) => digits_of(value@).len() != 9 && e == TaxIdError::Invalid,
            },
    {
        let digits = TaxId::normalize(value);
        if !TaxId::validate_ssn(digits.as_str()) {
            return Err(TaxIdError::Invalid);
        }
        Ok(TaxId { id_type: TaxIdType::SSN, value: digits })
    }

    /// An Employer Identification Number from text that may hold
    /// separators: the digits of the text, however many there are.
    pub fn new_ein(value: &str) -> (r: Result<TaxId, TaxIdError>)
        ensures
            match r {
                Ok(id) => id.kind() == TaxIdType::EIN && id.digits() == digits_of(value@),
                Err(_) => false,
            },
    {
        let digits = TaxId::normalize(value);
        Ok(TaxId { id_type: TaxIdType::EIN, value: digits })
    }

    /// The kind of the number.
    pub fn id_type(&self) -> (t: &TaxIdType)
        ensures
            *t == self.kind(),
    {
        &self.id_type
    }

    /// The number as it is shown: all but the last four digits masked.
    pub fn masked(&self) -> (s: String)
        ensures
            s@ == masked_text(self.digits()),
    {
        let len = self.value.as_str().unicode_len();
        if len > 4 {
            let mut s = "***-**-".to_owned();
            s.append(self.value.as_str().substring_char(len - 4, len));
            s
        } else {
            "***-**-****".to_owned()
        }
    }

    /// The number as text: the same as [`Self::masked`], so that a number is
    /// never printed in full.
    pub fn to_string(&self) -> (s: String)
        ensures
            s@ == masked_text(self.digits()),
    {
        self.masked()
    }

    /// The digits of `value`, without its other characters.
    pub fn normalize(value: &str) -> (r: String)
        ensures
            r@ == digits_of(value@),
            all_digits(r@),
    {
        keep_digits(value)
    }

    /// Whether `value` is nine digits.
    pub fn validate_ssn(value: &str) -> (b: bool)
        ensures
            b == is_ssn(value@),
    {
        let chars = to_chars(value);
        if chars.len() != 9 {
            return false;
        }
        let mut i: usize = 0;
        while i < 9
            invariant
                chars@ == value@,
                chars@.len() == 9,
                i <= 9,
                forall|k: int| 0 <= k < i ==> crate::text::is_digit(#[trigger] chars@[k]),
            decreases 9 - i,
        {
            if !char_is_digit(chars[i]) {
                return false;
            }
            i += 1;
        }
        true
    }
}

impl Clone for TaxId {
    fn clone(&self) -> (r: TaxId)
        ensures
            r.kind() == self.kind(),
            r.digits() == self.digits(),
    {
        proof {
            use_type_invariant(self);
        }
        TaxId { id_type: self.id_type, value: self.value.clone() }
    }
}

/// A number that is nine digits to begin with is accepted as a Social
/// Security Number as it stands.
pub proof fn lemma_nine_digits_are_an_ssn(s: Seq<char>)
    requires
        is_ssn(s),
    ensures
        digits_of(s) == s,
        is_ssn(digits_of(s)),
{
    lemma_digits_of(s);
}

} // verus!
