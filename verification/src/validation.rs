use vstd::prelude::*;
use vstd::string::StringSliceAdditionalSpecFns;
use vstd::utf8::encode_utf8;

verus! {

/// Longest accepted issuer name, in UTF-8 bytes.
pub const ISSUER_LENGTH: usize = 30;

/// Longest accepted product name, in UTF-8 bytes.
pub const NAME_LENGTH: usize = 30;

/// Longest accepted listing date string, in UTF-8 bytes.
pub const LISTING_DATE_LENGTH: usize = 20;

/// A country code is exactly this many bytes long, or
/// [`COUNTRY_LENGTH_2`] bytes long.
pub const COUNTRY_LENGTH: usize = 3;

/// The shorter accepted country-code length, in bytes.
pub const COUNTRY_LENGTH_2: usize = 2;

/// Longest accepted investor full-names string, in UTF-8 bytes.
pub const FULL_NAMES_LENGTH: usize = 50;

/// The length of a string in UTF-8 bytes, as the host reports it; all
/// length rules are byte rules.
pub open spec fn str_byte_len(s: Seq<char>) -> usize {
    encode_utf8(s).len() as usize
}

/// An issuer name is accepted when it is 1 to [`ISSUER_LENGTH`] bytes long.
pub open spec fn issuer_len_ok(s: Seq<char>) -> bool {
    1 <= str_byte_len(s) <= ISSUER_LENGTH
}

/// A product name is accepted when it is 1 to [`NAME_LENGTH`] bytes long.
pub open spec fn name_len_ok(s: Seq<char>) -> bool {
    1 <= str_byte_len(s) <= NAME_LENGTH
}

/// A listing date is accepted when it is 1 to [`LISTING_DATE_LENGTH`] bytes
/// long.
pub open spec fn listing_date_len_ok(s: Seq<char>) -> bool {
    1 <= str_byte_len(s) <= LISTING_DATE_LENGTH
}

/// A country code is accepted when it is exactly 2 or 3 bytes long.
pub open spec fn country_len_ok(s: Seq<char>) -> bool {
    str_byte_len(s) == COUNTRY_LENGTH || str_byte_len(s) == COUNTRY_LENGTH_2
}

/// An investor's full names are accepted when they are 1 to
/// [`FULL_NAMES_LENGTH`] bytes long.
pub open spec fn full_names_len_ok(s: Seq<char>) -> bool {
    1 <= str_byte_len(s) <= FULL_NAMES_LENGTH
}

/// The UTF-8 byte length of a string, the quantity every length rule is
/// stated over.
pub fn str_byte_count(s: &String) -> (n: usize)
    ensures
        n == str_byte_len(s@),
{
    let t = s.as_str();
    proof {
        assert(t@ == s@);
        assert(t.spec_bytes() == encode_utf8(s@));
    }
    t.len()
}

} // verus!
