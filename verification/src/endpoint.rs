//! The catalog endpoint: building the metadata request URL.
//!
//! The URL is the fixed endpoint template with the API key and the release
//! identifier interpolated, the identifier in decimal. The whole string is
//! assembled here, character for character, so the contract pins exactly
//! what is sent to the remote service.

use vstd::prelude::*;
use vstd::string::StrSliceExecFns;
use vstd::string::StringExecFns;

verus! {

/// The decimal digit character for a value below ten.
pub open spec fn digit_char(d: nat) -> char {
    ((48 + d) as u8) as char
}

/// The decimal rendering of a natural number: no sign, no leading zeros
/// (a single zero for zero itself).
pub open spec fn dec_rep(n: nat) -> Seq<char>
    decreases n,
{
    if n < 10 {
        seq![digit_char(n)]
    } else {
        dec_rep(n / 10) + seq![digit_char(n % 10)]
    }
}

/// The digit characters of `digits`, read back to front.
spec fn digits_reversed(digits: Seq<u8>) -> Seq<char> {
    Seq::new(digits.len(), |j: int| digit_char(digits[digits.len() - 1 - j] as nat))
}

/// Renders a release identifier in decimal.
pub fn u8_to_decimal(n: u8) -> (s: String)
    ensures
        s@ == dec_rep(n as nat),
{
    let digit_table = "0123456789";
    proof {
        reveal_strlit("0123456789");
        assert(digit_table@.len() == 10);
        assert(digit_table.is_ascii());
        assert(digit_table@[0] == digit_char(0));
        assert(digit_table@[1] == digit_char(1));
        assert(digit_table@[2] == digit_char(2));
        assert(digit_table@[3] == digit_char(3));
        assert(digit_table@[4] == digit_char(4));
        assert(digit_table@[5] == digit_char(5));
        assert(digit_table@[6] == digit_char(6));
        assert(digit_table@[7] == digit_char(7));
        assert(digit_table@[8] == digit_char(8));
        assert(digit_table@[9] == digit_char(9));
    }

    let mut digits: Vec<u8> = Vec::new();
    let mut rem: u8 = n;
    proof {
        assert(dec_rep(n as nat) =~= dec_rep(n as nat) + digits_reversed(digits@));
    }
    while rem >= 10
        invariant
            forall|i: int| 0 <= i < digits@.len() ==> digits@[i] < 10,
            dec_rep(n as nat) == dec_rep(rem as nat) + digits_reversed(digits@),
        decreases rem,
    {
        let d: u8 = rem % 10;
        let next: u8 = rem / 10;
        proof {
            assert(dec_rep(rem as nat) == dec_rep(next as nat) + seq![
                digit_char((rem % 10) as nat),
            ]);
            assert(digits_reversed(digits@.push(d)) =~= seq![digit_char(d as nat)]
                + digits_reversed(digits@));
            assert(dec_rep(next as nat) + digits_reversed(digits@.push(d)) =~= dec_rep(
                rem as nat,
            ) + digits_reversed(digits@));
        }
        digits.push(d);
        rem = next;
    }
    proof {
        assert(dec_rep(rem as nat) == seq![digit_char(rem as nat)]);
        assert(digits_reversed(digits@.push(rem)) =~= seq![digit_char(rem as nat)]
            + digits_reversed(digits@));
        assert(digits_reversed(digits@.push(rem)) =~= dec_rep(n as nat));
    }
    digits.push(rem);

    let mut s = String::new();
    let mut i: usize = digits.len();
    while i > 0
        invariant
            i <= digits@.len(),
            digit_table@.len() == 10,
            digit_table.is_ascii(),
            forall|j: int| 0 <= j < 10 ==> digit_table@[j] == digit_char(j as nat),
            forall|j: int| 0 <= j < digits@.len() ==> digits@[j] < 10,
            s@ == digits_reversed(digits@).take(digits@.len() - i),
        decreases i,
    {
        i = i - 1;
        let d: u8 = digits[i];
        let piece = digit_table.substring_ascii(d as usize, d as usize + 1);
        proof {
            assert(piece@ =~= seq![digit_char(d as nat)]);
            assert(digits_reversed(digits@).take(digits@.len() - i) =~= digits_reversed(
                digits@,
            ).take(digits@.len() - (i + 1)) + seq![digit_char(digits@[i as int] as nat)]);
        }
        s.append(piece);
    }
    proof {
        assert(s@ =~= digits_reversed(digits@));
        assert(s@ == dec_rep(n as nat));
    }
    s
}

/// The metadata request URL for a key and a release identifier: the fixed
/// endpoint template with both interpolated, the identifier in decimal.
pub open spec fn spec_catalog_url(release_id: nat, api_key: Seq<char>) -> Seq<char> {
    "https://isd.digital.nhs.uk/trud/api/v1/keys/"@ + api_key + "/items/"@ + dec_rep(release_id)
        + "/releases?latest"@
}

/// Builds the catalog request URL for one API key and release identifier.
pub fn catalog_request_url(release_id: u8, api_key: &str) -> (url: String)
    ensures
        url@ == spec_catalog_url(release_id as nat, api_key@),
{
    let mut url = "https://isd.digital.nhs.uk/trud/api/v1/keys/".to_owned();
    url.append(api_key);
    url.append("/items/");
    let id = u8_to_decimal(release_id);
    url.append(id.as_str());
    url.append("/releases?latest");
    proof {
        assert(url@ =~= spec_catalog_url(release_id as nat, api_key@));
    }
    url
}

} // verus!
