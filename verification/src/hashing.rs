use vstd::prelude::*;
use vstd::string::*;
use crate::digits::{decimal_chars, i32_decimal};
use crate::text::str_eq;

verus! {

/// The digest's preimage for a submission: the display name, then the
/// service's fixed salt, then the score in decimal.
pub open spec fn submission_message(name: Seq<char>, score: int) -> Seq<char> {
    name + "TheTurtle"@ + decimal_chars(score)
}

/// What `sha256::digest` returns for a given string: its hex-encoded
/// SHA-256 digest, a pure function of the input characters.
pub uninterp spec fn sha256_hex_of(s: Seq<char>) -> Seq<char>;

/// Relies on `sha256::digest`, which hex-encodes the SHA-256 digest of the
/// input string's bytes: the result is determined by the input alone, as
/// 64 hex characters for the 32 digest bytes.
#[verifier::external_body]
fn sha256_hex(s: &str) -> (r: String)
    ensures
        r@ == sha256_hex_of(s@),
        r@.len() == 64,
{
    sha256::digest(s)
}

/// Whether `hash` is exactly the salted digest of this name and score.
pub fn hash_is_valid(name: &str, score: i32, hash: &str) -> (r: bool)
    ensures
        r == (hash@ == sha256_hex_of(submission_message(name@, score as int))),
{
    let mut msg = String::from_str(name);
    msg.append("TheTurtle");
    let dec = i32_decimal(score);
    msg.append(dec.as_str());
    proof {
        assert(msg@ =~= submission_message(name@, score as int));
    }
    let expected = sha256_hex(msg.as_str());
    str_eq(expected.as_str(), hash)
}

} // verus!
