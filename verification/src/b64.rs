//! The wallet-unlock request body. The daemon's REST unlock endpoint
//! takes a JSON object whose `wallet_password` field carries the
//! password base64-encoded; the encoding is base64's work and is named
//! here, and the body assembly around it is verified.

use vstd::prelude::*;
use vstd::string::StringSliceAdditionalSpecFns;
use base64::Engine;

verus! {

/// The standard base64 encoding, with padding, of a byte string: a
/// function of the bytes alone.
pub uninterp spec fn base64_of(data: Seq<u8>) -> Seq<char>;

/// Relies on base64's `STANDARD` engine: the encoding depends on the
/// bytes alone, four characters for every started group of three bytes.
#[verifier::external_body]
fn base64_encode(data: &Vec<u8>) -> (r: String)
    ensures
        r@ == base64_of(data@),
        r@.len() == 4 * ((data@.len() + 2) / 3),
{
    base64::engine::general_purpose::STANDARD.encode(data)
}

/// The JSON body of a wallet-unlock request: the password's bytes
/// base64-encoded under the `wallet_password` key.
pub fn unlock_request_body(password: &str) -> (r: String)
    ensures
        r@ == "{\"wallet_password\":\""@ + base64_of(password.spec_bytes()) + "\"}"@,
{
    let mut r = "{\"wallet_password\":\"".to_owned();
    let bytes = password.as_bytes_vec();
    let encoded = base64_encode(&bytes);
    r.append(encoded.as_str());
    r.append("\"}");
    proof {
        assert(r@ =~= "{\"wallet_password\":\""@ + base64_of(password.spec_bytes()) + "\"}"@);
    }
    r
}

} // verus!
