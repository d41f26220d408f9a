//! Construction of the request headers carried by every call to the
//! provider: the two custom authentication headers, populated from the
//! credentials, and the JSON content-type header.

use crate::credentials::Credentials;
use vstd::prelude::*;
use vstd::string::StringSliceAdditionalSpecFns;
use vstd::string::StrSliceExecFns;

verus! {

/// One outgoing request header.
pub struct Header {
    pub name: String,
    pub value: String,
}

/// Which credential cannot be carried as a header value.
#[derive(Clone, Copy, Debug, PartialEq, Eq, Structural)]
pub enum HeaderFault {
    Email,
    ApiKey,
}

/// A byte an HTTP header value may hold: horizontal tab, or any byte from
/// 32 up except 127 (DEL).
pub open spec fn valid_header_byte(b: u8) -> bool {
    b == 9 || (32 <= b && b != 127)
}

/// Every byte of the UTF-8 encoding is one a header value may hold.
pub open spec fn valid_header_bytes(bs: Seq<u8>) -> bool {
    forall|i: int| 0 <= i < bs.len() ==> valid_header_byte(#[trigger] bs[i])
}

/// Decides whether a string can be carried as an HTTP header value.
pub fn header_value_ok(s: &str) -> (r: bool)
    ensures
        r == valid_header_bytes(s.spec_bytes()),
{
    let bytes = s.as_bytes_vec();
    let n = bytes.len();
    let mut i: usize = 0;
    while i < n
        invariant
            n == bytes.len(),
            bytes@ == s.spec_bytes(),
            i <= n,
            forall|j: int| 0 <= j < i ==> valid_header_byte(#[trigger] bytes@[j]),
        decreases n - i,
    {
        let b = bytes[i];
        if !(b == 9 || (32 <= b && b != 127)) {
            return false;
        }
        i += 1;
    }
    true
}

/// Builds the full header set for a request made with `c`.
///
/// On success the set is exactly three headers, in order: `X-Auth-Email`
/// with the account email, `X-Auth-Key` with the API key, and
/// `Content-Type: application/json` — nothing else.  A credential whose
/// encoding cannot stand in a header value is reported instead, the email
/// being checked first.
pub fn build_auth_headers(c: &Credentials) -> (r: Result<Vec<Header>, HeaderFault>)
    ensures
        match r {
            Ok(hs) => {
                &&& valid_header_bytes(vstd::utf8::encode_utf8(c.email@))
                &&& valid_header_bytes(vstd::utf8::encode_utf8(c.api_key@))
                &&& hs@.len() == 3
                &&& hs@[0].name@ == "X-Auth-Email"@ && hs@[0].value == c.email
                &&& hs@[1].name@ == "X-Auth-Key"@ && hs@[1].value == c.api_key
                &&& hs@[2].name@ == "Content-Type"@ && hs@[2].value@ == "application/json"@
            },
            Err(f) => match f {
                HeaderFault::Email => !valid_header_bytes(vstd::utf8::encode_utf8(c.email@)),
                HeaderFault::ApiKey => {
                    &&& valid_header_bytes(vstd::utf8::encode_utf8(c.email@))
                    &&& !valid_header_bytes(vstd::utf8::encode_utf8(c.api_key@))
                },
            },
        },
{
    if !header_value_ok(c.email.as_str()) {
        return Err(HeaderFault::Email);
    }
    if !header_value_ok(c.api_key.as_str()) {
        return Err(HeaderFault::ApiKey);
    }
    let mut hs: Vec<Header> = Vec::new();
    hs.push(Header { name: String::from_str("X-Auth-Email"), value: c.email.clone() });
    hs.push(Header { name: String::from_str("X-Auth-Key"), value: c.api_key.clone() });
    hs.push(
        Header {
            name: String::from_str("Content-Type"),
            value: String::from_str("application/json"),
        },
    );
    Ok(hs)
}

} // verus!
