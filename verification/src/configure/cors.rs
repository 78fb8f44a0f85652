//! Which origins may call the service from a browser.

use crate::configure::{url_of, ServerConfig};
use crate::error::{ApiError, ApiResult};
use crate::text::push_str;
use vstd::prelude::*;

verus! {

/// Whether a text may stand in an HTTP header value: every byte of its UTF-8
/// form is a tab or lies between 32 and 255 without being 127.  Characters
/// outside ASCII are encoded in bytes of 128 and above, so this is a condition
/// on each character.
pub open spec fn header_value_text(s: Seq<char>) -> bool {
    forall|i: int| 0 <= i < s.len() ==> (#[trigger] s[i] == '\t' || (s[i] as u32 >= 32 && s[i] as u32 != 127))
}

/// Whether `HeaderValue::from_str` accepts the text.  Trusted: the answer is
/// `header_value_text`, as the `http` crate's source states it.
#[verifier::external_body]
fn header_value_ok(s: &str) -> (r: bool)
    ensures
        r == header_value_text(s@),
{
    axum::http::HeaderValue::from_str(s).is_ok()
}

/// The description of a refused header value, as `InvalidHeaderValue`
/// displays it.
pub open spec fn invalid_header_message(what: Seq<char>) -> Seq<char> {
    "Invalid "@ + what + ", Error: failed to parse header value"@
}

fn invalid_header_error(what: &str) -> (e: ApiError)
    ensures
        e matches ApiError::UnknownError(m) && m@ == invalid_header_message(what@),
{
    let mut m = "Invalid ".to_owned();
    push_str(&mut m, what);
    push_str(&mut m, ", Error: failed to parse header value");
    ApiError::UnknownError(m)
}

/// The origins allowed to call the service: the public address, when one is
/// set, and the domain name; each must be a valid header value.
pub fn cors_origins(config: &ServerConfig) -> (r: ApiResult<Vec<String>>)
    ensures
        !header_value_text(config@.domain_name) ==> (r matches Err(ApiError::UnknownError(m))
            && m@ == invalid_header_message("domain url"@)),
        header_value_text(config@.domain_name) ==> match config@.public_addr {
            None => r matches Ok(v) && v@.len() == 1 && v@[0]@ == config@.domain_name,
            Some(a) => if header_value_text(url_of(config@.schema, a)) {
                r matches Ok(v) && v@.len() == 2 && v@[0]@ == url_of(config@.schema, a)
                    && v@[1]@ == config@.domain_name
            } else {
                r matches Err(ApiError::UnknownError(m)) && m@ == invalid_header_message("public_addr"@)
            },
        },
{
    let domain = config.domain_name();
    if !header_value_ok(domain) {
        return Err(invalid_header_error("domain url"));
    }
    let mut v: Vec<String> = Vec::new();
    match config.get_public_addr() {
        Some(public_addr) => {
            if !header_value_ok(public_addr.as_str()) {
                return Err(invalid_header_error("public_addr"));
            }
            v.push(public_addr);
            v.push(domain.to_owned());
        },
        None => {
            v.push(domain.to_owned());
        },
    }
    Ok(v)
}

} // verus!
