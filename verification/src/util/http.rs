//! Reading the secret out of an HTTP `Authorization` header.

use crate::error::{invalid_input_error, invalid_input_message, ApiError, ApiResult};
use crate::text::str_from_utf8;
use crate::util::secret::Secret;
use vstd::prelude::*;
use vstd::string::StringSliceAdditionalSpecFns;

verus! {

/// How `parse_basic_auth` reads the bytes of an `Authorization` header: the
/// first six bytes (the length of `Basic `) are skipped, then any spaces; what
/// remains is the secret, which must be valid UTF-8 and not empty.
pub open spec fn auth_secret_bytes(header: Seq<u8>) -> Option<Seq<u8>> {
    let rest = header.skip(6);
    if forall|i: int| 0 <= i < rest.len() ==> #[trigger] rest[i] == 32u8 {
        None
    } else {
        let p = choose|p: int| 0 <= p < rest.len() && rest[p] != 32u8 && forall|i: int| 0 <= i < p ==> #[trigger] rest[i] == 32u8;
        Some(rest.skip(p))
    }
}

/// Reads the secret of a request from the bytes of its `Authorization`
/// header, if it has one.  A header of nothing but spaces after its first six
/// bytes is refused, and so is a secret that is not UTF-8.
pub fn parse_basic_auth(authorization: Option<&[u8]>) -> (r: ApiResult<Option<Secret>>)
    requires
        authorization matches Some(h) ==> h@.len() >= 6,
    ensures
        authorization is None ==> r matches Ok(None),
        authorization matches Some(h) ==> match auth_secret_bytes(h@) {
            None => r matches Err(ApiError::InvalidInputError(m)) && m@ == invalid_input_message(
                "Authorization"@,
                "Invalid auth header"@,
            ),
            Some(b) => if vstd::utf8::valid_utf8(b) {
                r matches Ok(Some(s)) && s@ == vstd::utf8::decode_utf8(b)
            } else {
                r matches Err(ApiError::InvalidInputError(m)) && m@ == invalid_input_message(
                    "Authorization"@,
                    "invalid auth header"@,
                )
            },
        },
{
    match authorization {
        None => Ok(None),
        Some(header) => {
            let ghost rest = header@.skip(6);
            let mut p: usize = 6;
            while p < header.len() && header[p] == 32u8
                invariant
                    6 <= p <= header@.len(),
                    rest == header@.skip(6),
                    forall|i: int| 0 <= i < p - 6 ==> #[trigger] rest[i] == 32u8,
                decreases header@.len() - p,
            {
                p = p + 1;
            }
            if p == header.len() {
                return Err(invalid_input_error("Authorization", "Invalid auth header"));
            }
            assert(rest[p - 6] != 32u8);
            let ghost chosen = choose|q: int| 0 <= q < rest.len() && rest[q] != 32u8 && forall|i: int| 0 <= i < q ==> #[trigger] rest[i] == 32u8;
            assert(chosen == p - 6) by {
                if chosen < p - 6 {
                    assert(rest[chosen] == 32u8);
                } else if chosen > p - 6 {
                    assert(rest[p - 6] == 32u8);
                }
            }
            let mut bytes: Vec<u8> = Vec::new();
            let mut i = p;
            while i < header.len()
                invariant
                    p <= i <= header@.len(),
                    bytes@ == header@.subrange(p as int, i as int),
                decreases header@.len() - i,
            {
                bytes.push(header[i]);
                assert(header@.subrange(p as int, i as int).push(header@[i as int]) =~= header@.subrange(p as int, i + 1));
                i = i + 1;
            }
            assert(bytes@ =~= rest.skip(p - 6));
            match str_from_utf8(bytes.as_slice()) {
                Some(s) => {
                    proof {
                        vstd::utf8::encode_utf8_decode_utf8(s@);
                    }
                    Ok(Some(Secret::new(s.to_owned())))
                },
                None => Err(invalid_input_error("Authorization", "invalid auth header")),
            }
        },
    }
}

} // verus!
