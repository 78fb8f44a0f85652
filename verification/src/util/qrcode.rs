//! QR codes of download links, drawn as text and sent base64-encoded.

use crate::error::{ApiError, ApiResult};
use base64::Engine;
use vstd::prelude::*;

verus! {

#[verifier::external_type_specification]
#[verifier::external_body]
pub struct ExQrError(qrcode::types::QrError);

/// The QR code of a text's UTF-8 bytes, drawn with `char` pixels, without a
/// quiet zone, each module two characters wide and one high; `None` where the
/// data does not fit in a QR code.
pub uninterp spec fn qr_picture(text: Seq<char>) -> Option<Seq<char>>;

/// The character of a six-bit value in the standard base64 alphabet
/// (RFC 4648): `A`-`Z`, `a`-`z`, `0`-`9`, `+`, `/`.
pub open spec fn base64_digit(v: int) -> char {
    if v < 26 {
        (65 + v) as char
    } else if v < 52 {
        (97 + v - 26) as char
    } else if v < 62 {
        (48 + v - 52) as char
    } else if v == 62 {
        '+'
    } else {
        '/'
    }
}

/// Standard base64 with padding (RFC 4648): each group of three bytes becomes
/// four characters; a last group of one or two bytes is padded with `=`.
pub open spec fn base64_standard(b: Seq<u8>) -> Seq<char>
    decreases b.len(),
{
    if b.len() == 0 {
        seq![]
    } else {
        let x = b[0] as int;
        let y = if b.len() > 1 { b[1] as int } else { 0 };
        let z = if b.len() > 2 { b[2] as int } else { 0 };
        let c0 = base64_digit(x / 4);
        let c1 = base64_digit((x % 4) * 16 + y / 16);
        let c2 = base64_digit((y % 16) * 4 + z / 64);
        let c3 = base64_digit(z % 64);
        if b.len() == 1 {
            seq![c0, c1, '=', '=']
        } else if b.len() == 2 {
            seq![c0, c1, c2, '=']
        } else {
            seq![c0, c1, c2, c3] + base64_standard(b.skip(3))
        }
    }
}

/// Standard base64 of a text's UTF-8 bytes.
pub open spec fn base64_text(text: Seq<char>) -> Seq<char> {
    base64_standard(vstd::utf8::encode_utf8(text))
}

/// Draws the QR code of `text` with `QrCode::new` and its text renderer
/// (`render::<char>().quiet_zone(false).module_dimensions(2, 1).build()`).
/// Trusted: success and the picture are what `qr_picture` names for the text.
#[verifier::external_body]
fn render_qr_text(text: &str) -> (r: Result<String, qrcode::types::QrError>)
    ensures
        r is Ok <==> qr_picture(text@) is Some,
        r matches Ok(p) ==> qr_picture(text@) == Some(p@),
{
    let code = qrcode::QrCode::new(text.as_bytes())?;
    Ok(code.render::<char>().quiet_zone(false).module_dimensions(2, 1).build())
}

/// The description of a QR code error, by its `Display`.  Nothing is stated
/// of the text: the error is opaque here.
#[verifier::external_body]
fn qr_error_text(e: &qrcode::types::QrError) -> (r: String) {
    e.to_string()
}

/// Encodes a text in standard base64 with `base64::engine::general_purpose::STANDARD`.
/// Trusted: the result is the text's UTF-8 bytes in standard base64 with
/// padding, as the `STANDARD` engine's documentation states.
#[verifier::external_body]
fn base64_encode(text: &str) -> (r: String)
    ensures
        r@ == base64_text(text@),
{
    base64::engine::general_purpose::STANDARD.encode(text)
}

/// Turns a drawn QR code into the text sent to clients: the picture in base64,
/// or a QR code error.
pub fn encode_rendered(rendered: Result<String, qrcode::types::QrError>) -> (r: ApiResult<String>)
    ensures
        match rendered {
            Ok(p) => r matches Ok(s) && s@ == base64_text(p@),
            Err(_) => r matches Err(ApiError::QrCodeError(_)),
        },
{
    match rendered {
        Ok(p) => Ok(base64_encode(p.as_str())),
        Err(e) => Err(ApiError::QrCodeError(qr_error_text(&e))),
    }
}

/// The QR code of `text`, drawn as text and encoded in base64.
pub fn encode(text: &str) -> (r: ApiResult<String>)
    ensures
        match qr_picture(text@) {
            Some(p) => r matches Ok(s) && s@ == base64_text(p),
            None => r matches Err(ApiError::QrCodeError(_)),
        },
{
    encode_rendered(render_qr_text(text))
}

} // verus!
