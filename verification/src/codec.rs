//! Bridges to the outside encoders — base32 for secret text encodings,
//! base64 and QR rendering for the scannable enrollment image — and the
//! verified assembly of the image data URL.

use vstd::prelude::*;
use base64::Engine;
use crate::error::MfaError;

verus! {

/// What RFC 4648 base32 encoding (no padding) returns for a byte sequence.
pub uninterp spec fn base32_of(bytes: Seq<u8>) -> Seq<char>;

/// What RFC 4648 base32 decoding (no padding) returns for a string: the
/// bytes, or nothing when the string is not a valid encoding.
pub uninterp spec fn base32_decode_of(s: Seq<char>) -> Option<Seq<u8>>;

/// Relies on `totp_rs::Secret::to_encoded` on a raw secret, which encodes
/// the bytes as RFC 4648 base32 without padding: a function of the bytes
/// alone, eight characters for each full five-byte group and a shortened
/// final group, so the length is exactly `(8n + 4) / 5`.
#[verifier::external_body]
pub(crate) fn base32_encode(bytes: &Vec<u8>) -> (r: String)
    ensures
        r@ == base32_of(bytes@),
        r@.len() == (bytes@.len() * 8 + 4) / 5,
{
    totp_rs::Secret::Raw(bytes.clone()).to_encoded().to_string()
}

/// Relies on `totp_rs::Secret::to_bytes` on an encoded secret, which decodes
/// RFC 4648 base32 without padding: the outcome is a function of the string
/// alone, and decoding fails exactly when the string is not a valid
/// encoding.
#[verifier::external_body]
pub(crate) fn base32_decode(s: &str) -> (r: Option<Vec<u8>>)
    ensures
        r matches Some(b) ==> base32_decode_of(s@) == Some(b@),
        r is None ==> base32_decode_of(s@) is None,
{
    match totp_rs::Secret::Encoded(s.to_string()).to_bytes() {
        Ok(b) => Some(b),
        Err(_) => None,
    }
}

/// What standard base64 encoding returns for a string's UTF-8 bytes.
pub uninterp spec fn base64_of(s: Seq<char>) -> Seq<char>;

/// Relies on `base64::engine::general_purpose::STANDARD`: the encoding is a
/// function of the input bytes alone.
#[verifier::external_body]
fn base64_encode(s: &str) -> (r: String)
    ensures
        r@ == base64_of(s@),
{
    base64::engine::general_purpose::STANDARD.encode(s.as_bytes())
}

/// What the SVG rendering of the QR code for a string looks like, at the
/// fixed dimensions and colors this library asks for.
pub uninterp spec fn qr_svg_of(s: Seq<char>) -> Seq<char>;

/// Whether the QR encoder can hold a string. The encoder's success is
/// deterministic in the data alone: it fails exactly when the data exceeds
/// the largest code's capacity.
pub uninterp spec fn qr_encodable(s: Seq<char>) -> bool;

/// Relies on `qrcode::QrCode::new` and its SVG renderer: both are functions
/// of the encoded string alone. Construction succeeds exactly when the data
/// fits the QR capacity — the condition named `qr_encodable` — and then the
/// rendering at this library's fixed options is `qr_svg_of` the data.
#[verifier::external_body]
fn qr_svg(data: &str) -> (r: Option<String>)
    ensures
        r is Some <==> qr_encodable(data@),
        r matches Some(svg) ==> svg@ == qr_svg_of(data@),
{
    match qrcode::QrCode::new(data) {
        Ok(code) => Some(
            code.render::<qrcode::render::svg::Color>()
                .min_dimensions(200, 200)
                .dark_color(qrcode::render::svg::Color("#000000"))
                .light_color(qrcode::render::svg::Color("#FFFFFF"))
                .build(),
        ),
        Err(_) => None,
    }
}

/// The data URL wrapping an SVG body for inline display.
pub open spec fn data_url_spec(svg: Seq<char>) -> Seq<char> {
    "data:image/svg+xml;base64,"@ + base64_of(svg)
}

/// Wraps an SVG body as a base64 `data:` URL.
pub fn svg_data_url(svg: &str) -> (r: String)
    ensures
        r@ == data_url_spec(svg@),
{
    let mut out = String::from_str("data:image/svg+xml;base64,");
    let encoded = base64_encode(svg);
    out.append(encoded.as_str());
    proof {
        assert(out@ =~= data_url_spec(svg@));
    }
    out
}

/// Renders `data` as a QR code and wraps the SVG as a data URL; succeeds
/// exactly when the data fits the QR capacity, and fails with the
/// image-construction error otherwise.
pub fn qr_code_data_url(data: &str) -> (r: Result<String, MfaError>)
    ensures
        r is Ok <==> qr_encodable(data@),
        r matches Ok(u) ==> u@ == data_url_spec(qr_svg_of(data@)),
        r matches Err(e) ==> e == MfaError::QrCodeFailed,
{
    match qr_svg(data) {
        Some(svg) => Ok(svg_data_url(svg.as_str())),
        None => Err(MfaError::QrCodeFailed),
    }
}

} // verus!
