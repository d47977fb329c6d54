//! Text forms of binary values: base64url without padding, and plain text
//! comparison.

use base64::engine::general_purpose::URL_SAFE_NO_PAD;
use base64::Engine;
use vstd::prelude::*;

verus! {

/// The base64url text, without padding, of a byte string: what the `base64`
/// crate's `URL_SAFE_NO_PAD` engine encodes it to.
pub uninterp spec fn base64url_encoding(bytes: Seq<u8>) -> Seq<char>;

/// What the `base64` crate's `URL_SAFE_NO_PAD` engine makes of a text: the
/// bytes it stands for, or the decoder's complaint.
pub uninterp spec fn base64url_decoding(text: Seq<char>) -> Result<Seq<u8>, Seq<char>>;

/// The longest byte string whose base64 text still has a length that fits in
/// `usize`.
pub open spec fn max_encodable_len() -> nat {
    (usize::MAX / 4 * 3) as nat
}

/// Encodes with `Engine::encode` on `URL_SAFE_NO_PAD`. The text is
/// [`base64url_encoding`] of the bytes. The engine panics where the length of
/// the text would overflow `usize`, so such inputs are left out.
#[verifier::external_body]
pub(crate) fn base64url_encode(bytes: &Vec<u8>) -> (text: String)
    requires
        bytes@.len() <= max_encodable_len(),
    ensures
        text@ == base64url_encoding(bytes@),
{
    URL_SAFE_NO_PAD.encode(bytes)
}

/// Decodes with `Engine::decode` on `URL_SAFE_NO_PAD`. The outcome is
/// [`base64url_decoding`] of the text; a failure is handed on as the text of
/// the decoder's error.
#[verifier::external_body]
pub(crate) fn base64url_decode(text: &str) -> (decoded: Result<Vec<u8>, String>)
    ensures
        match decoded {
            Ok(bytes) => base64url_decoding(text@) == Ok::<Seq<u8>, Seq<char>>(bytes@),
            Err(complaint) => base64url_decoding(text@) == Err::<Seq<u8>, Seq<char>>(complaint@),
        },
{
    URL_SAFE_NO_PAD.decode(text).map_err(|e| e.to_string())
}

/// Whether two texts are the same.
pub fn same_text(a: &str, b: &str) -> (same: bool)
    ensures
        same == (a@ == b@),
{
    a.to_owned() == b.to_owned()
}

} // verus!
