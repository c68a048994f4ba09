//! The profile photo of the signed-in user as a data URL.

use vstd::prelude::*;
use base64::engine::general_purpose;
use base64::Engine;
use crate::text::text_of;

verus! {

/// The standard base64 text of a byte string, with padding.
pub uninterp spec fn base64_standard(data: Seq<u8>) -> Seq<char>;

/// Encodes with `base64`'s `STANDARD` engine; the text is named by [`base64_standard`].
#[verifier::external_body]
fn base64_encode(data: &[u8]) -> (text: String)
    ensures
        text@ == base64_standard(data@),
{
    general_purpose::STANDARD.encode(data)
}

/// The data URL of a photo answer: only status 200 carries a photo; a missing
/// content type counts as `image/jpeg`.
pub open spec fn photo_url_of(status: u16, content_type: Option<Seq<char>>, body: Seq<u8>) -> Option<
    Seq<char>,
> {
    if status == 200 {
        Some(
            "data:"@ + (match content_type {
                Some(t) => t,
                None => "image/jpeg"@,
            }) + ";base64,"@ + base64_standard(body),
        )
    } else {
        None
    }
}

/// Turns the answer of the photo endpoint into a data URL, if it carries a photo.
pub fn fetch_user_photo(status: u16, content_type: Option<String>, body: &[u8]) -> (url: Option<String>)
    ensures
        text_of(url) == photo_url_of(status, text_of(content_type), body@),
{
    if status == 200 {
        let kind = match content_type {
            Some(t) => t,
            None => String::from_str("image/jpeg"),
        };
        let encoded = base64_encode(body);
        let mut url = String::from_str("data:");
        url.append(kind.as_str());
        url.append(";base64,");
        url.append(encoded.as_str());
        Some(url)
    } else {
        None
    }
}

} // verus!
