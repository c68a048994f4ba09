//! The identity resolver: a display name for the owner of a token, read from
//! the unverified claims of its ID token, with the local account as fallback.

use vstd::prelude::*;
use vstd::utf8::encode_utf8;
use vstd::slice::{slice_subrange, slice_to_vec};
use base64::engine::general_purpose;
use base64::Engine;
use crate::token::TokenResponse;
use crate::text::text_of;

verus! {

/// The byte that separates the segments of an ID token.
pub const SEGMENT_SEPARATOR: u8 = 0x2e;

/// One claim of a JSON document, as far as the resolver reads it.
#[derive(Debug)]
pub enum Claim {
    /// The document has no such member; it may be no object, or no JSON at all.
    Absent,
    /// The member is there but is not a string.
    NotText,
    /// The member is this string.
    Text(String),
}

/// Mathematical value of a [`Claim`].
pub enum ClaimModel {
    Absent,
    NotText,
    Text(Seq<char>),
}

impl View for Claim {
    type V = ClaimModel;

    open spec fn view(&self) -> ClaimModel {
        match self {
            Claim::Absent => ClaimModel::Absent,
            Claim::NotText => ClaimModel::NotText,
            Claim::Text(s) => ClaimModel::Text(s@),
        }
    }
}

/// What URL-safe unpadded base64 text decodes to, if it is well formed.
pub uninterp spec fn base64url_decoded(text: Seq<u8>) -> Option<Seq<u8>>;

/// The member `key` of the JSON document `doc`.
pub uninterp spec fn json_claim_of(doc: Seq<u8>, key: Seq<char>) -> ClaimModel;

/// Decodes with `base64`'s `URL_SAFE_NO_PAD` engine; `None` where the engine
/// reports a decode error.
#[verifier::external_body]
fn base64url_decode(text: &[u8]) -> (bytes: Option<Vec<u8>>)
    ensures
        match bytes {
            Some(b) => base64url_decoded(text@) == Some(b@),
            None => base64url_decoded(text@) is None,
        },
{
    general_purpose::URL_SAFE_NO_PAD.decode(text).ok()
}

/// Parses `doc` with `serde_json::from_slice` into a `Value` and looks `key` up
/// with `Value::get`. A document that does not parse has no members.
#[verifier::external_body]
fn json_claim(doc: &[u8], key: &str) -> (claim: Claim)
    ensures
        claim@ == json_claim_of(doc@, key@),
{
    match serde_json::from_slice::<serde_json::Value>(doc) {
        Ok(value) => match value.get(key) {
            Some(serde_json::Value::String(s)) => Claim::Text(s.clone()),
            Some(_) => Claim::NotText,
            None => Claim::Absent,
        },
        Err(_) => Claim::Absent,
    }
}

/// The least index at or after `from` that holds `b`, or the length if there is none.
pub open spec fn first_at(s: Seq<u8>, b: u8, from: nat) -> nat
    decreases s.len() - from,
{
    if from >= s.len() {
        s.len()
    } else if s[from as int] == b {
        from
    } else {
        first_at(s, b, from + 1)
    }
}

/// [`first_at`] lies between its start and the length, holds `b` unless it is
/// the length, and nothing before it does.
pub proof fn first_at_is_first(s: Seq<u8>, b: u8, from: nat)
    requires
        from <= s.len(),
    ensures
        from <= first_at(s, b, from) <= s.len(),
        first_at(s, b, from) < s.len() ==> s[first_at(s, b, from) as int] == b,
        forall|i: int| from <= i < first_at(s, b, from) ==> s[i] != b,
    decreases s.len() - from,
{
    if from < s.len() && s[from as int] != b {
        first_at_is_first(s, b, from + 1);
    }
}

/// The second of the segments that the separator divides a token into: what
/// stands between the first separator and the next one, or the end. A token
/// without a separator has none.
pub open spec fn middle_segment_of(token: Seq<u8>) -> Option<Seq<u8>> {
    let d: nat = first_at(token, 0x2e, 0);
    if d >= token.len() {
        None
    } else {
        Some(token.subrange((d + 1) as int, first_at(token, 0x2e, d + 1) as int))
    }
}

/// Finds the first occurrence of `b` at or after `from`.
pub fn find_byte(s: &[u8], b: u8, from: usize) -> (at: usize)
    requires
        from <= s@.len(),
    ensures
        at == first_at(s@, b, from as nat),
        from <= at <= s@.len(),
        at < s@.len() ==> s@[at as int] == b,
        forall|i: int| from <= i < at ==> s@[i] != b,
{
    proof {
        first_at_is_first(s@, b, from as nat);
    }
    let mut i: usize = from;
    while i < s.len() && s[i] != b
        invariant
            from <= i <= s@.len(),
            first_at(s@, b, from as nat) == first_at(s@, b, i as nat),
        decreases s@.len() - i,
    {
        i += 1;
    }
    i
}

/// Cuts the middle segment out of a token.
pub fn middle_segment(token: &[u8]) -> (segment: Option<Vec<u8>>)
    ensures
        match segment {
            Some(s) => middle_segment_of(token@) == Some(s@),
            None => middle_segment_of(token@) is None,
        },
{
    let d: usize = find_byte(token, SEGMENT_SEPARATOR, 0);
    if d >= token.len() {
        None
    } else {
        let e: usize = find_byte(token, SEGMENT_SEPARATOR, d + 1);
        Some(slice_to_vec(slice_subrange(token, d + 1, e)))
    }
}

/// The claim that names the user: the first of the three that is present.
pub open spec fn chosen_claim(preferred: ClaimModel, upn: ClaimModel, email: ClaimModel) -> ClaimModel {
    if !(preferred is Absent) {
        preferred
    } else if !(upn is Absent) {
        upn
    } else {
        email
    }
}

/// The user named by three claims: the text of the first present one, and
/// nobody if that one is not a string.
pub open spec fn named_user(preferred: ClaimModel, upn: ClaimModel, email: ClaimModel) -> Option<Seq<char>> {
    match chosen_claim(preferred, upn, email) {
        ClaimModel::Text(s) => Some(s),
        _ => None,
    }
}

/// Picks the user name out of the claims `preferred_username`, `upn` and `email`.
pub fn pick_username(preferred: Claim, upn: Claim, email: Claim) -> (user: Option<String>)
    ensures
        text_of(user) == named_user(preferred@, upn@, email@),
{
    let chosen = match preferred {
        Claim::Absent => match upn {
            Claim::Absent => email,
            other => other,
        },
        other => other,
    };
    match chosen {
        Claim::Text(s) => Some(s),
        _ => None,
    }
}

/// The user that the claims document `doc` names.
pub open spec fn user_in_claims(doc: Seq<u8>) -> Option<Seq<char>> {
    named_user(
        json_claim_of(doc, "preferred_username"@),
        json_claim_of(doc, "upn"@),
        json_claim_of(doc, "email"@),
    )
}

/// The user that an ID token names: its middle segment, decoded as unpadded
/// URL-safe base64, read as a claims document.
pub open spec fn user_in_id_token(id_token: Option<Seq<char>>) -> Option<Seq<char>> {
    match id_token {
        None => None,
        Some(t) => match middle_segment_of(encode_utf8(t)) {
            None => None,
            Some(segment) => match base64url_decoded(segment) {
                None => None,
                Some(doc) => user_in_claims(doc),
            },
        },
    }
}

/// The local account name: the first of the two that is known, else `unknown`.
pub open spec fn local_account(username: Option<Seq<char>>, user: Option<Seq<char>>) -> Seq<char> {
    match username {
        Some(u) => u,
        None => match user {
            Some(u) => u,
            None => "unknown"@,
        },
    }
}

/// The user a token is resolved to: the one its ID token names, else the
/// local account.
pub open spec fn resolved_user(
    id_token: Option<Seq<char>>,
    os_username: Option<Seq<char>>,
    os_user: Option<Seq<char>>,
) -> Seq<char> {
    match user_in_id_token(id_token) {
        Some(u) => u,
        None => local_account(os_username, os_user),
    }
}

/// Reads the user out of an ID token, without verifying its signature.
pub fn user_from_id_token(id_token: &str) -> (user: Option<String>)
    ensures
        text_of(user) == user_in_id_token(Some(id_token@)),
{
    match middle_segment(id_token.as_bytes()) {
        None => None,
        Some(segment) => match base64url_decode(segment.as_slice()) {
            None => None,
            Some(doc) => {
                let preferred = json_claim(doc.as_slice(), "preferred_username");
                let upn = json_claim(doc.as_slice(), "upn");
                let email = json_claim(doc.as_slice(), "email");
                pick_username(preferred, upn, email)
            },
        },
    }
}

/// Resolves the user of a token: the one its ID token names, else the local
/// account, given as the values of the environment's `USERNAME` and `USER`.
pub fn extract_user_from_id_token_or_os(
    tr: &TokenResponse,
    os_username: Option<String>,
    os_user: Option<String>,
) -> (user: String)
    ensures
        user@ == resolved_user(tr@.id_token, text_of(os_username), text_of(os_user)),
{
    let claimed = match &tr.id_token {
        Some(t) => user_from_id_token(t.as_str()),
        None => None,
    };
    match claimed {
        Some(u) => u,
        None => match os_username {
            Some(u) => u,
            None => match os_user {
                Some(u) => u,
                None => String::from_str("unknown"),
            },
        },
    }
}

} // verus!
