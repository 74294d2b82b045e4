//! Registry login: the host to log in to and the password carried by the
//! registry's authorization token.
use vstd::prelude::*;
use vstd::utf8::{decode_utf8, valid_utf8};
use base64::Engine;
use crate::errors::EcsHelperVarietyError;
use crate::text::{concat, first_segment, is_first_segment};

verus! {

/// The error of base64's decoding; carried to the caller's match and never
/// looked into.
#[verifier::external_type_specification]
#[verifier::external_body]
pub struct ExDecodeError(base64::DecodeError);

/// The bytes that a text in standard, padded base64 stands for; none when
/// the text is not such base64.
pub uninterp spec fn base64_decoded(text: Seq<char>) -> Option<Seq<u8>>;

/// Relies on base64's `Engine::decode` with the standard alphabet and
/// padding: the decoded bytes, or an error for text that is not valid base64.
#[verifier::external_body]
fn decode_base64(text: &str) -> (r: Result<Vec<u8>, base64::DecodeError>)
    ensures
        match r {
            Ok(b) => base64_decoded(text@) == Some(b@),
            Err(_) => base64_decoded(text@) is None,
        },
{
    base64::engine::GeneralPurpose::new(
        &base64::alphabet::STANDARD,
        base64::engine::general_purpose::PAD,
    ).decode(text)
}

/// Relies on `String::from_utf8`: the text the bytes encode when they are
/// valid UTF-8, and nothing otherwise.
#[verifier::external_body]
fn text_of_utf8(bytes: Vec<u8>) -> (r: Option<String>)
    ensures
        match r {
            Some(s) => valid_utf8(bytes@) && s@ == decode_utf8(bytes@),
            None => !valid_utf8(bytes@),
        },
{
    String::from_utf8(bytes).ok()
}

/// `p` is the second `:`-separated field of `t`, which has at least one `:`.
pub open spec fn is_second_field(t: Seq<char>, p: Seq<char>) -> bool {
    exists|k: int|
        0 <= k < t.len() && is_first_segment(t, ':', #[trigger] t.subrange(0, k)) && is_first_segment(
            t.subrange(k + 1, t.len() as int),
            ':',
            p,
        )
}

/// The password in a registry authorization token: the token is base64 of
/// `user:password`, and the password is the field after the first `:`, up to
/// the next one.
pub fn password_from_token(token: &str) -> (r: Result<String, EcsHelperVarietyError>)
    ensures
        match base64_decoded(token@) {
            None => r == Err::<String, EcsHelperVarietyError>(
                EcsHelperVarietyError::ParseTokenError,
            ),
            Some(b) => if !valid_utf8(b) {
                r == Err::<String, EcsHelperVarietyError>(
                    EcsHelperVarietyError::ParseTokenFromUtf8Error,
                )
            } else if !decode_utf8(b).contains(':') {
                r == Err::<String, EcsHelperVarietyError>(
                    EcsHelperVarietyError::ExtractTokenError,
                )
            } else {
                r matches Ok(p) && is_second_field(decode_utf8(b), p@)
            },
        },
{
    let bytes = match decode_base64(token) {
        Ok(b) => b,
        Err(_) => {
            return Err(EcsHelperVarietyError::ParseTokenError);
        },
    };
    let text = match text_of_utf8(bytes) {
        Some(t) => t,
        None => {
            return Err(EcsHelperVarietyError::ParseTokenFromUtf8Error);
        },
    };
    let user = first_segment(text.as_str(), ':');
    let n = text.as_str().unicode_len();
    let k = user.as_str().unicode_len();
    if k >= n {
        assert forall|j: int| 0 <= j < text@.len() implies text@[j] != ':' by {
            assert(user@[j] == text@[j]);
        }
        return Err(EcsHelperVarietyError::ExtractTokenError);
    }
    let rest = text.as_str().substring_char(k + 1, n);
    let password = first_segment(rest, ':');
    assert(user@ == text@.subrange(0, k as int));
    assert(is_first_segment(text@, ':', text@.subrange(0, k as int)));
    Ok(password)
}

/// The registry host of an account in a region:
/// `{account}.dkr.ecr.{region}.amazonaws.com`.
pub fn registry_login_host(account_id: &String, region: &String) -> (r: String)
    ensures
        r@ == account_id@ + ".dkr.ecr."@ + region@ + ".amazonaws.com"@,
{
    let mut out = concat(account_id.as_str(), ".dkr.ecr.");
    out.append(region.as_str());
    out.append(".amazonaws.com");
    out
}

} // verus!
