//! Basic input validation the bridge applies before forwarding a request to
//! the native side.

use vstd::prelude::*;

use base64::Engine;

use crate::models::{ConnectNativeCallRequest, EncryptionKey};
use crate::text::{is_blank, text_is_blank};

verus! {

#[verifier::external_type_specification]
#[verifier::external_body]
pub struct ExDecodeError(base64::DecodeError);

/// The bytes that base64 decoding `input` with the standard alphabet and
/// canonical padding yields, or `None` where the input is not such base64.
pub uninterp spec fn base64_standard_decoding(input: Seq<char>) -> Option<Seq<u8>>;

/// The view of a decoding outcome: the decoded bytes, or `None` on error.
pub open spec fn decoded_bytes(decoded: &core::result::Result<Vec<u8>, base64::DecodeError>) -> Option<Seq<u8>> {
    match decoded {
        Ok(bytes) => Some(bytes@),
        Err(_) => None,
    }
}

/// Calls `base64::engine::general_purpose::STANDARD.decode` on the text's
/// bytes. The contract claims only that the outcome is a function of the
/// input text: equal texts decode to equal bytes or fail alike.
#[verifier::external_body]
fn decode_base64_standard(input: &str) -> (r: core::result::Result<Vec<u8>, base64::DecodeError>)
    ensures
        decoded_bytes(&r) == base64_standard_decoding(input@),
{
    base64::engine::general_purpose::STANDARD.decode(input.as_bytes())
}

/// Key material is acceptable given its decoding: a nonblank identity and
/// a decoding that succeeded with at least one byte. The byte length is
/// otherwise unconstrained.
pub open spec fn key_material_valid_given(identity: Seq<char>, decoded: Option<Seq<u8>>) -> bool {
    &&& !is_blank(identity)
    &&& decoded matches Some(bytes) && bytes.len() > 0
}

/// An E2EE key is well-formed when its identity is nonblank and `key` is
/// standard base64 that decodes to nonempty bytes.
pub open spec fn key_material_valid(identity: Seq<char>, key: Seq<char>) -> bool {
    key_material_valid_given(identity, base64_standard_decoding(key))
}

/// Whether key material is acceptable, given the outcome of decoding it.
pub fn decoded_key_material_is_valid(
    identity: &str,
    decoded: &core::result::Result<Vec<u8>, base64::DecodeError>,
) -> (r: bool)
    ensures
        r == key_material_valid_given(identity@, decoded_bytes(decoded)),
{
    if text_is_blank(identity) {
        return false;
    }
    match decoded {
        Ok(bytes) => bytes.len() > 0,
        Err(_) => false,
    }
}

/// An E2EE key is well-formed when its identity is nonblank and `key` is
/// base64 that decodes to nonempty bytes.
pub fn encryption_key_material_is_valid(identity: &str, key: &str) -> (r: bool)
    ensures
        r == key_material_valid(identity@, key@),
{
    if text_is_blank(identity) {
        return false;
    }
    let decoded = decode_base64_standard(key);
    decoded_key_material_is_valid(identity, &decoded)
}

/// A call id is valid when it is not blank.
pub open spec fn call_id_valid(call_id: Seq<char>) -> bool {
    !is_blank(call_id)
}

/// Whether `call_id` is nonblank.
pub fn call_id_is_valid(call_id: &str) -> (r: bool)
    ensures
        r == call_id_valid(call_id@),
{
    !text_is_blank(call_id)
}

/// Every key of `keys` is well-formed.
pub open spec fn all_keys_valid(keys: Seq<EncryptionKey>) -> bool {
    forall|i: int| 0 <= i < keys.len() ==> #[trigger] key_material_valid(keys[i].identity@, keys[i].key@)
}

/// A connect request is valid when its call id, url and token are nonblank
/// and every initial encryption key is well-formed.
pub open spec fn connect_request_valid(request: &ConnectNativeCallRequest) -> bool {
    &&& !is_blank(request.call_id@)
    &&& !is_blank(request.url@)
    &&& !is_blank(request.token@)
    &&& all_keys_valid(request.encryption_keys@)
}

/// Whether a connect request may be forwarded to the native side.
pub fn connect_request_is_valid(request: &ConnectNativeCallRequest) -> (r: bool)
    ensures
        r == connect_request_valid(request),
{
    if text_is_blank(request.call_id.as_str()) || text_is_blank(request.url.as_str())
        || text_is_blank(request.token.as_str()) {
        return false;
    }
    let n = request.encryption_keys.len();
    let mut i: usize = 0;
    while i < n
        invariant
            n == request.encryption_keys@.len(),
            i <= n,
            forall|j: int|
                0 <= j < i ==> #[trigger] key_material_valid(
                    request.encryption_keys@[j].identity@,
                    request.encryption_keys@[j].key@,
                ),
        decreases n - i,
    {
        let key = &request.encryption_keys[i];
        if !encryption_key_material_is_valid(key.identity.as_str(), key.key.as_str()) {
            return false;
        }
        i = i + 1;
    }
    true
}

} // verus!

verus! {

/// Key material with a nonblank identity is acceptable exactly when it
/// decodes to at least one byte: any decoded length from one byte up is
/// accepted. A blank identity or a failed decoding is never acceptable.
pub proof fn lemma_key_material_accepts_any_nonempty_decoding(identity: Seq<char>, bytes: Seq<u8>)
    ensures
        !is_blank(identity) ==> (key_material_valid_given(identity, Some(bytes)) <==> bytes.len()
            > 0),
        is_blank(identity) ==> !key_material_valid_given(identity, Some(bytes)),
        !key_material_valid_given(identity, None),
{
}

} // verus!
