//! The avatar upload payload: image bytes, base64-encoded.

use vstd::prelude::*;

use crate::forgejo::{ForgejoUpdateUserAvatarRequest, ForgejoUpdateUserAvatarRequestView};

verus! {

/// The padded, standard-alphabet base64 encoding of a byte sequence.
pub uninterp spec fn base64_standard_of(bytes: Seq<u8>) -> Seq<char>;

/// Whether a byte count is small enough for its base64 encoding to fit in
/// memory: four output characters for every three input bytes.
pub open spec fn spec_encodable(len: nat) -> bool {
    len <= 3 * (usize::MAX as int / 4)
}

/// Exec mirror of [`spec_encodable`].
pub fn encodable(bytes: &Vec<u8>) -> (r: bool)
    ensures
        r == spec_encodable(bytes@.len()),
{
    bytes.len() <= (usize::MAX / 4) * 3
}

/// Relies on base64's `Engine::encode` with the `general_purpose::STANDARD`
/// engine: the result is the padded standard-alphabet encoding, a function
/// of the input bytes alone, four characters for every whole or partial
/// group of three input bytes. The length bound rules out the input sizes
/// on which the engine could not size its output buffer.
#[verifier::external_body]
fn base64_encode(bytes: &Vec<u8>) -> (r: String)
    requires
        spec_encodable(bytes@.len()),
    ensures
        r@ == base64_standard_of(bytes@),
        r@.len() == 4 * ((bytes@.len() + 2) / 3),
{
    base64::Engine::encode(&base64::engine::general_purpose::STANDARD, bytes)
}

/// The avatar upload payload for the given image bytes.
pub open spec fn spec_avatar_request(bytes: Seq<u8>) -> ForgejoUpdateUserAvatarRequestView {
    ForgejoUpdateUserAvatarRequestView { image: base64_standard_of(bytes) }
}

/// Exec image of [`spec_avatar_request`].
pub fn build_avatar_request(bytes: &Vec<u8>) -> (r: ForgejoUpdateUserAvatarRequest)
    requires
        spec_encodable(bytes@.len()),
    ensures
        r@ == spec_avatar_request(bytes@),
{
    ForgejoUpdateUserAvatarRequest { image: base64_encode(bytes) }
}

} // verus!
