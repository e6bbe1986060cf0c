//! How the API key is stored: masked with a fixed key, then written as
//! base64.
//!
//! The masking hides the key from a casual look at the settings file and
//! from nothing else.

use crate::types::AppSettings;
use base64::Engine;
use vstd::prelude::*;
use vstd::string::StringSliceAdditionalSpecFns;
use vstd::utf8::{decode_utf8, valid_utf8};

verus! {

/// The key with which the API key is masked.
pub const MASK: &'static str = "document_encoder_key_2024";

/// The error of the base64 crate for text that is not base64.
#[verifier::external_type_specification]
#[verifier::external_body]
pub struct ExDecodeError(base64::DecodeError);

/// What the standard engine of the base64 crate writes for `bytes`.
pub uninterp spec fn base64_text(bytes: Seq<u8>) -> Seq<char>;

/// What the standard engine of the base64 crate reads from `text`; nothing
/// where `text` is not base64.
pub uninterp spec fn base64_bytes(text: Seq<char>) -> Option<Seq<u8>>;

/// Calls `Engine::encode` of the base64 crate on its standard engine, which
/// panics where the length of the output does not fit. Not proved: that the
/// result is the named one, and that the same engine reads the bytes back
/// from it.
#[verifier::external_body]
pub(crate) fn encode_base64(bytes: &[u8]) -> (r: String)
    requires
        bytes.len() / 3 * 4 + 4 <= usize::MAX,
    ensures
        r@ == base64_text(bytes@),
        base64_bytes(r@) == Some(bytes@),
{
    base64::engine::general_purpose::STANDARD.encode(bytes)
}

/// Calls `Engine::decode` of the base64 crate on its standard engine. Not
/// proved: that the result is the named one, and that an error comes
/// exactly where there is none.
#[verifier::external_body]
pub(crate) fn decode_base64(text: &str) -> (r: Result<Vec<u8>, base64::DecodeError>)
    ensures
        match r {
            Ok(bytes) => base64_bytes(text@) == Some(bytes@),
            Err(_) => base64_bytes(text@) is None,
        },
{
    base64::engine::general_purpose::STANDARD.decode(text)
}

/// Calls `String::from_utf8` of std: the text that the bytes encode, where
/// they are UTF-8. Not proved: that std reads UTF-8 as vstd defines it.
#[verifier::external_body]
pub(crate) fn text_from_utf8(bytes: Vec<u8>) -> (r: Option<String>)
    ensures
        match r {
            Some(text) => valid_utf8(bytes@) && text@ == decode_utf8(bytes@),
            None => !valid_utf8(bytes@),
        },
{
    String::from_utf8(bytes).ok()
}

/// `bytes`, each combined by exclusive or with the byte of `mask` at the
/// same place, `mask` being repeated as often as needed. An empty mask
/// changes nothing.
pub open spec fn masked(bytes: Seq<u8>, mask: Seq<u8>) -> Seq<u8> {
    if mask.len() == 0 {
        bytes
    } else {
        Seq::new(bytes.len(), |i: int| bytes[i] ^ mask[i % (mask.len() as int)])
    }
}

/// Masks `bytes` with `mask`.
pub fn mask_bytes(bytes: &[u8], mask: &[u8]) -> (r: Vec<u8>)
    ensures
        r@ == masked(bytes@, mask@),
{
    let mut out: Vec<u8> = Vec::new();
    let mut i: usize = 0;
    while i < bytes.len()
        invariant
            i <= bytes.len(),
            out.len() == i,
            mask.len() == 0 ==> out@ == bytes@.subrange(0, i as int),
            mask.len() > 0 ==> forall|j: int|
                0 <= j < i ==> #[trigger] out[j] == bytes[j] ^ mask[j % (mask.len() as int)],
        decreases bytes.len() - i,
    {
        if mask.len() == 0 {
            out.push(bytes[i]);
            assert(out@ == bytes@.subrange(0, i + 1));
        } else {
            out.push(bytes[i] ^ mask[i % mask.len()]);
        }
        i += 1;
    }
    assert(out@ =~= masked(bytes@, mask@));
    out
}

/// Masking twice with the same mask gives the bytes back.
pub proof fn lemma_mask_twice(bytes: Seq<u8>, mask: Seq<u8>)
    ensures
        masked(masked(bytes, mask), mask) == bytes,
{
    if mask.len() > 0 {
        let once = masked(bytes, mask);
        let twice = masked(once, mask);
        assert forall|i: int| 0 <= i < bytes.len() implies twice[i] == bytes[i] by {
            let b = bytes[i];
            let m = mask[i % (mask.len() as int)];
            assert((b ^ m) ^ m == b) by (bit_vector);
        }
        assert(twice =~= bytes);
    }
}

/// Whether the API key is short enough for its stored form to be written:
/// four characters for every three bytes must fit the machine.
pub open spec fn key_fits(api_key: Seq<char>) -> bool {
    vstd::utf8::encode_utf8(api_key).len() / 3 * 4 + 4 <= usize::MAX
}

/// The stored form of the API key `api_key`.
pub open spec fn encrypted(api_key: Seq<char>) -> Seq<char> {
    base64_text(masked(vstd::utf8::encode_utf8(api_key), vstd::utf8::encode_utf8(MASK@)))
}

/// The API key that masked bytes stand for: their text where, unmasked, they
/// are UTF-8, else the empty text.
pub open spec fn unmasked_text(bytes: Seq<u8>) -> Seq<char> {
    let plain = masked(bytes, vstd::utf8::encode_utf8(MASK@));
    if valid_utf8(plain) {
        decode_utf8(plain)
    } else {
        Seq::empty()
    }
}

/// The API key that the stored form `stored` stands for. A stored form that
/// is not base64 is taken to be the key itself, as it was stored once.
pub open spec fn decrypted(stored: Seq<char>) -> Seq<char> {
    match base64_bytes(stored) {
        Some(bytes) => unmasked_text(bytes),
        None => stored,
    }
}

/// The stored form of the API key. Reading the stored form gives the key
/// back.
pub fn encrypt_api_key(api_key: &str) -> (r: String)
    requires
        key_fits(api_key@),
    ensures
        r@ == encrypted(api_key@),
        decrypted(r@) == api_key@,
{
    let masked_bytes = mask_bytes(api_key.as_bytes(), MASK.as_bytes());
    proof {
        lemma_unmask_masked(api_key@);
    }
    encode_base64(masked_bytes.as_slice())
}

/// The stored form of the API key, where its length allows one.
pub fn try_encrypt_api_key(api_key: &str) -> (r: Option<String>)
    ensures
        match r {
            Some(stored) => stored@ == encrypted(api_key@) && decrypted(stored@) == api_key@,
            None => !key_fits(api_key@),
        },
{
    if api_key.as_bytes().len() / 3 <= (usize::MAX - 4) / 4 {
        Some(encrypt_api_key(api_key))
    } else {
        None
    }
}

/// The API key that masked bytes stand for.
pub fn unmask_text(bytes: &[u8]) -> (r: String)
    ensures
        r@ == unmasked_text(bytes@),
{
    let plain = mask_bytes(bytes, MASK.as_bytes());
    match text_from_utf8(plain) {
        Some(text) => text,
        None => String::new(),
    }
}

/// The API key that the stored form stands for.
pub fn decrypt_api_key(encrypted_api_key: &str) -> (r: String)
    ensures
        r@ == decrypted(encrypted_api_key@),
{
    match decode_base64(encrypted_api_key) {
        Ok(bytes) => unmask_text(bytes.as_slice()),
        Err(_) => String::from_str(encrypted_api_key),
    }
}

/// Unmasking the masked bytes of an API key gives the key back.
pub proof fn lemma_unmask_masked(api_key: Seq<char>)
    ensures
        unmasked_text(
            masked(vstd::utf8::encode_utf8(api_key), vstd::utf8::encode_utf8(MASK@)),
        ) == api_key,
{
    let mask = vstd::utf8::encode_utf8(MASK@);
    let bytes = vstd::utf8::encode_utf8(api_key);
    lemma_mask_twice(bytes, mask);
    vstd::utf8::encode_utf8_valid_utf8(api_key);
    vstd::utf8::encode_utf8_decode_utf8(api_key);
}

/// The settings as they are stored: the API key in its stored form, all
/// else as it is.
pub fn protect_settings(settings: AppSettings) -> (r: AppSettings)
    requires
        key_fits(settings.gemini_api_key@),
    ensures
        r.gemini_api_key@ == encrypted(settings.gemini_api_key@),
        decrypted(r.gemini_api_key@) == settings.gemini_api_key@,
        r.language == settings.language,
        r.temperature == settings.temperature,
        r.custom_prompt == settings.custom_prompt,
        r.gemini_model == settings.gemini_model,
        r.embed_images == settings.embed_images,
        r.image_embed_frequency == settings.image_embed_frequency,
        r.video_quality == settings.video_quality,
        r.hardware_encoding == settings.hardware_encoding,
        r.enable_experimental_features == settings.enable_experimental_features,
        r.frame_extraction_method == settings.frame_extraction_method,
{
    AppSettings {
        gemini_api_key: encrypt_api_key(settings.gemini_api_key.as_str()),
        language: settings.language,
        temperature: settings.temperature,
        custom_prompt: settings.custom_prompt,
        gemini_model: settings.gemini_model,
        embed_images: settings.embed_images,
        image_embed_frequency: settings.image_embed_frequency,
        video_quality: settings.video_quality,
        hardware_encoding: settings.hardware_encoding,
        enable_experimental_features: settings.enable_experimental_features,
        frame_extraction_method: settings.frame_extraction_method,
    }
}

/// The settings as they are used: the API key read from its stored form,
/// all else as it is.
pub fn reveal_settings(settings: AppSettings) -> (r: AppSettings)
    ensures
        r.gemini_api_key@ == decrypted(settings.gemini_api_key@),
        r.language == settings.language,
        r.temperature == settings.temperature,
        r.custom_prompt == settings.custom_prompt,
        r.gemini_model == settings.gemini_model,
        r.embed_images == settings.embed_images,
        r.image_embed_frequency == settings.image_embed_frequency,
        r.video_quality == settings.video_quality,
        r.hardware_encoding == settings.hardware_encoding,
        r.enable_experimental_features == settings.enable_experimental_features,
        r.frame_extraction_method == settings.frame_extraction_method,
{
    AppSettings {
        gemini_api_key: decrypt_api_key(settings.gemini_api_key.as_str()),
        language: settings.language,
        temperature: settings.temperature,
        custom_prompt: settings.custom_prompt,
        gemini_model: settings.gemini_model,
        embed_images: settings.embed_images,
        image_embed_frequency: settings.image_embed_frequency,
        video_quality: settings.video_quality,
        hardware_encoding: settings.hardware_encoding,
        enable_experimental_features: settings.enable_experimental_features,
        frame_extraction_method: settings.frame_extraction_method,
    }
}

} // verus!
