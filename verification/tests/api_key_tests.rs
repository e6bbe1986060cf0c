use base64::Engine;
use document_encoder::api_key::{
    decrypt_api_key, encrypt_api_key, mask_bytes, protect_settings, reveal_settings,
    try_encrypt_api_key, unmask_text, MASK,
};
use document_encoder::float_bits::FloatBits;
use document_encoder::types::{AppSettings, FrameExtractionMethod, ImageEmbedFrequency, VideoQuality};

fn expected_stored(api_key: &str) -> String {
    let key = b"document_encoder_key_2024";
    let mut encrypted = Vec::new();
    for (i, byte) in api_key.bytes().enumerate() {
        encrypted.push(byte ^ key[i % key.len()]);
    }
    base64::engine::general_purpose::STANDARD.encode(encrypted)
}

#[test]
fn the_mask_is_the_fixed_key() {
    assert_eq!(MASK.as_bytes(), b"document_encoder_key_2024");
}

#[test]
fn masking_is_exclusive_or_with_the_repeated_mask() {
    assert_eq!(mask_bytes(&[0, 0, 0, 0, 0], &[1, 2]), vec![1, 2, 1, 2, 1]);
    assert_eq!(mask_bytes(&[0xff, 0x0f], &[0xf0]), vec![0x0f, 0xff]);
    assert_eq!(mask_bytes(&[1, 2, 3], &[]), vec![1, 2, 3]);
    assert_eq!(mask_bytes(&[], &[1]), Vec::<u8>::new());
    let bytes: Vec<u8> = (0..=255).collect();
    assert_eq!(mask_bytes(&mask_bytes(&bytes, MASK.as_bytes()), MASK.as_bytes()), bytes);
}

#[test]
fn the_stored_form_is_base64_of_the_masked_key() {
    for key in ["", "a", "AIzaSyExample-Key_0123456789", "鍵", "a longer key that is longer than the mask itself, twice"] {
        assert_eq!(encrypt_api_key(key), expected_stored(key), "{:?}", key);
        assert_eq!(try_encrypt_api_key(key), Some(expected_stored(key)));
    }
    assert_eq!(encrypt_api_key("a"), "BQ==");
    assert_ne!(encrypt_api_key("secret"), "secret");
}

#[test]
fn the_stored_form_is_read_back() {
    for key in ["", "a", "AIzaSyExample-Key_0123456789", "鍵", "with spaces and = signs =="] {
        assert_eq!(decrypt_api_key(&encrypt_api_key(key)), key);
    }
    assert_eq!(decrypt_api_key("BQ=="), "a");
}

#[test]
fn text_that_is_not_base64_is_taken_as_the_key() {
    assert_eq!(decrypt_api_key("not base64!"), "not base64!");
    assert_eq!(decrypt_api_key("BQ="), "BQ=");
    assert_eq!(decrypt_api_key("鍵"), "鍵");
}

#[test]
fn bytes_that_unmask_to_no_text_give_the_empty_key() {
    let bad = mask_bytes(&[0xff, 0xfe], MASK.as_bytes());
    assert_eq!(unmask_text(&bad), "");
    let stored = base64::engine::general_purpose::STANDARD.encode(&bad);
    assert_eq!(decrypt_api_key(&stored), "");
    assert_eq!(unmask_text(&mask_bytes("ok".as_bytes(), MASK.as_bytes())), "ok");
}

fn settings(key: &str) -> AppSettings {
    AppSettings {
        gemini_api_key: key.to_string(),
        language: "english".to_string(),
        temperature: FloatBits::from_bits(0.5f64.to_bits()),
        custom_prompt: Some("p".to_string()),
        gemini_model: "m".to_string(),
        embed_images: true,
        image_embed_frequency: ImageEmbedFrequency::Detailed,
        video_quality: VideoQuality::Quality720p,
        hardware_encoding: true,
        enable_experimental_features: false,
        frame_extraction_method: FrameExtractionMethod::Fast,
    }
}

#[test]
fn settings_are_stored_with_the_key_masked_and_nothing_else_changed() {
    let stored = protect_settings(settings("secret"));
    assert_eq!(stored.gemini_api_key, expected_stored("secret"));
    assert_eq!(stored.language, "english");
    assert_eq!(stored.temperature, FloatBits::from_bits(0.5f64.to_bits()));
    assert_eq!(stored.custom_prompt, Some("p".to_string()));
    assert_eq!(stored.gemini_model, "m");
    assert!(stored.embed_images);
    assert_eq!(stored.image_embed_frequency, ImageEmbedFrequency::Detailed);
    assert_eq!(stored.video_quality, VideoQuality::Quality720p);
    assert!(stored.hardware_encoding);
    assert!(!stored.enable_experimental_features);
    assert_eq!(stored.frame_extraction_method, FrameExtractionMethod::Fast);
    let used = reveal_settings(stored);
    assert_eq!(used.gemini_api_key, "secret");
    assert_eq!(used.language, "english");
    assert_eq!(used.frame_extraction_method, FrameExtractionMethod::Fast);
}
