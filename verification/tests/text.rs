use epaste::error::Error;
use epaste::header::ToDecData;
use epaste::message::{encrypt_with, ENCRYPTED_MIN_SIZE};
use epaste::text::{decode_text, decrypt_text, encode_text, encrypt_text};

#[test]
fn encode_text_known_answers() {
    assert_eq!(encode_text(b""), "");
    assert_eq!(encode_text(b"f"), "Zg==");
    assert_eq!(encode_text(b"fo"), "Zm8=");
    assert_eq!(encode_text(b"foo"), "Zm9v");
    assert_eq!(encode_text(b"foobar"), "Zm9vYmFy");
    assert_eq!(encode_text(&[0xfb, 0xff]), "+/8=");
}

#[test]
fn encode_text_breaks_lines_after_76_characters() {
    let text = encode_text(&[0u8; 58]);
    assert_eq!(text.len(), 80 + 2);
    assert_eq!(&text[..76], "A".repeat(76));
    assert_eq!(&text[76..78], "\r\n");
    assert_eq!(&text[78..], "AA==");
    assert_eq!(encode_text(&[0u8; 57]), "A".repeat(76));
}

#[test]
fn decode_text_known_answers() {
    assert_eq!(decode_text(b""), Ok(Vec::new()));
    assert_eq!(decode_text(b"Zg=="), Ok(b"f".to_vec()));
    assert_eq!(decode_text(b"Zm9vYmFy"), Ok(b"foobar".to_vec()));
    assert_eq!(decode_text(b"Zm9v\r\nYmFy\n"), Ok(b"foobar".to_vec()));
    assert_eq!(decode_text(b"+/8="), Ok(vec![0xfb, 0xff]));
}

#[test]
fn decode_text_rejects_what_is_not_base64() {
    assert_eq!(decode_text(b"Zm9v YmFy"), Err(Error::EncodingInvalid));
    assert_eq!(decode_text(b"Zm9v*"), Err(Error::EncodingInvalid));
    assert_eq!(decode_text(b"Z"), Err(Error::EncodingInvalid));
    assert_eq!(decode_text(b"Zg==Zg"), Err(Error::EncodingInvalid));
    assert_eq!(decode_text(&[0xff, 0xfe]), Err(Error::EncodingInvalid));
}

#[test]
fn text_round_trip_of_every_short_length() {
    for len in 0..200usize {
        let bytes: Vec<u8> = (0..len).map(|i| (i * 31 + 7) as u8).collect();
        let text = encode_text(&bytes);
        assert!(text.is_ascii());
        assert_eq!(decode_text(text.as_bytes()), Ok(bytes));
    }
}

#[test]
fn encode_text_agrees_with_the_encoder() {
    let bytes: Vec<u8> = (0..100u8).collect();
    let expected = rustc_serialize::base64::ToBase64::to_base64(
        &bytes[..],
        rustc_serialize::base64::MIME,
    );
    assert_eq!(encode_text(&bytes), expected);
    assert_ne!(encode_text(&bytes).into_bytes(), bytes);
}

#[test]
fn text_of_known_message() {
    let mut nonce = [0u8; 24];
    let mut salt = [0u8; 32];
    for i in 0..24 {
        nonce[i] = 100 + i as u8;
    }
    for i in 0..32 {
        salt[i] = i as u8;
    }
    let message = encrypt_with(b"hello", "correct", &ToDecData { nonce, salt }).unwrap();
    let text = encode_text(&message);
    assert_eq!(
        text,
        "ZGVmZ2hpamtsbW5vcHFyc3R1dnd4eXp7AAECAwQFBgcICQoLDA0ODxAREhMUFRYXGBkaGxwdHh8Q\r\nQ3DRcaql347+V6y9luyqYNV7UuY="
    );
    assert_eq!(decrypt_text(text.as_bytes(), "correct"), Ok(b"hello".to_vec()));
}

#[test]
fn decrypt_text_accepts_a_trailing_newline() {
    let text = "ZGVmZ2hpamtsbW5vcHFyc3R1dnd4eXp7AAECAwQFBgcICQoLDA0ODxAREhMUFRYXGBkaGxwdHh8Q\r\nQ3DRcaql347+V6y9luyqYNV7UuY=\n";
    assert_eq!(decrypt_text(text.as_bytes(), "correct"), Ok(b"hello".to_vec()));
    assert_eq!(decrypt_text(text.as_bytes(), "wrong"), Err(Error::AuthenticationFailed));
}

#[test]
fn encrypt_text_round_trip() {
    let text = encrypt_text(b"hello", "correct").unwrap();
    assert!(text.is_ascii());
    assert_eq!(decode_text(text.as_bytes()).unwrap().len(), ENCRYPTED_MIN_SIZE + 5);
    assert_eq!(decrypt_text(text.as_bytes(), "correct"), Ok(b"hello".to_vec()));
    assert_eq!(decrypt_text(text.as_bytes(), "wrong"), Err(Error::AuthenticationFailed));
}

#[test]
fn encrypt_text_round_trip_of_empty_payload() {
    let text = encrypt_text(b"", "pw").unwrap();
    assert_eq!(decrypt_text(text.as_bytes(), "pw"), Ok(Vec::new()));
}

#[test]
fn decrypt_text_tells_bad_encoding_from_short_message() {
    assert_eq!(decrypt_text(b"not base64!", "pw"), Err(Error::EncodingInvalid));
    assert_eq!(decrypt_text(b"Zm9vYmFy", "pw"), Err(Error::Malformed));
    assert_eq!(decrypt_text(b"", "pw"), Err(Error::Malformed));
    let short = encode_text(&[0u8; 71]);
    assert_eq!(decrypt_text(short.as_bytes(), "pw"), Err(Error::Malformed));
    let long_enough = encode_text(&[0u8; 72]);
    assert_eq!(decrypt_text(long_enough.as_bytes(), "pw"), Err(Error::AuthenticationFailed));
}
