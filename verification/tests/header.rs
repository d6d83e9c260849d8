use epaste::header::{ToDecData, NONCEBYTES, SALTBYTES, TO_DEC_DATA_BYTES};

fn counting(len: usize) -> Vec<u8> {
    (0..len).map(|i| (i % 251) as u8).collect()
}

#[test]
fn sizes_match_the_primitives() {
    assert_eq!(NONCEBYTES, 24);
    assert_eq!(SALTBYTES, 32);
    assert_eq!(TO_DEC_DATA_BYTES, 56);
    assert_eq!(NONCEBYTES, sodiumoxide::crypto::secretbox::NONCEBYTES);
    assert_eq!(SALTBYTES, sodiumoxide::crypto::pwhash::SALTBYTES);
}

#[test]
fn from_slice_rejects_short_input() {
    assert!(ToDecData::from_slice(&[]).is_none());
    assert!(ToDecData::from_slice(&[0u8; 1]).is_none());
    assert!(ToDecData::from_slice(&[0u8; 24]).is_none());
    assert!(ToDecData::from_slice(&[0u8; 55]).is_none());
}

#[test]
fn from_slice_reads_nonce_then_salt() {
    let bytes = counting(TO_DEC_DATA_BYTES);
    let header = ToDecData::from_slice(&bytes).unwrap();
    assert_eq!(&header.nonce()[..], &bytes[..24]);
    assert_eq!(&header.salt()[..], &bytes[24..56]);
    assert_eq!(header.nonce()[0], 0);
    assert_eq!(header.nonce()[23], 23);
    assert_eq!(header.salt()[0], 24);
    assert_eq!(header.salt()[31], 55);
}

#[test]
fn from_slice_ignores_what_follows_the_header() {
    let bytes = counting(200);
    let header = ToDecData::from_slice(&bytes).unwrap();
    assert_eq!(header.as_bytes(), bytes[..56].to_vec());
}

#[test]
fn as_bytes_is_nonce_then_salt() {
    let header = ToDecData { nonce: [7u8; 24], salt: [9u8; 32] };
    let bytes = header.as_bytes();
    assert_eq!(bytes.len(), TO_DEC_DATA_BYTES);
    assert_eq!(&bytes[..24], &[7u8; 24][..]);
    assert_eq!(&bytes[24..], &[9u8; 32][..]);
}

#[test]
fn header_round_trips_through_bytes() {
    let header = ToDecData { nonce: [0xabu8; 24], salt: [0xcdu8; 32] };
    let back = ToDecData::from_slice(&header.as_bytes()).unwrap();
    assert_eq!(back.nonce, header.nonce);
    assert_eq!(back.salt, header.salt);

    let bytes = counting(TO_DEC_DATA_BYTES);
    assert_eq!(ToDecData::from_slice(&bytes).unwrap().as_bytes(), bytes);
}

#[test]
fn new_headers_are_fresh() {
    let a = ToDecData::new();
    let b = ToDecData::new();
    assert_ne!(a.nonce, b.nonce);
    assert_ne!(a.salt, b.salt);
    assert_ne!(a.nonce, [0u8; 24]);
    assert_ne!(a.salt, [0u8; 32]);
    assert_eq!(a.as_bytes().len(), 56);
}

#[test]
fn from_draws_keeps_each_draw_whole() {
    let mut nonce = [0u8; 24];
    let mut salt = [0u8; 32];
    for i in 0..24 {
        nonce[i] = 200 + i as u8;
    }
    for i in 0..32 {
        salt[i] = 3 * i as u8;
    }
    let header = ToDecData::from_draws(nonce, salt);
    assert_eq!(header.nonce, nonce);
    assert_eq!(header.salt, salt);
    assert_eq!(*header.nonce(), nonce);
    assert_eq!(*header.salt(), salt);
    let mut bytes = nonce.to_vec();
    bytes.extend_from_slice(&salt);
    assert_eq!(header.as_bytes(), bytes);
}

#[test]
fn from_draws_does_not_mix_the_draws() {
    let header = ToDecData::from_draws([1u8; 24], [2u8; 32]);
    assert!(header.nonce.iter().all(|b| *b == 1));
    assert!(header.salt.iter().all(|b| *b == 2));
    let swapped = ToDecData::from_draws([2u8; 24], [1u8; 32]);
    assert_ne!(header.as_bytes(), swapped.as_bytes());
}

#[test]
fn different_draws_give_different_headers() {
    let a = ToDecData::from_draws([1u8; 24], [2u8; 32]);
    let mut nonce = [1u8; 24];
    nonce[23] = 0;
    let mut salt = [2u8; 32];
    salt[0] = 3;
    let b = ToDecData::from_draws(nonce, salt);
    assert_ne!(a.nonce, b.nonce);
    assert_ne!(a.salt, b.salt);
    assert_ne!(a.as_bytes(), b.as_bytes());
}
