use argon2_prompt::codec::decode;
use argon2_prompt::fields::{convert_password, convert_secret, InputError};
use argon2_prompt::secret::SecretBytes;
use base64::Engine;

fn sample_bytes(len: usize, seed: u32) -> Vec<u8> {
    let mut state = seed;
    let mut out = Vec::with_capacity(len);
    for _ in 0..len {
        state = state.wrapping_mul(1_664_525).wrapping_add(1_013_904_223);
        out.push((state >> 24) as u8);
    }
    out
}

#[test]
fn decode_known_values() {
    assert_eq!(decode(b""), Some(Vec::new()));
    assert_eq!(decode(b"aGVsbG8gd29ybGQ="), Some(b"hello world".to_vec()));
    assert_eq!(decode(b"/+8="), Some(vec![0xff, 0xef]));
    assert_eq!(decode(b"not base64!!"), None);
    assert_eq!(decode(b"_-8="), None);
    assert_eq!(decode(b"aGVsbG8gd29ybGQ"), None);
}

#[test]
fn base64_round_trip_through_password_path() {
    for len in 0..200usize {
        let bytes = sample_bytes(len, len as u32 + 1);
        let text = base64::engine::general_purpose::STANDARD.encode(&bytes);
        if text.is_empty() {
            continue;
        }
        let p = convert_password(SecretBytes::from_text(&text), true).ok().unwrap();
        assert_eq!(p.as_slice(), &bytes[..]);
    }
}

#[test]
fn base64_round_trip_through_secret_path() {
    for len in 1..200usize {
        let bytes = sample_bytes(len, 7 * len as u32 + 3);
        let text = base64::engine::general_purpose::STANDARD.encode(&bytes);
        let s = convert_secret(&text).ok().unwrap().unwrap();
        assert_eq!(s.as_slice(), &bytes[..]);
    }
}

#[test]
fn invalid_base64_is_rejected_on_both_paths() {
    let r = convert_password(SecretBytes::from_text("not base64!!"), true);
    assert!(matches!(r, Err(InputError::PasswordNotBase64)));
    let r = convert_secret("not base64!!");
    assert!(matches!(r, Err(InputError::SecretNotBase64)));
}

#[test]
fn secret_bytes_hold_what_they_were_given() {
    let s = SecretBytes::new(vec![9, 8, 7]);
    assert_eq!(s.as_slice(), [9u8, 8, 7]);
    assert_eq!(s.len(), 3);
    assert!(!s.is_empty());
    let e = SecretBytes::empty();
    assert_eq!(e.as_slice(), b"");
    assert_eq!(e.len(), 0);
    assert!(e.is_empty());
    let t = SecretBytes::from_text("héllo");
    assert_eq!(t.as_slice(), "héllo".as_bytes());
    assert_eq!(t.len(), 6);
}
