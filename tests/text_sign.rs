use rcli::text_sign::bytes_equal;
use rcli::{
    decode_signature, encode_signature, load_ed25519_key, load_mac_key, sign_bytes, sign_text,
    verify_bytes, verify_text, Blake3, Ed25519Signer, Ed25519Verifier, TextSignError,
    TextSignFormat,
};

fn key_pair(seed: [u8; 32]) -> ([u8; 32], [u8; 32]) {
    let public = ed25519_dalek::SigningKey::from_bytes(&seed).verifying_key().to_bytes();
    (seed, public)
}

#[test]
fn mac_sign_then_verify() {
    let key = [7u8; 32];
    for msg in [&b""[..], &b"hello world"[..], &b"\x00\xff\x10"[..]] {
        let sig = sign_text(TextSignFormat::Blake3, &key, msg).unwrap();
        assert_eq!(verify_text(TextSignFormat::Blake3, &key, msg, &sig), Ok(true));
    }
}

#[test]
fn mac_signature_of_other_message_does_not_verify() {
    let key = [7u8; 32];
    let sig = sign_text(TextSignFormat::Blake3, &key, b"hello world").unwrap();
    assert_eq!(verify_text(TextSignFormat::Blake3, &key, b"hello world!", &sig), Ok(false));
    assert_eq!(verify_text(TextSignFormat::Blake3, &key, b"", &sig), Ok(false));
}

#[test]
fn mac_signature_under_other_key_does_not_verify() {
    let sig = sign_text(TextSignFormat::Blake3, &[1u8; 32], b"text").unwrap();
    assert_eq!(verify_text(TextSignFormat::Blake3, &[2u8; 32], b"text", &sig), Ok(false));
}

#[test]
fn ed25519_sign_then_verify() {
    let (seed, public) = key_pair([42u8; 32]);
    for msg in [&b""[..], &b"hello world"[..]] {
        let sig = sign_text(TextSignFormat::Ed25519, &seed, msg).unwrap();
        assert_eq!(verify_text(TextSignFormat::Ed25519, &public, msg, &sig), Ok(true));
        assert_eq!(verify_text(TextSignFormat::Ed25519, &public, b"other", &sig), Ok(false));
    }
}

#[test]
fn ed25519_signature_is_64_bytes_and_deterministic() {
    let signer = Ed25519Signer::new([3u8; 32]);
    let a = signer.sign(b"message");
    assert_eq!(a.len(), 64);
    assert_eq!(a, signer.sign(b"message"));
    assert_ne!(a, signer.sign(b"massage"));
}

#[test]
fn ed25519_verifier_checks_signature_length() {
    let (seed, public) = key_pair([9u8; 32]);
    let verifier = Ed25519Verifier::try_new(public).unwrap();
    let sig = Ed25519Signer::new(seed).sign(b"m");
    assert_eq!(verifier.verify(b"m", &sig), Ok(true));
    assert_eq!(
        verifier.verify(b"m", &sig[..63]),
        Err(TextSignError::SignatureLength { found: 63 })
    );
}

#[test]
fn format_swap_never_verifies() {
    let (seed, public) = key_pair([5u8; 32]);
    let msg = b"swap";
    let ed_sig = sign_text(TextSignFormat::Ed25519, &seed, msg).unwrap();
    assert_eq!(verify_text(TextSignFormat::Blake3, &seed, msg, &ed_sig), Ok(false));
    assert_eq!(verify_text(TextSignFormat::Blake3, &public, msg, &ed_sig), Ok(false));
    let mac_sig = sign_text(TextSignFormat::Blake3, &seed, msg).unwrap();
    assert_eq!(
        verify_text(TextSignFormat::Ed25519, &public, msg, &mac_sig),
        Err(TextSignError::SignatureLength { found: 32 })
    );
}

#[test]
fn key_loading_sizes() {
    assert_eq!(load_ed25519_key(&[0u8; 31]), Err(TextSignError::KeySize { found: 31 }));
    assert_eq!(load_ed25519_key(&[0u8; 33]), Err(TextSignError::KeySize { found: 33 }));
    assert_eq!(load_ed25519_key(&[4u8; 32]), Ok([4u8; 32]));
    assert_eq!(load_mac_key(&[0u8; 20]), Err(TextSignError::KeyTooShort { found: 20 }));
    let mut long = [0u8; 40];
    for (i, b) in long.iter_mut().enumerate() {
        *b = i as u8;
    }
    let mut first: [u8; 32] = [0u8; 32];
    first.copy_from_slice(&long[..32]);
    assert_eq!(load_mac_key(&long), Ok(first));
    assert!(TextSignError::KeySize { found: 31 }.message().contains("key size"));
    assert!(TextSignError::KeyTooShort { found: 20 }.message().contains("key size"));
}

#[test]
fn sign_rejects_bad_keys() {
    assert_eq!(
        sign_text(TextSignFormat::Ed25519, &[0u8; 31], b"x"),
        Err(TextSignError::KeySize { found: 31 })
    );
    assert_eq!(
        sign_text(TextSignFormat::Blake3, &[0u8; 20], b"x"),
        Err(TextSignError::KeyTooShort { found: 20 })
    );
}

#[test]
fn mac_key_uses_first_32_bytes() {
    let mut long = vec![1u8; 32];
    long.extend_from_slice(&[2u8; 8]);
    assert_eq!(
        sign_text(TextSignFormat::Blake3, &long, b"abc"),
        sign_text(TextSignFormat::Blake3, &[1u8; 32], b"abc")
    );
    let b = Blake3::try_new(&long).unwrap();
    assert_eq!(b.key, [1u8; 32]);
    assert!(Blake3::try_new(&[0u8; 31]).is_err());
    assert_eq!(Blake3::new([6u8; 32]).key, [6u8; 32]);
}

#[test]
fn mac_signature_is_keyed_hash() {
    let signer = Blake3::new([0u8; 32]);
    let sig = signer.sign(b"hello world");
    assert_eq!(sig.len(), 32);
    assert_ne!(&sig[..], &b"hello world"[..]);
    assert_ne!(sig, Blake3::new([1u8; 32]).sign(b"hello world"));
    assert!(signer.verify(b"hello world", &sig));
    assert!(!signer.verify(b"hello world", &sig[..31]));
}

#[test]
fn signature_codec_round_trips() {
    for len in [32usize, 64] {
        let bytes: Vec<u8> = (0..len).map(|i| (i * 37 + 11) as u8).collect();
        let text = encode_signature(&bytes);
        assert!(!text.contains('='));
        assert!(!text.contains('+') && !text.contains('/'));
        assert_eq!(decode_signature(&text), Some(bytes));
    }
    assert_eq!(encode_signature(&[0xfb, 0xff]), "-_8");
    assert_eq!(decode_signature("-_8"), Some(vec![0xfb, 0xff]));
    assert_eq!(decode_signature("+/8="), None);
}

#[test]
fn mac_hello_world_regression() {
    let a = sign_text(TextSignFormat::Blake3, &[0u8; 32], b"hello world").unwrap();
    let b = sign_text(TextSignFormat::Blake3, &[0u8; 32], b"hello world").unwrap();
    assert_eq!(a, b);
    assert_eq!(a, "9w1nUwM4JGplIurp2q2SwN_UvPTlEWAtlumv0dIhBHk");
}

#[test]
fn wrong_length_signature_is_an_error() {
    let (_, public) = key_pair([8u8; 32]);
    let ten = encode_signature(&[1u8; 10]);
    assert_eq!(
        verify_text(TextSignFormat::Ed25519, &public, b"msg", &ten),
        Err(TextSignError::SignatureLength { found: 10 })
    );
}

#[test]
fn undecodable_signature_is_an_error() {
    assert_eq!(
        verify_text(TextSignFormat::Blake3, &[0u8; 32], b"msg", "not base64!"),
        Err(TextSignError::SignatureEncoding)
    );
}

#[test]
fn invalid_public_key_is_an_error() {
    let mut bad = None;
    for b in 0u8..=255 {
        let mut candidate = [0u8; 32];
        candidate[0] = b;
        candidate[31] = 0x7f;
        if ed25519_dalek::VerifyingKey::from_bytes(&candidate).is_err() {
            bad = Some(candidate);
            break;
        }
    }
    let bad = bad.expect("some 32 bytes are not a curve point");
    assert_eq!(
        Ed25519Verifier::try_new(bad).err(),
        Some(TextSignError::InvalidVerifyingKey)
    );
    let sig = encode_signature(&[0u8; 64]);
    assert_eq!(
        verify_text(TextSignFormat::Ed25519, &bad, b"m", &sig),
        Err(TextSignError::InvalidVerifyingKey)
    );
}

#[test]
fn raw_sign_and_verify() {
    let sig = sign_bytes(TextSignFormat::Blake3, &[3u8; 32], b"raw").unwrap();
    assert_eq!(sig.len(), 32);
    assert_eq!(verify_bytes(TextSignFormat::Blake3, &[3u8; 32], b"raw", &sig), Ok(true));
    assert_eq!(verify_bytes(TextSignFormat::Blake3, &[3u8; 32], b"raw", &sig[1..]), Ok(false));
}

#[test]
fn bytes_equal_compares_all_bytes() {
    assert!(bytes_equal(b"abc", b"abc"));
    assert!(!bytes_equal(b"abc", b"abd"));
    assert!(!bytes_equal(b"abc", b"ab"));
    assert!(bytes_equal(b"", b""));
}
