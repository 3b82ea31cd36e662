use rcli::gen_pass::generate_password;
use rcli::{decode_base64, encode_base64, pair_record, pair_records, Base64Format};

fn class_of(b: u8) -> usize {
    if b.is_ascii_uppercase() && b != b'O' {
        0
    } else if b.is_ascii_lowercase() && b != b'l' {
        1
    } else if (b'2'..=b'9').contains(&b) {
        2
    } else if b"!@#$%^&*".contains(&b) {
        3
    } else {
        panic!("byte {} is in no class", b)
    }
}

#[test]
fn password_has_length_and_every_class() {
    for _ in 0..20 {
        let p = generate_password(16, true, true, true, true);
        assert_eq!(p.len(), 16);
        let mut seen = [false; 4];
        for &b in &p {
            seen[class_of(b)] = true;
        }
        assert_eq!(seen, [true; 4]);
    }
}

#[test]
fn password_uses_only_chosen_classes() {
    let p = generate_password(12, false, false, true, false);
    assert_eq!(p.len(), 12);
    assert!(p.iter().all(|&b| class_of(b) == 2));
    let q = generate_password(4, true, false, false, true);
    assert!(q.iter().all(|&b| class_of(b) == 0 || class_of(b) == 3));
    assert!(q.iter().any(|&b| class_of(b) == 0));
    assert!(q.iter().any(|&b| class_of(b) == 3));
    assert_eq!(generate_password(0, false, false, false, false), Vec::<u8>::new());
}

#[test]
fn base64_standard_and_url_safe() {
    assert_eq!(encode_base64(Base64Format::Standard, b"hello"), "aGVsbG8=");
    assert_eq!(encode_base64(Base64Format::UrlSafe, b"hello"), "aGVsbG8");
    assert_eq!(encode_base64(Base64Format::Standard, &[0xfb, 0xff]), "+/8=");
    assert_eq!(decode_base64(Base64Format::Standard, "aGVsbG8=\n"), Some(b"hello".to_vec()));
    assert_eq!(decode_base64(Base64Format::UrlSafe, "aGVsbG8\r\n"), Some(b"hello".to_vec()));
    assert_eq!(decode_base64(Base64Format::UrlSafe, "aGVsbG8="), None);
    assert_eq!(decode_base64(Base64Format::Standard, "aGVsbG8"), None);
    assert_eq!(decode_base64(Base64Format::Standard, ""), Some(vec![]));
}

#[test]
fn records_pair_with_headers() {
    let headers = vec!["Name".to_string(), "Age".to_string()];
    let record = vec!["Ann".to_string(), "30".to_string(), "extra".to_string()];
    assert_eq!(
        pair_record(&headers, &record),
        vec![
            ("Name".to_string(), "Ann".to_string()),
            ("Age".to_string(), "30".to_string())
        ]
    );
    let short = vec!["Bob".to_string()];
    let rows = pair_records(&headers, &vec![record, short]);
    assert_eq!(rows.len(), 2);
    assert_eq!(rows[1], vec![("Name".to_string(), "Bob".to_string())]);
}
