use reticle::blobs::{blob_folder, blob_name, decode_blob, encode_blob, to_lower_hex, BlobError};

#[test]
fn decode_gives_the_bytes_of_the_text() {
    assert_eq!(decode_blob("aGVsbG8="), Ok(b"hello".to_vec()));
    assert_eq!(decode_blob(""), Ok(Vec::new()));
    assert_eq!(decode_blob("AP8Q"), Ok(vec![0x00, 0xff, 0x10]));
}

#[test]
fn decode_refuses_what_is_not_base64() {
    match decode_blob("not base64!") {
        Err(BlobError::InvalidBase64(words)) => assert!(!words.is_empty()),
        other => panic!("expected a refusal, got {:?}", other),
    }
    assert!(decode_blob("aGVsbG8").is_err());
    assert!(decode_blob("aGVsbG8=\n").is_err());
}

#[test]
fn refusal_message_starts_with_invalid_base64() {
    let error = decode_blob("a").expect_err("one symbol is no encoding");
    let message = error.message();
    assert!(message.starts_with("Invalid base64: "), "{}", message);
    assert!(message.len() > "Invalid base64: ".len());
    assert_eq!(
        BlobError::InvalidBase64("Invalid padding".to_string()).message(),
        "Invalid base64: Invalid padding"
    );
}

#[test]
fn encode_gives_standard_base64_with_padding() {
    assert_eq!(encode_blob(b"hello"), "aGVsbG8=");
    assert_eq!(encode_blob(b""), "");
    assert_eq!(encode_blob(&[0xfb, 0xff]), "+/8=");
}

#[test]
fn decoding_undoes_encoding() {
    let bytes: Vec<u8> = (0..=255u8).collect();
    assert_eq!(decode_blob(&encode_blob(&bytes)), Ok(bytes));
}

#[test]
fn hex_has_two_lower_case_digits_for_each_byte() {
    assert_eq!(to_lower_hex(&[]), "");
    assert_eq!(to_lower_hex(&[0x00]), "00");
    assert_eq!(to_lower_hex(&[0x0a, 0x14, 0x1e]), "0a141e");
    assert_eq!(to_lower_hex(&[0xff, 0x10, 0xab, 0xcd, 0xef, 0x09]), "ff10abcdef09");
}

#[test]
fn name_is_the_sha256_of_the_content() {
    assert_eq!(
        blob_name(b""),
        "e3b0c44298fc1c149afbf4c8996fb92427ae41e4649b934ca495991b7852b855"
    );
    assert_eq!(
        blob_name(b"hello"),
        "2cf24dba5fb0a30e26e83b2ac5b9e29e1b161e5c1fa7425e73043362938b9824"
    );
    assert_eq!(blob_name(b"abc").len(), 64);
    assert_ne!(blob_name(b"abc"), blob_name(b"abd"));
}

#[test]
fn folder_of_an_account() {
    assert_eq!(
        blob_folder(&"acct-7".to_string()),
        vec!["workspaces".to_string(), "acct-7".to_string(), "blobs".to_string()]
    );
}
