use kodegen_bundler::error::ProducerError;
use kodegen_bundler::signing::certificate;
use kodegen_bundler::signing::setup_macos_signing;

#[test]
fn certificate_is_decoded_from_base64() {
    let found = setup_macos_signing(Some("aGVsbG8gd29ybGQ=".to_string()), Some("  secret\n".to_string()))
        .unwrap()
        .unwrap();
    assert_eq!(found.bytes, b"hello world");
    assert_eq!(found.password, "secret");
    let empty = setup_macos_signing(Some(String::new()), Some(String::new())).unwrap().unwrap();
    assert!(empty.bytes.is_empty());
    assert_eq!(empty.password, "");
}

#[test]
fn without_certificate_or_password_there_is_nothing_to_sign_with() {
    assert!(setup_macos_signing(None, None).unwrap().is_none());
    assert!(setup_macos_signing(Some("aGVsbG8=".to_string()), None).unwrap().is_none());
    assert!(setup_macos_signing(None, Some("secret".to_string())).unwrap().is_none());
    assert!(setup_macos_signing(Some("not base64!".to_string()), None).unwrap().is_none());
}

#[test]
fn a_certificate_that_is_no_base64_is_refused() {
    for broken in ["not base64!", "aGVsbG8", "a===", "aGVsbG8=\n"] {
        match setup_macos_signing(Some(broken.to_string()), Some("secret".to_string())) {
            Err(ProducerError::GenericError(text)) => {
                assert!(text.starts_with("Invalid APPLE_CERTIFICATE (not valid base64): "), "{}", text);
                assert!(text.len() > "Invalid APPLE_CERTIFICATE (not valid base64): ".len());
            }
            other => panic!("unexpected result for {:?}: {:?}", broken, other),
        }
    }
}

#[test]
fn certificate_keeps_its_bytes_and_trims_its_password() {
    let made = certificate(vec![1, 2, 3], "\tpw ");
    assert_eq!(made.bytes, vec![1, 2, 3]);
    assert_eq!(made.password, "pw");
}
