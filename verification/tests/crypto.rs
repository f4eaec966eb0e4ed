use node_reactor::crypto::{Error, ReadFileError};

#[test]
fn hex_error_becomes_from_hex() {
    let error = hex::decode("zz").unwrap_err();
    match Error::from(error) {
        Error::FromHex(inner) => {
            assert_eq!(inner, hex::FromHexError::InvalidHexCharacter { c: 'z', index: 0 })
        }
        other => panic!("unexpected {:?}", other),
    }
}

#[test]
fn odd_hex_error_is_carried_unchanged() {
    let error = hex::decode("abc").unwrap_err();
    assert!(matches!(Error::from(error), Error::FromHex(hex::FromHexError::OddLength)));
}

#[test]
fn base64_error_becomes_from_base64() {
    let error = base64::decode("!!!!").unwrap_err();
    match Error::from(error) {
        Error::FromBase64(inner) => assert_eq!(inner, base64::DecodeError::InvalidByte(0, b'!')),
        other => panic!("unexpected {:?}", other),
    }
}

#[test]
fn signature_error_becomes_asymmetric_key_with_its_text() {
    let error = ed25519_dalek::PublicKey::from_bytes(&[0u8; 3]).unwrap_err();
    let text = ed25519_dalek::PublicKey::from_bytes(&[0u8; 3]).unwrap_err().to_string();
    assert!(text.starts_with("signature error"));
    match Error::from(error) {
        Error::AsymmetricKey(message) => assert_eq!(message, text),
        other => panic!("unexpected {:?}", other),
    }
}

#[test]
fn bare_signature_error_has_the_bare_text() {
    match Error::from(ed25519_dalek::SignatureError::new()) {
        Error::AsymmetricKey(message) => assert_eq!(message, "signature error"),
        other => panic!("unexpected {:?}", other),
    }
}

#[test]
fn pem_error_becomes_from_pem_with_its_text() {
    let error = pem::parse("no pem here").unwrap_err();
    assert_eq!(error, pem::PemError::MalformedFraming);
    match Error::from(error) {
        Error::FromPem(message) => assert_eq!(message, "malformedframing"),
        other => panic!("unexpected {:?}", other),
    }
}

#[test]
fn mismatched_pem_tags_are_named_in_the_text() {
    let error = pem::PemError::MismatchedTags("A".to_string(), "B".to_string());
    match Error::from(error) {
        Error::FromPem(message) => {
            assert_eq!(message, "mismatching BEGIN (\"A\") and END (\"B\") tags")
        }
        other => panic!("unexpected {:?}", other),
    }
}

#[test]
fn private_key_load_carries_the_file() {
    let error = Error::PrivateKeyLoad(ReadFileError {
        path: "/keys/secret.pem".to_string(),
        reason: "permission denied".to_string(),
    });
    match error {
        Error::PrivateKeyLoad(file) => {
            assert_eq!(file.path, "/keys/secret.pem");
            assert_eq!(file.reason, "permission denied");
        }
        other => panic!("unexpected {:?}", other),
    }
}
