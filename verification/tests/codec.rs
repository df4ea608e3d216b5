use cursor_pagination::cursor_connection::{
    cursor_to_reference, normalize_optional_string, reference_to_cursor, Error,
};

#[test]
fn decoding_an_encoded_reference_gives_it_back() {
    for reference in ["", "1", "ref_1234", "héllo wörld", "a longer reference with spaces"] {
        let cursor = reference_to_cursor(reference.to_string());
        assert_eq!(cursor_to_reference(cursor), Ok(reference.to_string()));
    }
}

#[test]
fn encoding_is_real_base64_not_the_identity() {
    assert_eq!(reference_to_cursor("test 00".to_string()), "dGVzdCAwMA==");
    assert_eq!(reference_to_cursor("5".to_string()), "NQ==");
    assert_eq!(reference_to_cursor("".to_string()), "");
}

#[test]
fn malformed_base64_fails_to_decode() {
    assert_eq!(
        cursor_to_reference("this is not base64 !!!".to_string()),
        Err(Error::DecodeError)
    );
    assert_eq!(cursor_to_reference("A".to_string()), Err(Error::DecodeError));
}

#[test]
fn bytes_that_are_not_utf8_fail_to_decode() {
    // "/w==" is the base64 encoding of the single byte 0xFF.
    assert_eq!(cursor_to_reference("/w==".to_string()), Err(Error::Utf8Error));
}

#[test]
fn empty_and_null_cursor_arguments_are_absent() {
    assert_eq!(normalize_optional_string(None), None);
    assert_eq!(normalize_optional_string(Some("".to_string())), None);
    assert_eq!(normalize_optional_string(Some("null".to_string())), None);
    assert_eq!(
        normalize_optional_string(Some("NQ==".to_string())),
        Some("NQ==".to_string())
    );
}
