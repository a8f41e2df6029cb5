use cjose::error::{bail_on_err, out_error, ErrorSlot, JoseError, CJOSE_ERR_NONE};

fn record() -> ErrorSlot {
    ErrorSlot {
        code: 4,
        message: Some(b"crypto error\0".to_vec()),
        function: Some(b"cjose_jwe_import\0".to_vec()),
        file: Some(b"jwe.c\0".to_vec()),
        line: 1385,
    }
}

#[test]
fn fresh_record_is_empty() {
    let slot = out_error();
    assert_eq!(slot.code, CJOSE_ERR_NONE);
    assert_eq!(slot.code, 0);
    assert!(slot.message.is_none());
    assert!(slot.function.is_none());
    assert!(slot.file.is_none());
    assert_eq!(slot.line, 0);
}

#[test]
fn a_result_that_is_there_is_passed_on() {
    assert_eq!(bail_on_err(Some(17usize), out_error()).unwrap(), 17);
    assert_eq!(bail_on_err(Some(vec![1u8, 2]), record()).unwrap(), vec![1u8, 2]);
}

#[test]
fn a_missing_result_becomes_the_engine_failure() {
    match bail_on_err(None::<usize>, record()) {
        Err(JoseError::CJoseError { code, message, function, file, line }) => {
            assert_eq!(code, 4);
            assert_eq!(message, "crypto error");
            assert_eq!(function, "cjose_jwe_import");
            assert_eq!(file, "jwe.c");
            assert_eq!(line, 1385);
        }
        other => panic!("{:?}", other),
    }
}

#[test]
fn a_record_left_empty_gives_empty_fields() {
    match bail_on_err(None::<usize>, out_error()) {
        Err(JoseError::CJoseError { code, message, function, file, line }) => {
            assert_eq!(code, 0);
            assert_eq!(message, "");
            assert_eq!(function, "");
            assert_eq!(file, "");
            assert_eq!(line, 0);
        }
        other => panic!("{:?}", other),
    }
}

#[test]
fn a_field_that_is_not_utf8_gives_an_empty_field() {
    let slot = ErrorSlot {
        code: 2,
        message: Some(vec![0xff, 0xfe, 0x00]),
        function: None,
        file: Some(b"jwk.c\0trailing".to_vec()),
        line: u64::MAX,
    };
    match bail_on_err(None::<Vec<u8>>, slot) {
        Err(JoseError::CJoseError { code, message, function, file, line }) => {
            assert_eq!(code, 2);
            assert_eq!(message, "");
            assert_eq!(function, "");
            assert_eq!(file, "jwk.c");
            assert_eq!(line, u64::MAX);
        }
        other => panic!("{:?}", other),
    }
}

#[test]
fn engine_failure_is_described_field_by_field() {
    let error = bail_on_err(None::<usize>, record()).unwrap_err();
    assert_eq!(
        error.describe(),
        "cjose error. Code: 4, Message: crypto error, Function: cjose_jwe_import, File: jwe.c, Line: 1385"
    );
    let empty = bail_on_err(None::<usize>, out_error()).unwrap_err();
    assert_eq!(empty.describe(), "cjose error. Code: 0, Message: , Function: , File: , Line: 0");
    let large = JoseError::CJoseError {
        code: u32::MAX,
        message: String::from("m"),
        function: String::from("f"),
        file: String::from("x.c"),
        line: u64::MAX,
    };
    assert_eq!(
        large.describe(),
        "cjose error. Code: 4294967295, Message: m, Function: f, File: x.c, Line: 18446744073709551615"
    );
}

#[test]
fn invalid_encoding_is_described() {
    assert_eq!(JoseError::InvalidEncoding.describe(), "Invalid UTF-8!");
}

#[test]
fn json_failure_is_described_as_serde_json_does() {
    let cause = serde_json::from_str::<serde_json::Value>("{\"kty\":").unwrap_err();
    let expected = cause.to_string();
    let error = JoseError::from(cause);
    assert!(matches!(error, JoseError::JsonError(_)));
    assert_eq!(error.describe(), expected);
    assert!(!expected.is_empty());
}
