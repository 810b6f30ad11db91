use rpc_errors::extract::extract;
use rpc_errors::general_errors::{
    DatabaseError, DeserializationError, MethodDeprecated, MiscError, OutOfMemoryError, TypeError,
    VerifyError, WarmupError,
};
use rpc_errors::{DecodeError, Error};

#[test]
fn from_str() {
    let error_str1 = String::from(
        "RPC_VERIFY_ERROR occured: {\"code\": -25, \"message\": \"Input not found or already spent\"}",
    );
    let error1 = Error::from_str(&error_str1).unwrap();
    assert_eq!(error1, Error::RPC_VERIFY_ERROR(VerifyError::MissingOrSpend));

    let error_str2 = String::from(
        "sendrawtransaction RPC error: {\"code\":-27,\"message\":\"Transaction already in block chain\"}",
    );
    let error2 = Error::from_str(&error_str2).unwrap();
    assert_eq!(error2, Error::RPC_VERIFY_ALREADY_IN_CHAIN);
}

#[test]
fn extract_tolerates_whitespace_and_prose() {
    let env = extract("noise before {  \"code\" :\t-3 ,\n \"message\" : \"Invalid amount\"  } noise after")
        .unwrap();
    assert_eq!(env.code, -3);
    assert_eq!(env.message, "Invalid amount");
}

#[test]
fn extract_decodes_escapes() {
    let env = extract("{\"code\": 1, \"message\": \"a \\\"quoted\\\" word, a \\\\ and a\\nbreak\"}")
        .unwrap();
    assert_eq!(env.code, 1);
    assert_eq!(env.message, "a \"quoted\" word, a \\ and a\nbreak");
}

#[test]
fn extract_failures() {
    // No structured fragment at all.
    assert!(extract("no brace here").is_err());
    // The first brace opens nothing well-formed.
    assert!(extract("{oops} {\"code\": 1, \"message\": \"x\"}").is_err());
    // Missing message field.
    assert!(extract("{\"code\": 1}").is_err());
    // Unterminated string.
    assert!(extract("{\"code\": 1, \"message\": \"open").is_err());
    // Unknown escape.
    assert!(extract("{\"code\": 1, \"message\": \"bad \\q escape\"}").is_err());
    // No digits.
    assert!(extract("{\"code\": -, \"message\": \"x\"}").is_err());
}

#[test]
fn extract_code_bounds() {
    let env = extract("{\"code\": -2147483648, \"message\": \"m\"}").unwrap();
    assert_eq!(env.code, -2147483648);
    let env = extract("{\"code\": 2147483647, \"message\": \"m\"}").unwrap();
    assert_eq!(env.code, 2147483647);
    assert!(extract("{\"code\": 2147483648, \"message\": \"m\"}").is_err());
    assert!(extract("{\"code\": -2147483649, \"message\": \"m\"}").is_err());
    // Leading zeros are insignificant.
    let env = extract("{\"code\": -0025, \"message\": \"m\"}").unwrap();
    assert_eq!(env.code, -25);
}

#[test]
fn decode_embedded_fragment() {
    // A fragment embedded after prose dispatches on its code and classifies
    // the message to the zero-field case of that category.
    let e = Error::from_str("while broadcasting: {\"code\": -25, \"message\": \"Input not found or already spent\"}")
        .unwrap();
    assert_eq!(e, Error::RPC_VERIFY_ERROR(VerifyError::MissingOrSpend));
}

#[test]
fn decode_without_envelope_fails() {
    assert_eq!(
        Error::from_str("plain prose with no fragment"),
        Err(DecodeError::EnvelopeNotFound)
    );
}

#[test]
fn decode_unknown_code_keeps_envelope() {
    let e = Error::from_str("{\"code\": -999, \"message\": \"whatever\"}").unwrap();
    assert_eq!(e, Error::RPC_UNKOWN_ERROR(-999, "whatever".to_string()));
}

#[test]
fn decode_unclassified_message_is_distinct() {
    // Code -32 is known, but its classifier has no catch-all: an alien
    // message is a decode failure, never the unknown category.
    assert_eq!(
        Error::from_str("{\"code\": -32, \"message\": \"some new deprecation text\"}"),
        Err(DecodeError::UnclassifiedMessage)
    );
    // Same for -3.
    assert_eq!(
        Error::from_str("{\"code\": -3, \"message\": \"unrelated\"}"),
        Err(DecodeError::UnclassifiedMessage)
    );
}

#[test]
fn decode_categories_with_payload() {
    let e = Error::from_str("{\"code\": -7, \"message\": \"Out of memory\"}").unwrap();
    assert_eq!(e, Error::RPC_OUT_OF_MEMORY(OutOfMemoryError::OutOfMemory));

    let e = Error::from_str("{\"code\": -20, \"message\": \"anything else\"}").unwrap();
    assert_eq!(
        e,
        Error::RPC_DATABASE_ERROR(DatabaseError::Generic("anything else".to_string()))
    );

    let e = Error::from_str("{\"code\": -22, \"message\": \"TX decode failed\"}").unwrap();
    assert_eq!(
        e,
        Error::RPC_DESERIALIZATION_ERROR(DeserializationError::TxDecodeFailed2)
    );

    let e = Error::from_str("{\"code\": -28, \"message\": \"Verifying blocks...\"}").unwrap();
    assert_eq!(
        e,
        Error::RPC_IN_WARMUP(WarmupError::Generic("Verifying blocks...".to_string()))
    );

    let e = Error::from_str("{\"code\": -8, \"message\": \"ignored\"}").unwrap();
    assert_eq!(e, Error::RPC_INVALID_PARAMETER);
}

#[test]
fn type_error_prefers_specific_missing_cases() {
    // The generic Missing case overlaps the specific ones and stands last:
    // order decides.
    assert_eq!(
        TypeError::from_str("Missing amount for coins").unwrap(),
        TypeError::MissingAmountForCoins("coins".to_string())
    );
    assert_eq!(
        TypeError::from_str("Missing something else").unwrap(),
        TypeError::Missing("something else".to_string())
    );
    assert_eq!(
        TypeError::from_str("Missing required timestamp field for key").unwrap(),
        TypeError::MissingTimestamp
    );
}

#[test]
fn type_error_extracts_fields() {
    assert_eq!(
        TypeError::from_str("JSON value of type number for field fee is not of expected type string")
            .unwrap(),
        TypeError::WrongJsonType(
            "number".to_string(),
            "fee".to_string(),
            "string".to_string()
        )
    );
    assert!(TypeError::from_str("nothing the table knows").is_err());
}

#[test]
fn misc_error_classifies() {
    assert_eq!(
        MiscError::from_str("Block header missing").unwrap(),
        MiscError::BlockHeaderMissing
    );
    assert_eq!(
        MiscError::from_str("Index is not enabled for filtertype basic").unwrap(),
        MiscError::IndexFilterForbidden("basic".to_string())
    );
    assert_eq!(
        MiscError::from_str("Block not available (pruned data)").unwrap(),
        MiscError::BlockUnavailablePrunedNode
    );
    // The catch-all receives what no pattern matches.
    assert_eq!(
        MiscError::from_str("a new message").unwrap(),
        MiscError::Generic("a new message".to_string())
    );
}

#[test]
fn method_deprecated_has_no_catch_all() {
    // In the table's pattern the `*` is a regex quantifier on the quote
    // before it, so the accepted texts end in a bare `"*`.
    assert_eq!(
        MethodDeprecated::from_str("dummy first argument must be excluded or set to \"*")
            .unwrap(),
        MethodDeprecated::WrongDummyArgument
    );
    assert!(MethodDeprecated::from_str("anything else").is_err());
    assert!(
        MethodDeprecated::from_str("dummy first argument must be excluded or set to \"*\".")
            .is_err()
    );
}

#[test]
fn verify_error_extracts_header() {
    assert_eq!(
        VerifyError::from_str("Must submit previous header (00ff) first").unwrap(),
        VerifyError::PreviousHeaderMissing("00ff".to_string())
    );
    assert_eq!(
        VerifyError::from_str("TestBlockValidity failed: bad-txns").unwrap(),
        VerifyError::BlockValidityFailed("bad-txns".to_string())
    );
}
