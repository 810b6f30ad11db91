use rpc_errors::pattern::{first_pattern_match, Pattern};
use rpc_errors::reject::{classify_submission, NotARejection, TxRejection};

#[test]
fn pattern_matching() {
    let patterns: Vec<Pattern> = vec![
        Pattern::from("Hello {}, how are you?"),
        Pattern::from("It is {} degrees outside"),
        Pattern::from("BDK is a bitcoin {}"),
        Pattern::from("This str has no varible."),
    ];

    let input1 = "Hello Josh, how are you?";
    for pattern in &patterns {
        if let Ok(Some(substring)) = pattern.match_and_extract(input1) {
            assert_eq!("Josh", substring);
        }
    }

    let input2 = "It is 30 degrees outside";
    for pattern in &patterns {
        if let Ok(Some(substring)) = pattern.match_and_extract(input2) {
            assert_eq!("30", substring);
        }
    }

    let input3 = "BDK is a bitcoin project";
    for pattern in &patterns {
        if let Ok(Some(substring)) = pattern.match_and_extract(input3) {
            assert_eq!("project", substring);
        }
    }

    let input4 = "This str has no varible.";
    let result4 = patterns[3].match_and_extract(input4);
    assert_eq!(result4, Ok(None));

    let input5 = "This str has no varible";
    let result5 = patterns[3].match_and_extract(input5);
    assert_eq!(result5, Err(()));
}

#[test]
fn pattern_from_splits_at_first_placeholder() {
    let p = Pattern::from("a {} b {} c");
    assert_eq!(p.prefix, "a ");
    assert_eq!(p.suffix, " b {} c");

    let p = Pattern::from("{}tail");
    assert_eq!(p.prefix, "");
    assert_eq!(p.suffix, "tail");

    let p = Pattern::from("head{}");
    assert_eq!(p.prefix, "head");
    assert_eq!(p.suffix, "");

    let p = Pattern::from("no placeholder");
    assert_eq!(p.prefix, "no placeholder");
    assert_eq!(p.suffix, "");
}

#[test]
fn overlapping_prefix_and_suffix_do_not_match() {
    // "abc" starts with "ab" and ends with "bc", but the two overlap: there
    // is no gap text, so the pattern does not match.
    let p = Pattern { prefix: "ab".to_string(), suffix: "bc".to_string() };
    assert_eq!(p.match_and_extract("abc"), Err(()));
    assert_eq!(p.match_and_extract("abbc"), Ok(Some("".to_string())));
}

#[test]
fn first_pattern_wins() {
    let patterns = vec![
        Pattern::from("value: {}"),
        Pattern::from("value: 1{}"),
    ];
    // Both match; the first is taken.
    let (idx, gap) = first_pattern_match(&patterns, "value: 10").unwrap();
    assert_eq!(idx, 0);
    assert_eq!(gap, Some("10".to_string()));
    assert!(first_pattern_match(&patterns, "other").is_none());
}

#[test]
fn submission_rejections_by_code() {
    assert_eq!(
        classify_submission(-25, "Input not found or already spent"),
        Ok(TxRejection::MissingOrSpent)
    );
    assert_eq!(
        classify_submission(-27, "Transaction already in block chain"),
        Ok(TxRejection::AlreadyInChain)
    );
    assert_eq!(classify_submission(-1, "whatever"), Err(NotARejection));
    assert_eq!(classify_submission(0, ""), Err(NotARejection));
}

#[test]
fn submission_script_flag_detail() {
    // The script-mismatch detail is extracted by stripping the literal
    // prefix (and the closing parenthesis).
    assert_eq!(
        classify_submission(-26, "non-mandatory-script-verify-flag (foo)"),
        Ok(TxRejection::ScriptVerifyFlag("foo".to_string()))
    );
}

#[test]
fn submission_fallback_keeps_reason() {
    assert_eq!(
        classify_submission(-26, "txn-mempool-conflict"),
        Ok(TxRejection::MempoolConflict)
    );
    assert_eq!(
        classify_submission(-26, "dust"),
        Ok(TxRejection::Rejected("dust".to_string()))
    );
}
