use rpc_errors::classifier::{CaseSpec, Classifier, CompileError, NoMatch};

fn case(name: &str, arity: usize, patterns: &[&str]) -> CaseSpec {
    CaseSpec {
        name: name.to_string(),
        arity,
        named_fields: false,
        patterns: patterns.iter().map(|p| p.to_string()).collect(),
    }
}

fn enum1() -> Classifier {
    Classifier::compile(
        vec![
            case("Variant1", 2, &["^Hello (.*) (.*)$", "^(.*) World (.*)!$"]),
            case("Variant2", 0, &["^two", "regexs$"]),
            case("Variant3", 1, &["^single (.*) regex$"]),
        ],
        false,
    )
    .unwrap()
}

fn enum2() -> Classifier {
    Classifier::compile(
        vec![
            case("Variant1", 0, &["^moin$"]),
            case("Variant2", 1, &["^moin moin (.*)!$"]),
            case("Generic", 1, &[]),
        ],
        false,
    )
    .unwrap()
}

#[test]
fn test_pos() {
    let c = enum1();

    let r = c.classify("Hello test1 test2").unwrap();
    assert_eq!(r.case_name, "Variant1");
    assert_eq!(r.fields, vec!["test1".to_string(), "test2".to_string()]);

    let r = c.classify("The World is big!").unwrap();
    assert_eq!(r.case_name, "Variant1");
    assert_eq!(r.fields, vec!["The".to_string(), "is big".to_string()]);

    let r = c.classify("two").unwrap();
    assert_eq!(r.case_name, "Variant2");
    assert!(r.fields.is_empty());

    let r = c.classify("regexs").unwrap();
    assert_eq!(r.case_name, "Variant2");

    let r = c.classify("single lame regex").unwrap();
    assert_eq!(r.case_name, "Variant3");
    assert_eq!(r.fields, vec!["lame".to_string()]);
}

#[test]
fn test_neg() {
    let c = enum1();
    assert!(c.classify("hello test1 test2").is_err());
    assert!(c.classify("The world is big?").is_err());
    assert!(c.classify("bla blu blub").is_err());
}

#[test]
fn test_generic_pos() {
    let c = enum2();

    let r = c.classify("moin").unwrap();
    assert_eq!(r.case_name, "Variant1");

    let r = c.classify("moin moin remix!").unwrap();
    assert_eq!(r.case_name, "Variant2");
    assert_eq!(r.fields, vec!["remix".to_string()]);
}

#[test]
fn test_generic_neg() {
    let c = enum2();

    let r = c.classify("not a found pattern").unwrap();
    assert_eq!(r.case_name, "Generic");
    assert_eq!(r.fields, vec!["not a found pattern".to_string()]);

    let r = c.classify("").unwrap();
    assert_eq!(r.case_name, "Generic");
    assert_eq!(r.fields, vec!["".to_string()]);
}

#[test]
fn catch_all_is_total() {
    // A classifier with a catch-all never fails, the empty input included,
    // and the catch-all receives the input verbatim.
    let c = enum2();
    for input in ["", " ", "moin?", "unrelated text", "moin moin remix"] {
        let r = c.classify(input).unwrap();
        if r.case_name == "Generic" {
            assert_eq!(r.fields, vec![input.to_string()]);
        }
    }
}

#[test]
fn no_catch_all_means_no_match() {
    let c = enum1();
    assert_eq!(c.classify("").err(), Some(NoMatch));
    assert_eq!(c.classify("nothing like the patterns").err(), Some(NoMatch));
}

#[test]
fn order_decides_between_overlapping_cases() {
    // "^ab.*$" matches everything "^abc$" matches: the declared order alone
    // decides which case an overlapping input lands in.
    let broad_first = Classifier::compile(
        vec![case("Broad", 0, &["^ab.*$"]), case("Narrow", 0, &["^abc$"])],
        false,
    )
    .unwrap();
    let narrow_first = Classifier::compile(
        vec![case("Narrow", 0, &["^abc$"]), case("Broad", 0, &["^ab.*$"])],
        false,
    )
    .unwrap();
    assert_eq!(broad_first.classify("abc").unwrap().case_name, "Broad");
    assert_eq!(narrow_first.classify("abc").unwrap().case_name, "Narrow");
}

#[test]
fn capture_round_trip() {
    // Substituting literal text into the capture positions of a pattern of
    // arity k yields that case with exactly those k substrings, in order.
    let c = Classifier::compile(
        vec![case("Pair", 2, &["^left=(.*) right=(.*)$"])],
        false,
    )
    .unwrap();
    let r = c.classify("left=alpha right=omega").unwrap();
    assert_eq!(r.case_name, "Pair");
    assert_eq!(r.fields, vec!["alpha".to_string(), "omega".to_string()]);
}

#[test]
fn arity_mismatch_is_rejected() {
    // One capture group, arity 0 declared.
    let r = Classifier::compile(vec![case("Bad", 0, &["^x(.*)$"])], false);
    assert!(matches!(r, Err(CompileError::SpecArityMismatch { .. })));
    // Two patterns that disagree with each other.
    let r = Classifier::compile(vec![case("Bad", 1, &["^x(.*)$", "^y$"])], false);
    assert!(matches!(r, Err(CompileError::SpecArityMismatch { .. })));
}

#[test]
fn named_fields_are_rejected() {
    let spec = CaseSpec {
        name: "Named".to_string(),
        arity: 1,
        named_fields: true,
        patterns: vec!["^x(.*)$".to_string()],
    };
    let r = Classifier::compile(vec![spec], false);
    assert!(matches!(r, Err(CompileError::UnsupportedCaseShape { .. })));
}

#[test]
fn oversized_arity_is_rejected() {
    let r = Classifier::compile(
        vec![case("Wide", 5, &["^(.)(.)(.)(.)(.)$"])],
        false,
    );
    assert!(matches!(r, Err(CompileError::UnsupportedCaseShape { .. })));
}

#[test]
fn catch_all_must_have_arity_one() {
    let r = Classifier::compile(vec![case("Generic", 0, &[])], false);
    assert!(matches!(r, Err(CompileError::UnsupportedCaseShape { .. })));
}

#[test]
fn second_catch_all_is_rejected() {
    let r = Classifier::compile(
        vec![case("Generic", 1, &[]), case("AlsoGeneric", 1, &[])],
        false,
    );
    assert!(matches!(r, Err(CompileError::MultipleCatchAllCases { .. })));
}

#[test]
fn malformed_pattern_is_rejected() {
    let r = Classifier::compile(vec![case("Broken", 0, &["^(unclosed$"])], false);
    assert!(matches!(r, Err(CompileError::InvalidPattern { .. })));
}

#[test]
fn unanchored_pattern_matches_substring() {
    // Legacy-permissive mode: an unanchored pattern may match inside the
    // input; anchored compilation of the same table must match the whole
    // input.
    let permissive = Classifier::compile(vec![case("Hit", 0, &["moin"])], false).unwrap();
    let anchored = Classifier::compile(vec![case("Hit", 0, &["moin"])], true).unwrap();
    assert_eq!(permissive.classify("xx moin yy").unwrap().case_name, "Hit");
    assert!(anchored.classify("xx moin yy").is_err());
    assert_eq!(anchored.classify("moin").unwrap().case_name, "Hit");
}

#[test]
fn unmatched_group_yields_empty_field() {
    // A capture group that did not participate in the match contributes an
    // empty field; position and count are kept.
    let c = Classifier::compile(vec![case("Opt", 2, &["^a(b)?(c)$"])], false).unwrap();
    let r = c.classify("ac").unwrap();
    assert_eq!(r.fields, vec!["".to_string(), "c".to_string()]);
    let r = c.classify("abc").unwrap();
    assert_eq!(r.fields, vec!["b".to_string(), "c".to_string()]);
}

#[test]
fn anchoring_wraps_alternation_safely() {
    // The anchoring wrapper groups the pattern, so an alternation cannot
    // escape the anchors.
    let c = Classifier::compile(vec![case("AB", 0, &["a|b"])], true).unwrap();
    assert!(c.classify("xa").is_err());
    assert_eq!(c.classify("b").unwrap().case_name, "AB");
}

#[test]
fn matching_is_case_sensitive_and_untrimmed() {
    let c = Classifier::compile(vec![case("Exact", 1, &["^v=(.*)$"])], false).unwrap();
    // Case matters.
    assert!(c.classify("V=x").is_err());
    // Captured text is returned verbatim, whitespace included.
    let r = c.classify("v=  padded  ").unwrap();
    assert_eq!(r.fields, vec!["  padded  ".to_string()]);
}

#[test]
fn classification_reports_the_case_index() {
    let c = enum2();
    assert_eq!(c.classify("moin").unwrap().case_index, 0);
    assert_eq!(c.classify("moin moin x!").unwrap().case_index, 1);
    assert_eq!(c.classify("anything else").unwrap().case_index, 2);
}
