//! The pattern compiler and the classifier runtime.
//!
//! A table of named cases — each with an arity and an ordered list of regex
//! patterns — is validated and compiled into a [`Classifier`]. Classification
//! evaluates the compiled patterns strictly in declaration order,
//! first-match-wins, and extracts the capture groups of the first pattern
//! that matches; a designated catch-all case (one with no patterns) receives
//! the whole input verbatim when nothing else matched.

use vstd::prelude::*;

use crate::regexes::{regex_captures, regex_found, regex_group_count, regex_groups, regex_valid};

verus! {

/// One case of a classification table: its name, the number of extracted
/// fields, whether those fields are named (unsupported) rather than
/// positional, and the ordered patterns that select the case.
pub struct CaseSpec {
    pub name: String,
    pub arity: usize,
    pub named_fields: bool,
    pub patterns: Vec<String>,
}

/// The mathematical content of a [`CaseSpec`].
pub ghost struct CaseSpecView {
    pub name: Seq<char>,
    pub arity: nat,
    pub named_fields: bool,
    pub patterns: Seq<Seq<char>>,
}

impl DeepView for CaseSpec {
    type V = CaseSpecView;

    open spec fn deep_view(&self) -> CaseSpecView {
        CaseSpecView {
            name: self.name@,
            arity: self.arity as nat,
            named_fields: self.named_fields,
            patterns: self.patterns.deep_view(),
        }
    }
}

/// A compiled case: as a [`CaseSpec`], but with the patterns already
/// validated (and anchored, when compilation was asked for that).
pub struct CompiledCase {
    pub name: String,
    pub arity: usize,
    pub patterns: Vec<String>,
}

/// The mathematical content of a [`CompiledCase`].
pub ghost struct CompiledCaseView {
    pub name: Seq<char>,
    pub arity: nat,
    pub patterns: Seq<Seq<char>>,
}

impl DeepView for CompiledCase {
    type V = CompiledCaseView;

    open spec fn deep_view(&self) -> CompiledCaseView {
        CompiledCaseView {
            name: self.name@,
            arity: self.arity as nat,
            patterns: self.patterns.deep_view(),
        }
    }
}

/// A compiled classification table: the cases in declaration order, and the
/// index of the catch-all case, if the table has one. The catch-all keeps
/// its position in `cases` but has no patterns, so ordered evaluation never
/// consults it; it is only the terminal fallback.
pub struct Classifier {
    pub cases: Vec<CompiledCase>,
    pub catch_all: Option<usize>,
}

/// The mathematical content of a [`Classifier`].
pub ghost struct ClassifierView {
    pub cases: Seq<CompiledCaseView>,
    pub catch_all: Option<int>,
}

impl View for Classifier {
    type V = ClassifierView;

    open spec fn view(&self) -> ClassifierView {
        ClassifierView {
            cases: self.cases.deep_view(),
            catch_all: match self.catch_all {
                Some(k) => Some(k as int),
                None => None,
            },
        }
    }
}

/// The outcome of a successful classification: which case was selected (its
/// index in the table and its name) and the extracted fields, in
/// left-to-right capture order. A catch-all outcome carries the whole input
/// as its single field.
pub struct Classification {
    pub case_index: usize,
    pub case_name: String,
    pub fields: Vec<String>,
}

/// Classification failure: no pattern matched and the table has no
/// catch-all case.
#[derive(Clone, Copy, PartialEq, Eq, Debug)]
pub struct NoMatch;

/// Why a table was rejected at compilation.
#[derive(Clone, PartialEq, Eq, Debug)]
pub enum CompileError {
    /// Some pattern of the named case, though well-formed, has a capture
    /// count that disagrees with the case's declared arity.
    SpecArityMismatch { case: String },
    /// The named case has named rather than positional fields, an arity
    /// above the supported maximum, or no patterns while its arity is not 1.
    UnsupportedCaseShape { case: String },
    /// The named case is a second catch-all candidate: an earlier case
    /// already has no patterns.
    MultipleCatchAllCases { case: String },
    /// The regex engine rejects the given pattern of the named case.
    InvalidPattern { case: String, pattern: String },
}

/// The mathematical content of a [`CompileError`].
pub ghost enum CompileErrorView {
    SpecArityMismatch { case: Seq<char> },
    UnsupportedCaseShape { case: Seq<char> },
    MultipleCatchAllCases { case: Seq<char> },
    InvalidPattern { case: Seq<char>, pattern: Seq<char> },
}

impl DeepView for CompileError {
    type V = CompileErrorView;

    open spec fn deep_view(&self) -> CompileErrorView {
        match self {
            CompileError::SpecArityMismatch { case } => CompileErrorView::SpecArityMismatch {
                case: case@,
            },
            CompileError::UnsupportedCaseShape { case } => CompileErrorView::UnsupportedCaseShape {
                case: case@,
            },
            CompileError::MultipleCatchAllCases { case } => CompileErrorView::MultipleCatchAllCases {
                case: case@,
            },
            CompileError::InvalidPattern { case, pattern } => CompileErrorView::InvalidPattern {
                case: case@,
                pattern: pattern@,
            },
        }
    }
}

// ------------------------------------------------------------------
// The compilation model.
// ------------------------------------------------------------------

/// The pattern as stored in the compiled table: wrapped in an anchored
/// non-capturing group when compilation was asked for whole-input matching,
/// verbatim otherwise.
pub open spec fn stored_pattern(p: Seq<char>, anchored: bool) -> Seq<char> {
    if anchored {
        "^(?:"@ + p + ")$"@
    } else {
        p
    }
}

/// The compiled form of one case.
pub open spec fn compiled_case_of(c: CaseSpecView, anchored: bool) -> CompiledCaseView {
    CompiledCaseView {
        name: c.name,
        arity: c.arity,
        patterns: c.patterns.map_values(|p: Seq<char>| stored_pattern(p, anchored)),
    }
}

/// A case the compiler can accept at all: positional fields, arity at most
/// 4, and — when it has no patterns, making it a catch-all candidate —
/// arity exactly 1.
pub open spec fn shape_ok(c: CaseSpecView) -> bool {
    &&& !c.named_fields
    &&& c.arity <= 4
    &&& c.patterns.len() == 0 ==> c.arity == 1
}

/// The first fault among the case's patterns from position `j` on: a
/// pattern the engine rejects, or one whose capture count disagrees with
/// the declared arity.
pub open spec fn pattern_error_from(c: CaseSpecView, anchored: bool, j: int) -> Option<
    CompileErrorView,
>
    decreases c.patterns.len() - j,
{
    if j < 0 || j >= c.patterns.len() {
        None
    } else {
        let sp = stored_pattern(c.patterns[j], anchored);
        if !regex_valid(sp) {
            Some(CompileErrorView::InvalidPattern { case: c.name, pattern: c.patterns[j] })
        } else if regex_groups(sp) != c.arity + 1 {
            Some(CompileErrorView::SpecArityMismatch { case: c.name })
        } else {
            pattern_error_from(c, anchored, j + 1)
        }
    }
}

/// The fault of one case, under the knowledge whether an earlier case was
/// already a catch-all candidate.
pub open spec fn case_error(c: CaseSpecView, seen_catch_all: bool, anchored: bool) -> Option<
    CompileErrorView,
> {
    if !shape_ok(c) {
        Some(CompileErrorView::UnsupportedCaseShape { case: c.name })
    } else if c.patterns.len() == 0 && seen_catch_all {
        Some(CompileErrorView::MultipleCatchAllCases { case: c.name })
    } else {
        pattern_error_from(c, anchored, 0)
    }
}

/// The first fault of the table from position `i` on.
pub open spec fn compile_error_from(
    specs: Seq<CaseSpecView>,
    anchored: bool,
    i: int,
    seen_catch_all: bool,
) -> Option<CompileErrorView>
    decreases specs.len() - i,
{
    if i < 0 || i >= specs.len() {
        None
    } else {
        match case_error(specs[i], seen_catch_all, anchored) {
            Some(e) => Some(e),
            None => compile_error_from(
                specs,
                anchored,
                i + 1,
                seen_catch_all || specs[i].patterns.len() == 0,
            ),
        }
    }
}

/// The first fault of the whole table; compilation succeeds exactly when
/// there is none.
pub open spec fn table_error(specs: Seq<CaseSpecView>, anchored: bool) -> Option<
    CompileErrorView,
> {
    compile_error_from(specs, anchored, 0, false)
}

/// The first catch-all candidate (case without patterns) from position `i`
/// on.
pub open spec fn catch_all_from(specs: Seq<CaseSpecView>, i: int) -> Option<int>
    decreases specs.len() - i,
{
    if i < 0 || i >= specs.len() {
        None
    } else if specs[i].patterns.len() == 0 {
        Some(i)
    } else {
        catch_all_from(specs, i + 1)
    }
}

/// What a fault-free table compiles to.
pub open spec fn compiled_view(specs: Seq<CaseSpecView>, anchored: bool) -> ClassifierView {
    ClassifierView {
        cases: specs.map_values(|c: CaseSpecView| compiled_case_of(c, anchored)),
        catch_all: catch_all_from(specs, 0),
    }
}

/// Every stored pattern of the case is well-formed and captures exactly the
/// case's arity (beyond the implicit whole-match group).
pub open spec fn case_wf(c: CompiledCaseView) -> bool {
    forall|j: int|
        0 <= j < c.patterns.len() ==> regex_valid(#[trigger] c.patterns[j]) && regex_groups(
            c.patterns[j],
        ) == c.arity + 1
}

impl Classifier {
    /// What compilation guarantees of its result, and what classification
    /// relies on: validated patterns throughout, and a catch-all — if any —
    /// that stands in the table, has no patterns, and has arity 1.
    pub open spec fn wf(&self) -> bool {
        &&& forall|i: int| 0 <= i < self@.cases.len() ==> case_wf(#[trigger] self@.cases[i])
        &&& match self@.catch_all {
            Some(k) => 0 <= k < self@.cases.len() && self@.cases[k].patterns.len() == 0
                && self@.cases[k].arity == 1,
            None => true,
        }
    }
}

// ------------------------------------------------------------------
// The classification model.
// ------------------------------------------------------------------

/// The text of one capture group: what the engine captured, or empty for a
/// group that did not participate in the match.
pub open spec fn group_text(g: Option<Seq<char>>) -> Seq<char> {
    match g {
        Some(s) => s,
        None => Seq::empty(),
    }
}

/// The fields a matching pattern extracts: its capture groups beyond the
/// whole-match group, in left-to-right order.
pub open spec fn match_fields(pat: Seq<char>, input: Seq<char>) -> Seq<Seq<char>> {
    let gs = regex_found(pat, input)->0;
    Seq::new((gs.len() - 1) as nat, |k: int| group_text(gs[k + 1]))
}

/// The first pattern from position `j` on that matches the input.
pub open spec fn selected_pattern_from(pats: Seq<Seq<char>>, input: Seq<char>, j: int) -> Option<
    int,
>
    decreases pats.len() - j,
{
    if j < 0 || j >= pats.len() {
        None
    } else if regex_found(pats[j], input) is Some {
        Some(j)
    } else {
        selected_pattern_from(pats, input, j + 1)
    }
}

/// The first of the case's patterns that matches the input.
pub open spec fn selected_pattern(pats: Seq<Seq<char>>, input: Seq<char>) -> Option<int> {
    selected_pattern_from(pats, input, 0)
}

/// Whether some pattern of the case matches the input.
pub open spec fn case_matches(c: CompiledCaseView, input: Seq<char>) -> bool {
    selected_pattern(c.patterns, input) is Some
}

/// The first case from position `i` on with a matching pattern.
pub open spec fn selected_case_from(cases: Seq<CompiledCaseView>, input: Seq<char>, i: int) -> Option<
    int,
>
    decreases cases.len() - i,
{
    if i < 0 || i >= cases.len() {
        None
    } else if case_matches(cases[i], input) {
        Some(i)
    } else {
        selected_case_from(cases, input, i + 1)
    }
}

/// The first case of the table with a matching pattern: the one
/// classification selects.
pub open spec fn selected_case(cases: Seq<CompiledCaseView>, input: Seq<char>) -> Option<int> {
    selected_case_from(cases, input, 0)
}

/// What classification returns: the selected case with the fields its first
/// matching pattern extracts; failing that, the catch-all case with the
/// whole input; failing that, nothing.
pub open spec fn classify_spec(v: ClassifierView, input: Seq<char>) -> Option<
    (int, Seq<Seq<char>>),
> {
    match selected_case(v.cases, input) {
        Some(i) => {
            let c = v.cases[i];
            Some((i, match_fields(c.patterns[selected_pattern(c.patterns, input)->0], input)))
        },
        None => match v.catch_all {
            Some(k) => Some((k, seq![input])),
            None => None,
        },
    }
}

/// Compiling a table and classifying an input in one stroke, as the
/// decoders use it: the classification outcome when the table compiles
/// without anchoring, nothing when it does not or when nothing matches.
pub open spec fn classified(table: Seq<CaseSpecView>, input: Seq<char>) -> Option<
    (int, Seq<Seq<char>>),
> {
    match table_error(table, false) {
        Some(_) => None,
        None => classify_spec(compiled_view(table, false), input),
    }
}

// ------------------------------------------------------------------
// Compilation.
// ------------------------------------------------------------------

impl Classifier {
    /// Validate a table of case specifications and compile it. With
    /// `anchored`, every pattern is wrapped so that it must match the whole
    /// input; without, a pattern may match a substring, as the pattern
    /// author wrote it.
    pub fn compile(specs: Vec<CaseSpec>, anchored: bool) -> (r: Result<Classifier, CompileError>)
        ensures
            match r {
                Ok(c) => table_error(specs.deep_view(), anchored) is None && c@ == compiled_view(
                    specs.deep_view(),
                    anchored,
                ) && c.wf(),
                Err(e) => Some(e.deep_view()) == table_error(specs.deep_view(), anchored),
            },
    {
        let ghost sv = specs.deep_view();
        let mut cases: Vec<CompiledCase> = Vec::new();
        let mut catch_all: Option<usize> = None;
        let mut i: usize = 0;
        while i < specs.len()
            invariant
                i <= specs.len(),
                sv == specs.deep_view(),
                sv.len() == specs.len(),
                table_error(sv, anchored) == compile_error_from(
                    sv,
                    anchored,
                    i as int,
                    catch_all is Some,
                ),
                match catch_all {
                    Some(k) => k < i && catch_all_from(sv, 0) == Some(k as int) && sv[
                        k as int
                    ].patterns.len() == 0 && sv[k as int].arity == 1,
                    None => catch_all_from(sv, 0) == catch_all_from(sv, i as int),
                },
                cases.len() == i,
                forall|k: int|
                    0 <= k < i ==> cases.deep_view()[k] == compiled_case_of(
                        sv[k],
                        anchored,
                    ) && case_wf(#[trigger] cases.deep_view()[k]),
            decreases specs.len() - i,
        {
            let spec_i = &specs[i];
            if spec_i.named_fields || spec_i.arity > 4 || (spec_i.patterns.len() == 0
                && spec_i.arity != 1) {
                return Err(CompileError::UnsupportedCaseShape { case: spec_i.name.clone() });
            }
            let mut stored: Vec<String> = Vec::new();
            let mut j: usize = 0;
            while j < spec_i.patterns.len()
                invariant
                    j <= spec_i.patterns.len(),
                    sv == specs.deep_view(),
                    spec_i.deep_view() == sv[i as int],
                    i < sv.len(),
                    shape_ok(sv[i as int]),
                    table_error(sv, anchored) == compile_error_from(
                        sv,
                        anchored,
                        i as int,
                        catch_all is Some,
                    ),
                    pattern_error_from(sv[i as int], anchored, 0) == pattern_error_from(
                        sv[i as int],
                        anchored,
                        j as int,
                    ),
                    stored.len() == j,
                    forall|k: int|
                        0 <= k < j ==> stored.deep_view()[k] == stored_pattern(
                            sv[i as int].patterns[k],
                            anchored,
                        ) && regex_valid(#[trigger] stored.deep_view()[k]) && regex_groups(
                            stored.deep_view()[k],
                        ) == sv[i as int].arity + 1,
                decreases spec_i.patterns.len() - j,
            {
                let p = &spec_i.patterns[j];
                let sp: String = if anchored {
                    let mut w = String::from_str("^(?:");
                    w.append(p.as_str());
                    w.append(")$");
                    w
                } else {
                    p.clone()
                };
                assert(sp@ == stored_pattern(sv[i as int].patterns[j as int], anchored));
                match regex_group_count(sp.as_str()) {
                    None => {
                        proof {
                            assert(pattern_error_from(sv[i as int], anchored, j as int)
                                == Some(
                                CompileErrorView::InvalidPattern {
                                    case: sv[i as int].name,
                                    pattern: sv[i as int].patterns[j as int],
                                },
                            ));
                            assert(case_error(sv[i as int], catch_all is Some, anchored)
                                == pattern_error_from(sv[i as int], anchored, 0));
                        }
                        return Err(
                            CompileError::InvalidPattern {
                                case: spec_i.name.clone(),
                                pattern: p.clone(),
                            },
                        );
                    },
                    Some(n) => {
                        if n != spec_i.arity + 1 {
                            proof {
                                assert(pattern_error_from(sv[i as int], anchored, j as int)
                                    == Some(
                                    CompileErrorView::SpecArityMismatch { case: sv[i as int].name },
                                ));
                                assert(case_error(sv[i as int], catch_all is Some, anchored)
                                    == pattern_error_from(sv[i as int], anchored, 0));
                            }
                            return Err(
                                CompileError::SpecArityMismatch { case: spec_i.name.clone() },
                            );
                        }
                    },
                }
                let ghost prev_stored = stored.deep_view();
                stored.push(sp);
                proof {
                    assert(stored.deep_view() =~= prev_stored.push(sp@));
                }
                j += 1;
            }
            proof {
                assert(stored.deep_view() =~= sv[i as int].patterns.map_values(
                    |q: Seq<char>| stored_pattern(q, anchored),
                ));
            }
            let ghost seen0 = catch_all is Some;
            if spec_i.patterns.len() == 0 {
                if catch_all.is_some() {
                    proof {
                        assert(case_error(sv[i as int], true, anchored) == Some(
                            CompileErrorView::MultipleCatchAllCases { case: sv[i as int].name },
                        ));
                    }
                    return Err(CompileError::MultipleCatchAllCases { case: spec_i.name.clone() });
                }
                catch_all = Some(i);
            }
            let ghost prev_cases = cases.deep_view();
            cases.push(
                CompiledCase { name: spec_i.name.clone(), arity: spec_i.arity, patterns: stored },
            );
            proof {
                assert(cases.deep_view() =~= prev_cases.push(
                    compiled_case_of(sv[i as int], anchored),
                ));
                assert(case_error(sv[i as int], seen0, anchored) is None);
                assert(compile_error_from(sv, anchored, i as int, seen0) == compile_error_from(
                    sv,
                    anchored,
                    i + 1,
                    seen0 || sv[i as int].patterns.len() == 0,
                ));
            }
            i += 1;
        }
        let result = Classifier { cases, catch_all };
        proof {
            assert(result@.cases =~= sv.map_values(|c: CaseSpecView| compiled_case_of(c, anchored)));
            assert(catch_all_from(sv, sv.len() as int) is None);
            assert(result@.catch_all == catch_all_from(sv, 0));
            assert(result@ == compiled_view(sv, anchored));
        }
        Ok(result)
    }
}

// ------------------------------------------------------------------
// Classification.
// ------------------------------------------------------------------

impl Classifier {
    /// Classify an input string: evaluate the compiled patterns strictly in
    /// declaration order and return the first case one of whose patterns
    /// matches, with the fields that pattern extracts; fall back to the
    /// catch-all case, which receives the input verbatim; without a
    /// catch-all, fail with [`NoMatch`].
    ///
    /// Matching is case-sensitive and extracted fields are returned
    /// verbatim, without trimming: the classifier adds nothing to what the
    /// pattern captures.
    pub fn classify(&self, input: &str) -> (r: Result<Classification, NoMatch>)
        requires
            self.wf(),
        ensures
            match r {
                Ok(c) => {
                    &&& classify_spec(self@, input@) matches Some(out)
                    &&& out.0 == c.case_index
                    &&& c.case_index < self@.cases.len()
                    &&& c.case_name@ == self@.cases[c.case_index as int].name
                    &&& c.fields.deep_view() == out.1
                    &&& c.fields.len() == self@.cases[c.case_index as int].arity
                },
                Err(_) => classify_spec(self@, input@) is None,
            },
    {
        let ghost v = self@;
        let mut i: usize = 0;
        while i < self.cases.len()
            invariant
                self.wf(),
                v == self@,
                i <= self.cases.len(),
                selected_case(v.cases, input@) == selected_case_from(v.cases, input@, i as int),
            decreases self.cases.len() - i,
        {
            let case_i = &self.cases[i];
            let mut j: usize = 0;
            while j < case_i.patterns.len()
                invariant
                    self.wf(),
                    v == self@,
                    i < self.cases.len(),
                    case_i.deep_view() == v.cases[i as int],
                    j <= case_i.patterns.len(),
                    selected_case(v.cases, input@) == selected_case_from(
                        v.cases,
                        input@,
                        i as int,
                    ),
                    selected_pattern(v.cases[i as int].patterns, input@)
                        == selected_pattern_from(v.cases[i as int].patterns, input@, j as int),
                decreases case_i.patterns.len() - j,
            {
                let pat = &case_i.patterns[j];
                match regex_captures(pat.as_str(), input) {
                    Some(caps) => {
                        let ghost spat = v.cases[i as int].patterns[j as int];
                        proof {
                            assert(regex_found(spat, input@) is Some);
                            assert(selected_pattern(v.cases[i as int].patterns, input@) == Some(
                                j as int,
                            ));
                            assert(case_matches(v.cases[i as int], input@));
                            assert(selected_case(v.cases, input@) == Some(i as int));
                        }
                        let mut fields: Vec<String> = Vec::new();
                        let mut k: usize = 1;
                        while k < caps.len()
                            invariant
                                1 <= k <= caps.len(),
                                regex_found(spat, input@) == Some(caps.deep_view()),
                                caps.len() == caps.deep_view().len(),
                                fields.len() == k - 1,
                                forall|m: int|
                                    0 <= m < k - 1 ==> fields.deep_view()[m] == group_text(
                                        caps.deep_view()[m + 1],
                                    ),
                            decreases caps.len() - k,
                        {
                            let f = match &caps[k] {
                                Some(s) => s.clone(),
                                None => String::new(),
                            };
                            let ghost fv = f@;
                            let ghost prev = fields.deep_view();
                            fields.push(f);
                            proof {
                                assert(fields.deep_view() =~= prev.push(fv));
                            }
                            k += 1;
                        }
                        proof {
                            assert(fields.deep_view() =~= match_fields(spat, input@));
                        }
                        return Ok(
                            Classification {
                                case_index: i,
                                case_name: case_i.name.clone(),
                                fields,
                            },
                        );
                    },
                    None => {
                        proof {
                            assert(selected_pattern_from(
                                v.cases[i as int].patterns,
                                input@,
                                j as int,
                            ) == selected_pattern_from(
                                v.cases[i as int].patterns,
                                input@,
                                j + 1,
                            ));
                        }
                    },
                }
                j += 1;
            }
            proof {
                assert(selected_pattern_from(
                    v.cases[i as int].patterns,
                    input@,
                    case_i.patterns.len() as int,
                ) is None);
                assert(!case_matches(v.cases[i as int], input@));
                assert(selected_case_from(v.cases, input@, i as int) == selected_case_from(
                    v.cases,
                    input@,
                    i + 1,
                ));
            }
            i += 1;
        }
        proof {
            assert(selected_case_from(v.cases, input@, v.cases.len() as int) is None);
        }
        match self.catch_all {
            Some(k) => {
                let mut fields: Vec<String> = Vec::new();
                fields.push(String::from_str(input));
                proof {
                    assert(fields.deep_view() =~= seq![input@]);
                }
                Ok(
                    Classification {
                        case_index: k,
                        case_name: self.cases[k].name.clone(),
                        fields,
                    },
                )
            },
            None => Err(NoMatch),
        }
    }
}

// ------------------------------------------------------------------
// Laws of the classifier.
// ------------------------------------------------------------------

/// A selected case lies in the table and has a matching pattern.
proof fn lemma_selected_case_bounds(
    cases: Seq<CompiledCaseView>,
    input: Seq<char>,
    k: int,
    i: int,
)
    requires
        selected_case_from(cases, input, k) == Some(i),
    ensures
        k <= i < cases.len(),
        case_matches(cases[i], input),
    decreases cases.len() - k,
{
    if 0 <= k < cases.len() && !case_matches(cases[k], input) {
        lemma_selected_case_bounds(cases, input, k + 1, i);
    }
}

/// Order sensitivity: when two cases both match an input, the declared
/// order alone decides the outcome. A table holding `a` before `b` selects
/// `a`; the table with the order reversed selects `b` — a later match,
/// however specific, is never preferred.
pub proof fn lemma_order_sensitivity(a: CompiledCaseView, b: CompiledCaseView, input: Seq<char>)
    requires
        case_matches(a, input),
        case_matches(b, input),
    ensures
        selected_case(seq![a, b], input) == Some(0int),
        selected_case(seq![b, a], input) == Some(0int),
{
    assert(seq![a, b][0] == a);
    assert(seq![b, a][0] == b);
}

/// No pattern of the case from position `k` on escapes the fault check.
proof fn lemma_pattern_error_some(c: CaseSpecView, anchored: bool, k: int, j: int)
    requires
        0 <= k <= j < c.patterns.len(),
        regex_valid(stored_pattern(c.patterns[j], anchored)),
        regex_groups(stored_pattern(c.patterns[j], anchored)) != c.arity + 1,
    ensures
        pattern_error_from(c, anchored, k) is Some,
    decreases j - k,
{
    if k < j {
        if regex_valid(stored_pattern(c.patterns[k], anchored)) && regex_groups(
            stored_pattern(c.patterns[k], anchored),
        ) == c.arity + 1 {
            lemma_pattern_error_some(c, anchored, k + 1, j);
        }
    }
}

/// A case at fault under either catch-all flag makes the whole table
/// compilation fail, wherever the scan stands before it.
proof fn lemma_table_error_some(
    specs: Seq<CaseSpecView>,
    anchored: bool,
    k: int,
    i: int,
    seen: bool,
)
    requires
        0 <= k <= i < specs.len(),
        case_error(specs[i], false, anchored) is Some,
        case_error(specs[i], true, anchored) is Some,
    ensures
        compile_error_from(specs, anchored, k, seen) is Some,
    decreases i - k,
{
    if k < i && case_error(specs[k], seen, anchored) is None {
        lemma_table_error_some(specs, anchored, k + 1, i, seen || specs[k].patterns.len() == 0);
    }
}

/// Arity agreement: a table holding a case one of whose patterns is
/// well-formed but captures a number of fields different from the case's
/// declared arity does not compile: [`Classifier::compile`] returns an
/// error, and no classifier exists.
pub proof fn lemma_arity_mismatch(specs: Seq<CaseSpecView>, anchored: bool, i: int, j: int)
    requires
        0 <= i < specs.len(),
        0 <= j < specs[i].patterns.len(),
        regex_valid(stored_pattern(specs[i].patterns[j], anchored)),
        regex_groups(stored_pattern(specs[i].patterns[j], anchored)) != specs[i].arity + 1,
    ensures
        table_error(specs, anchored) is Some,
{
    if shape_ok(specs[i]) {
        lemma_pattern_error_some(specs[i], anchored, 0, j);
    }
    lemma_table_error_some(specs, anchored, 0, i, false);
}

/// Round trip of captures: when a case is selected, the classification
/// carries the capture groups of its first matching pattern verbatim, in
/// left-to-right order — one field per group beyond the whole match,
/// nothing added, dropped or reordered. `gs` stands for what the engine
/// reported for that pattern, whose group count is the case's arity plus
/// the whole-match group.
pub proof fn lemma_capture_round_trip(
    v: ClassifierView,
    input: Seq<char>,
    i: int,
    gs: Seq<Option<Seq<char>>>,
)
    requires
        selected_case(v.cases, input) == Some(i),
        regex_found(
            v.cases[i].patterns[selected_pattern(v.cases[i].patterns, input)->0],
            input,
        ) == Some(gs),
        gs.len() == v.cases[i].arity + 1,
    ensures
        0 <= i < v.cases.len(),
        classify_spec(v, input) matches Some(out) && out.0 == i && out.1.len()
            == v.cases[i].arity && (forall|m: int|
            0 <= m < v.cases[i].arity ==> out.1[m] == group_text(gs[m + 1])),
{
    lemma_selected_case_bounds(v.cases, input, 0, i);
}

/// Catch-all totality: a classifier with a catch-all case never fails.
/// Whatever the input — the empty string included — classification yields
/// a case; and whenever no pattern matches, it is the catch-all case,
/// holding the input verbatim as its single field.
pub proof fn lemma_catch_all_totality(v: ClassifierView, input: Seq<char>)
    requires
        v.catch_all is Some,
    ensures
        classify_spec(v, input) is Some,
        selected_case(v.cases, input) is None ==> classify_spec(v, input) == Some(
            (v.catch_all->0, seq![input]),
        ),
{
}

/// Absence of a catch-all: a classifier without one fails with no match on
/// every input that none of its patterns matches.
pub proof fn lemma_no_catch_all(v: ClassifierView, input: Seq<char>)
    requires
        v.catch_all is None,
        selected_case(v.cases, input) is None,
    ensures
        classify_spec(v, input) is None,
{
}

} // verus!
