//! The error taxonomy: one enum per coarse category that carries
//! sub-detail, each with the classification table that resolves a message
//! text to one of its variants.
//!
//! Every table is static configuration: the case order is load-bearing
//! (classification is first-match-wins), and a case whose patterns overlap
//! an earlier case's — such as the generic `Missing` after the specific
//! `MissingAmountForCoins` — must stand after it.

use vstd::prelude::*;

use crate::classifier::{
    classified, CaseSpec, CaseSpecView, Classifier, NoMatch,
};

verus! {

/// A table entry: a positional case of the given name and arity.
pub open spec fn case_v(name: Seq<char>, arity: nat, patterns: Seq<Seq<char>>) -> CaseSpecView {
    CaseSpecView { name, arity, named_fields: false, patterns }
}

/// Build a positional case.
fn case(name: &str, arity: usize, patterns: Vec<String>) -> (r: CaseSpec)
    ensures
        r.deep_view() == (CaseSpecView {
            name: name@,
            arity: arity as nat,
            named_fields: false,
            patterns: patterns.deep_view(),
        }),
{
    CaseSpec { name: String::from_str(name), arity, named_fields: false, patterns }
}

/// No patterns: the catch-all shape.
fn pats0() -> (r: Vec<String>)
    ensures
        r.deep_view() == Seq::<Seq<char>>::empty(),
{
    let v: Vec<String> = Vec::new();
    proof {
        assert(v.deep_view() =~= Seq::<Seq<char>>::empty());
    }
    v
}

/// One pattern.
fn pats1(a: &str) -> (r: Vec<String>)
    ensures
        r.deep_view() == seq![a@],
{
    let mut v: Vec<String> = Vec::new();
    v.push(String::from_str(a));
    proof {
        assert(v.deep_view() =~= seq![a@]);
    }
    v
}

/// Two patterns, tried in order.
fn pats2(a: &str, b: &str) -> (r: Vec<String>)
    ensures
        r.deep_view() == seq![a@, b@],
{
    let mut v: Vec<String> = Vec::new();
    v.push(String::from_str(a));
    v.push(String::from_str(b));
    proof {
        assert(v.deep_view() =~= seq![a@, b@]);
    }
    v
}

// ------------------------------------------------------------------
// Miscellaneous command-handling errors.
// ------------------------------------------------------------------

/// The sub-cases of a miscellaneous command-handling failure.
#[derive(Clone, Debug, PartialEq)]
pub enum MiscError {
    BlockHeaderMissing,
    BlockUnavailablePrunedNode,
    BlockAlreadyDownloaded,
    BlockNotFound,
    UndoUnavailablePrunedNode,
    UndoNotFound,
    PruneForbidden,
    ChainToShort,
    ArgumentMissing,
    IndexFilterForbidden(String),
    InvalidStartHeight,
    InvalidStopHeight,
    IndexNotReady,
    SignerArgMissing,
    TxNotInMempool,
    MempoolNotLoaded,
    CanNotDumpMempool,
    BlockGenerationFailed,
    EmptyAddresses,
    BlockNotAvailable,
    FailedToDisplayAddress,
    RescanUserAborted,
    MissingFields,
    RescanFailed(String, String, String),
    ScanBeyondPrune,
    RescanCorrupted,
    RescanAborted,
    WalletUnloaded,
    Generic(String),
}

/// The position of the variant in the table.
pub open spec fn misc_error_case(e: MiscError) -> int {
    match e {
        MiscError::BlockHeaderMissing => 0,
        MiscError::BlockUnavailablePrunedNode => 1,
        MiscError::BlockAlreadyDownloaded => 2,
        MiscError::BlockNotFound => 3,
        MiscError::UndoUnavailablePrunedNode => 4,
        MiscError::UndoNotFound => 5,
        MiscError::PruneForbidden => 6,
        MiscError::ChainToShort => 7,
        MiscError::ArgumentMissing => 8,
        MiscError::IndexFilterForbidden(_) => 9,
        MiscError::InvalidStartHeight => 10,
        MiscError::InvalidStopHeight => 11,
        MiscError::IndexNotReady => 12,
        MiscError::SignerArgMissing => 13,
        MiscError::TxNotInMempool => 14,
        MiscError::MempoolNotLoaded => 15,
        MiscError::CanNotDumpMempool => 16,
        MiscError::BlockGenerationFailed => 17,
        MiscError::EmptyAddresses => 18,
        MiscError::BlockNotAvailable => 19,
        MiscError::FailedToDisplayAddress => 20,
        MiscError::RescanUserAborted => 21,
        MiscError::MissingFields => 22,
        MiscError::RescanFailed(_, _, _) => 23,
        MiscError::ScanBeyondPrune => 24,
        MiscError::RescanCorrupted => 25,
        MiscError::RescanAborted => 26,
        MiscError::WalletUnloaded => 27,
        MiscError::Generic(_) => 28,
    }
}

/// The extracted fields the variant carries.
pub open spec fn misc_error_fields(e: MiscError) -> Seq<Seq<char>> {
    match e {
        MiscError::IndexFilterForbidden(a) => seq![a@],
        MiscError::RescanFailed(a, b, c) => seq![a@, b@, c@],
        MiscError::Generic(a) => seq![a@],
        _ => Seq::empty(),
    }
}

/// The classification table of [`MiscError`], in declaration order.
pub open spec fn misc_error_table() -> Seq<CaseSpecView> {
    seq![
        case_v("BlockHeaderMissing"@, 0, seq!["^Block header missing$"@]),
        case_v(
            "BlockUnavailablePrunedNode"@,
            0,
            seq![
                "^In prune mode, only blocks that the node has already synced previously can be fetched from a peer$"@,
                "^Block not available \\(pruned data\\)$"@,
            ],
        ),
        case_v("BlockAlreadyDownloaded"@, 0, seq!["^Block already downloaded$"@]),
        case_v("BlockNotFound"@, 0, seq!["^Block not found on disk$"@]),
        case_v(
            "UndoUnavailablePrunedNode"@,
            0,
            seq!["^Undo data not available \\(pruned data\\)$"@],
        ),
        case_v("UndoNotFound"@, 0, seq!["^Can't read undo data from disk$"@]),
        case_v(
            "PruneForbidden"@,
            0,
            seq!["^Cannot prune blocks because node is not in prune mode.$"@],
        ),
        case_v("ChainToShort"@, 0, seq!["^Blockchain is too short for pruning.$"@]),
        case_v(
            "ArgumentMissing"@,
            0,
            seq!["^scanobjects argument is required for the start action$"@],
        ),
        case_v("IndexFilterForbidden"@, 1, seq!["^Index is not enabled for filtertype (.*)"@]),
        case_v("InvalidStartHeight"@, 0, seq!["^Invalid start_height$"@]),
        case_v("InvalidStopHeight"@, 0, seq!["^Invalid stop_height$"@]),
        case_v(
            "IndexNotReady"@,
            0,
            seq!["^Filter not found. Block filters are still in the process of being indexed.$"@],
        ),
        case_v("SignerArgMissing"@, 0, seq!["^Error: restart bitcoind with -signer=<cmd>$"@]),
        case_v("TxNotInMempool"@, 0, seq!["^Transaction is not in mempool$"@]),
        case_v("MempoolNotLoaded"@, 0, seq!["^The mempool was not loaded yet$"@]),
        case_v("CanNotDumpMempool"@, 0, seq!["^Unable to dump mempool to disk$"@]),
        case_v("BlockGenerationFailed"@, 0, seq!["^Failed to make block.$"@]),
        case_v("EmptyAddresses"@, 0, seq!["^Unexpected empty result$"@]),
        case_v("BlockNotAvailable"@, 0, seq!["^Block not available$"@]),
        case_v("FailedToDisplayAddress"@, 0, seq!["^Failed to display address$"@]),
        case_v("RescanUserAborted"@, 0, seq!["^Rescan aborted by user.$"@]),
        case_v("MissingFields"@, 0, seq!["^Missing required fields$"@]),
        case_v(
            "RescanFailed"@,
            3,
            seq![
                "^Rescan failed for key with creation timestamp (.*). There was an error reading a block from time (.*), which is after or within (.*) seconds of key creation, and could contain transactions pertaining to the key. As a result, transactions and coins using this key may not appear in the wallet. This error could be caused by pruning or data corruption \\(see bitcoind log for details\\) and could be dealt with by downloading and rescanning the relevant blocks \\(see -reindex option and rescanblockchain RPC\\).$"@,
            ],
        ),
        case_v(
            "ScanBeyondPrune"@,
            0,
            seq![
                "^Can't rescan beyond pruned data. Use RPC call getblockchaininfo to determine your pruned height.$"@,
            ],
        ),
        case_v("RescanCorrupted"@, 0, seq!["^Rescan failed. Potentially corrupted data files.$"@]),
        case_v("RescanAborted"@, 0, seq!["^Rescan aborted.$"@]),
        case_v("WalletUnloaded"@, 0, seq!["^Requested wallet already unloaded$"@]),
        case_v("Generic"@, 1, Seq::empty()),
    ]
}

/// Build the [`MiscError`] table.
pub fn misc_error_specs() -> (r: Vec<CaseSpec>)
    ensures
        r.deep_view() == misc_error_table(),
{
    let mut v: Vec<CaseSpec> = Vec::new();
    v.push(case("BlockHeaderMissing", 0, pats1("^Block header missing$")));
    v.push(
        case(
            "BlockUnavailablePrunedNode",
            0,
            pats2(
                "^In prune mode, only blocks that the node has already synced previously can be fetched from a peer$",
                "^Block not available \\(pruned data\\)$",
            ),
        ),
    );
    v.push(case("BlockAlreadyDownloaded", 0, pats1("^Block already downloaded$")));
    v.push(case("BlockNotFound", 0, pats1("^Block not found on disk$")));
    v.push(
        case("UndoUnavailablePrunedNode", 0, pats1("^Undo data not available \\(pruned data\\)$")),
    );
    v.push(case("UndoNotFound", 0, pats1("^Can't read undo data from disk$")));
    v.push(
        case("PruneForbidden", 0, pats1("^Cannot prune blocks because node is not in prune mode.$")),
    );
    v.push(case("ChainToShort", 0, pats1("^Blockchain is too short for pruning.$")));
    v.push(
        case("ArgumentMissing", 0, pats1("^scanobjects argument is required for the start action$")),
    );
    v.push(case("IndexFilterForbidden", 1, pats1("^Index is not enabled for filtertype (.*)")));
    v.push(case("InvalidStartHeight", 0, pats1("^Invalid start_height$")));
    v.push(case("InvalidStopHeight", 0, pats1("^Invalid stop_height$")));
    v.push(
        case(
            "IndexNotReady",
            0,
            pats1("^Filter not found. Block filters are still in the process of being indexed.$"),
        ),
    );
    v.push(case("SignerArgMissing", 0, pats1("^Error: restart bitcoind with -signer=<cmd>$")));
    v.push(case("TxNotInMempool", 0, pats1("^Transaction is not in mempool$")));
    v.push(case("MempoolNotLoaded", 0, pats1("^The mempool was not loaded yet$")));
    v.push(case("CanNotDumpMempool", 0, pats1("^Unable to dump mempool to disk$")));
    v.push(case("BlockGenerationFailed", 0, pats1("^Failed to make block.$")));
    v.push(case("EmptyAddresses", 0, pats1("^Unexpected empty result$")));
    v.push(case("BlockNotAvailable", 0, pats1("^Block not available$")));
    v.push(case("FailedToDisplayAddress", 0, pats1("^Failed to display address$")));
    v.push(case("RescanUserAborted", 0, pats1("^Rescan aborted by user.$")));
    v.push(case("MissingFields", 0, pats1("^Missing required fields$")));
    v.push(
        case(
            "RescanFailed",
            3,
            pats1(
                "^Rescan failed for key with creation timestamp (.*). There was an error reading a block from time (.*), which is after or within (.*) seconds of key creation, and could contain transactions pertaining to the key. As a result, transactions and coins using this key may not appear in the wallet. This error could be caused by pruning or data corruption \\(see bitcoind log for details\\) and could be dealt with by downloading and rescanning the relevant blocks \\(see -reindex option and rescanblockchain RPC\\).$",
            ),
        ),
    );
    v.push(
        case(
            "ScanBeyondPrune",
            0,
            pats1(
                "^Can't rescan beyond pruned data. Use RPC call getblockchaininfo to determine your pruned height.$",
            ),
        ),
    );
    v.push(case("RescanCorrupted", 0, pats1("^Rescan failed. Potentially corrupted data files.$")));
    v.push(case("RescanAborted", 0, pats1("^Rescan aborted.$")));
    v.push(case("WalletUnloaded", 0, pats1("^Requested wallet already unloaded$")));
    v.push(case("Generic", 1, pats0()));
    proof {
        assert(v.deep_view() =~= misc_error_table());
    }
    v
}

impl MiscError {
    /// Resolve a message text to its [`MiscError`] case: compile the table
    /// and classify. The `Generic` catch-all receives any text no pattern
    /// matches, so — with a table the regex engine accepts — this fails
    /// only if the engine rejects a table pattern.
    pub fn from_str(s: &str) -> (r: Result<MiscError, NoMatch>)
        ensures
            match r {
                Ok(e) => classified(misc_error_table(), s@) == Some(
                    (misc_error_case(e), misc_error_fields(e)),
                ),
                Err(_) => classified(misc_error_table(), s@) is None,
            },
    {
        let c = match Classifier::compile(misc_error_specs(), false) {
            Ok(c) => c,
            Err(_) => {
                return Err(NoMatch);
            },
        };
        let cl = match c.classify(s) {
            Ok(cl) => cl,
            Err(_) => {
                return Err(NoMatch);
            },
        };
        let e = match cl.case_index {
            0 => MiscError::BlockHeaderMissing,
            1 => MiscError::BlockUnavailablePrunedNode,
            2 => MiscError::BlockAlreadyDownloaded,
            3 => MiscError::BlockNotFound,
            4 => MiscError::UndoUnavailablePrunedNode,
            5 => MiscError::UndoNotFound,
            6 => MiscError::PruneForbidden,
            7 => MiscError::ChainToShort,
            8 => MiscError::ArgumentMissing,
            9 => MiscError::IndexFilterForbidden(cl.fields[0].clone()),
            10 => MiscError::InvalidStartHeight,
            11 => MiscError::InvalidStopHeight,
            12 => MiscError::IndexNotReady,
            13 => MiscError::SignerArgMissing,
            14 => MiscError::TxNotInMempool,
            15 => MiscError::MempoolNotLoaded,
            16 => MiscError::CanNotDumpMempool,
            17 => MiscError::BlockGenerationFailed,
            18 => MiscError::EmptyAddresses,
            19 => MiscError::BlockNotAvailable,
            20 => MiscError::FailedToDisplayAddress,
            21 => MiscError::RescanUserAborted,
            22 => MiscError::MissingFields,
            23 => MiscError::RescanFailed(
                cl.fields[0].clone(),
                cl.fields[1].clone(),
                cl.fields[2].clone(),
            ),
            24 => MiscError::ScanBeyondPrune,
            25 => MiscError::RescanCorrupted,
            26 => MiscError::RescanAborted,
            27 => MiscError::WalletUnloaded,
            _ => MiscError::Generic(cl.fields[0].clone()),
        };
        proof {
            assert(misc_error_fields(e) =~= cl.fields.deep_view());
        }
        Ok(e)
    }
}

// ------------------------------------------------------------------
// Type errors.
// ------------------------------------------------------------------

/// The sub-cases of an unexpected-parameter-type failure.
#[derive(Clone, Debug, PartialEq)]
pub enum TypeError {
    AddressNoKey,
    MalformedBase64,
    WrongJsonType(String, String, String),
    UnexpectedKey(String),
    AmountNotNumberOrString,
    AmountInvalid,
    AmountOutOfRange,
    WrongPassed(String),
    MissingKeyForProposal,
    WrongTimestamp(String),
    MissingTimestamp,
    MissingAmountForCoins(String),
    Missing(String),
}

/// The position of the variant in the table.
pub open spec fn type_error_case(e: TypeError) -> int {
    match e {
        TypeError::AddressNoKey => 0,
        TypeError::MalformedBase64 => 1,
        TypeError::WrongJsonType(_, _, _) => 2,
        TypeError::UnexpectedKey(_) => 3,
        TypeError::AmountNotNumberOrString => 4,
        TypeError::AmountInvalid => 5,
        TypeError::AmountOutOfRange => 6,
        TypeError::WrongPassed(_) => 7,
        TypeError::MissingKeyForProposal => 8,
        TypeError::WrongTimestamp(_) => 9,
        TypeError::MissingTimestamp => 10,
        TypeError::MissingAmountForCoins(_) => 11,
        TypeError::Missing(_) => 12,
    }
}

/// The extracted fields the variant carries.
pub open spec fn type_error_fields(e: TypeError) -> Seq<Seq<char>> {
    match e {
        TypeError::WrongJsonType(a, b, c) => seq![a@, b@, c@],
        TypeError::UnexpectedKey(a) => seq![a@],
        TypeError::WrongPassed(a) => seq![a@],
        TypeError::WrongTimestamp(a) => seq![a@],
        TypeError::MissingAmountForCoins(a) => seq![a@],
        TypeError::Missing(a) => seq![a@],
        _ => Seq::empty(),
    }
}

/// The classification table of [`TypeError`], in declaration order. The
/// generic `Missing` case overlaps the specific missing-something cases
/// before it and must stay last.
pub open spec fn type_error_table() -> Seq<CaseSpecView> {
    seq![
        case_v(
            "AddressNoKey"@,
            0,
            seq!["^Address does not refer to key$"@, "^Address does not refer to a key$"@],
        ),
        case_v("MalformedBase64"@, 0, seq!["^Malformed base64 encoding$"@]),
        case_v(
            "WrongJsonType"@,
            3,
            seq!["^JSON value of type (.*) for field (.*) is not of expected type (.*)"@],
        ),
        case_v("UnexpectedKey"@, 1, seq!["^Unexpected key (.*)"@]),
        case_v("AmountNotNumberOrString"@, 0, seq!["^Amount is not a number or string$"@]),
        case_v("AmountInvalid"@, 0, seq!["^Invalid amount$"@]),
        case_v("AmountOutOfRange"@, 0, seq!["^Amount out of range$"@]),
        case_v("WrongPassed"@, 1, seq!["^Wrong type passed:\n(.*)"@]),
        case_v("MissingKeyForProposal"@, 0, seq!["^Missing data String key for proposal$"@]),
        case_v(
            "WrongTimestamp"@,
            1,
            seq!["^Expected number or \"now\" timestamp value for key. got type (.*)"@],
        ),
        case_v("MissingTimestamp"@, 0, seq!["^Missing required timestamp field for key$"@]),
        case_v("MissingAmountForCoins"@, 1, seq!["^Missing amount for (.*)"@]),
        case_v("Missing"@, 1, seq!["^Missing (.*)"@]),
    ]
}

/// Build the [`TypeError`] table.
pub fn type_error_specs() -> (r: Vec<CaseSpec>)
    ensures
        r.deep_view() == type_error_table(),
{
    let mut v: Vec<CaseSpec> = Vec::new();
    v.push(
        case(
            "AddressNoKey",
            0,
            pats2("^Address does not refer to key$", "^Address does not refer to a key$"),
        ),
    );
    v.push(case("MalformedBase64", 0, pats1("^Malformed base64 encoding$")));
    v.push(
        case(
            "WrongJsonType",
            3,
            pats1("^JSON value of type (.*) for field (.*) is not of expected type (.*)"),
        ),
    );
    v.push(case("UnexpectedKey", 1, pats1("^Unexpected key (.*)")));
    v.push(case("AmountNotNumberOrString", 0, pats1("^Amount is not a number or string$")));
    v.push(case("AmountInvalid", 0, pats1("^Invalid amount$")));
    v.push(case("AmountOutOfRange", 0, pats1("^Amount out of range$")));
    v.push(case("WrongPassed", 1, pats1("^Wrong type passed:\n(.*)")));
    v.push(case("MissingKeyForProposal", 0, pats1("^Missing data String key for proposal$")));
    v.push(
        case(
            "WrongTimestamp",
            1,
            pats1("^Expected number or \"now\" timestamp value for key. got type (.*)"),
        ),
    );
    v.push(case("MissingTimestamp", 0, pats1("^Missing required timestamp field for key$")));
    v.push(case("MissingAmountForCoins", 1, pats1("^Missing amount for (.*)")));
    v.push(case("Missing", 1, pats1("^Missing (.*)")));
    proof {
        assert(v.deep_view() =~= type_error_table());
    }
    v
}

impl TypeError {
    /// Resolve a message text to its [`TypeError`] case. The table has no
    /// catch-all: a text no pattern matches fails with [`NoMatch`].
    pub fn from_str(s: &str) -> (r: Result<TypeError, NoMatch>)
        ensures
            match r {
                Ok(e) => classified(type_error_table(), s@) == Some(
                    (type_error_case(e), type_error_fields(e)),
                ),
                Err(_) => classified(type_error_table(), s@) is None,
            },
    {
        let c = match Classifier::compile(type_error_specs(), false) {
            Ok(c) => c,
            Err(_) => {
                return Err(NoMatch);
            },
        };
        let cl = match c.classify(s) {
            Ok(cl) => cl,
            Err(_) => {
                return Err(NoMatch);
            },
        };
        let e = match cl.case_index {
            0 => TypeError::AddressNoKey,
            1 => TypeError::MalformedBase64,
            2 => TypeError::WrongJsonType(
                cl.fields[0].clone(),
                cl.fields[1].clone(),
                cl.fields[2].clone(),
            ),
            3 => TypeError::UnexpectedKey(cl.fields[0].clone()),
            4 => TypeError::AmountNotNumberOrString,
            5 => TypeError::AmountInvalid,
            6 => TypeError::AmountOutOfRange,
            7 => TypeError::WrongPassed(cl.fields[0].clone()),
            8 => TypeError::MissingKeyForProposal,
            9 => TypeError::WrongTimestamp(cl.fields[0].clone()),
            10 => TypeError::MissingTimestamp,
            11 => TypeError::MissingAmountForCoins(cl.fields[0].clone()),
            _ => TypeError::Missing(cl.fields[0].clone()),
        };
        proof {
            assert(type_error_fields(e) =~= cl.fields.deep_view());
        }
        Ok(e)
    }
}

// ------------------------------------------------------------------
// Out-of-memory errors.
// ------------------------------------------------------------------

/// The sub-cases of an out-of-memory failure.
#[derive(Clone, Debug, PartialEq)]
pub enum OutOfMemoryError {
    OutOfMemory,
}

/// The position of the variant in the table.
pub open spec fn out_of_memory_error_case(e: OutOfMemoryError) -> int {
    match e {
        OutOfMemoryError::OutOfMemory => 0,
    }
}

/// The extracted fields the variant carries.
pub open spec fn out_of_memory_error_fields(e: OutOfMemoryError) -> Seq<Seq<char>> {
    Seq::empty()
}

/// The classification table of [`OutOfMemoryError`].
pub open spec fn out_of_memory_error_table() -> Seq<CaseSpecView> {
    seq![case_v("OutOfMemory"@, 0, seq!["^Out of memory$"@])]
}

/// Build the [`OutOfMemoryError`] table.
pub fn out_of_memory_error_specs() -> (r: Vec<CaseSpec>)
    ensures
        r.deep_view() == out_of_memory_error_table(),
{
    let mut v: Vec<CaseSpec> = Vec::new();
    v.push(case("OutOfMemory", 0, pats1("^Out of memory$")));
    proof {
        assert(v.deep_view() =~= out_of_memory_error_table());
    }
    v
}

impl OutOfMemoryError {
    /// Resolve a message text to its [`OutOfMemoryError`] case. The table
    /// has no catch-all: a text no pattern matches fails with [`NoMatch`].
    pub fn from_str(s: &str) -> (r: Result<OutOfMemoryError, NoMatch>)
        ensures
            match r {
                Ok(e) => classified(out_of_memory_error_table(), s@) == Some(
                    (out_of_memory_error_case(e), out_of_memory_error_fields(e)),
                ),
                Err(_) => classified(out_of_memory_error_table(), s@) is None,
            },
    {
        let c = match Classifier::compile(out_of_memory_error_specs(), false) {
            Ok(c) => c,
            Err(_) => {
                return Err(NoMatch);
            },
        };
        let cl = match c.classify(s) {
            Ok(cl) => cl,
            Err(_) => {
                return Err(NoMatch);
            },
        };
        let e = OutOfMemoryError::OutOfMemory;
        proof {
            assert(out_of_memory_error_fields(e) =~= cl.fields.deep_view());
        }
        Ok(e)
    }
}

// ------------------------------------------------------------------
// Database errors.
// ------------------------------------------------------------------

/// The sub-cases of a database failure.
#[derive(Clone, Debug, PartialEq)]
pub enum DatabaseError {
    BanNotLoaded,
    Generic(String),
}

/// The position of the variant in the table.
pub open spec fn database_error_case(e: DatabaseError) -> int {
    match e {
        DatabaseError::BanNotLoaded => 0,
        DatabaseError::Generic(_) => 1,
    }
}

/// The extracted fields the variant carries.
pub open spec fn database_error_fields(e: DatabaseError) -> Seq<Seq<char>> {
    match e {
        DatabaseError::Generic(a) => seq![a@],
        _ => Seq::empty(),
    }
}

/// The classification table of [`DatabaseError`].
pub open spec fn database_error_table() -> Seq<CaseSpecView> {
    seq![
        case_v("BanNotLoaded"@, 0, seq!["^Error: Ban database not loaded$"@]),
        case_v("Generic"@, 1, Seq::empty()),
    ]
}

/// Build the [`DatabaseError`] table.
pub fn database_error_specs() -> (r: Vec<CaseSpec>)
    ensures
        r.deep_view() == database_error_table(),
{
    let mut v: Vec<CaseSpec> = Vec::new();
    v.push(case("BanNotLoaded", 0, pats1("^Error: Ban database not loaded$")));
    v.push(case("Generic", 1, pats0()));
    proof {
        assert(v.deep_view() =~= database_error_table());
    }
    v
}

impl DatabaseError {
    /// Resolve a message text to its [`DatabaseError`] case; the `Generic`
    /// catch-all receives any text no pattern matches.
    pub fn from_str(s: &str) -> (r: Result<DatabaseError, NoMatch>)
        ensures
            match r {
                Ok(e) => classified(database_error_table(), s@) == Some(
                    (database_error_case(e), database_error_fields(e)),
                ),
                Err(_) => classified(database_error_table(), s@) is None,
            },
    {
        let c = match Classifier::compile(database_error_specs(), false) {
            Ok(c) => c,
            Err(_) => {
                return Err(NoMatch);
            },
        };
        let cl = match c.classify(s) {
            Ok(cl) => cl,
            Err(_) => {
                return Err(NoMatch);
            },
        };
        let e = match cl.case_index {
            0 => DatabaseError::BanNotLoaded,
            _ => DatabaseError::Generic(cl.fields[0].clone()),
        };
        proof {
            assert(database_error_fields(e) =~= cl.fields.deep_view());
        }
        Ok(e)
    }
}

// ------------------------------------------------------------------
// Deserialization errors.
// ------------------------------------------------------------------

/// The sub-cases of a failure to parse or validate a raw structure.
#[derive(Clone, Debug, PartialEq)]
pub enum DeserializationError {
    TxNoInput(String),
    BlockDecodeFailed,
    BlockNoCoinbase,
    BlockDecodeHeaderFailed,
    ObjectNoTxidVoutScriptPubKey,
    NegativeVout,
    PrevScriptPubKeyMismatch(String, String),
    TxNoOutput,
    TxNoOutput2(String),
    TxDecodeFailed(String),
    TxDecodeFailed2,
    TxMissing,
    SigsWitnessMissing,
    TxHexDecodeFailed,
    Generic(String),
}

/// The position of the variant in the table.
pub open spec fn deserialization_error_case(e: DeserializationError) -> int {
    match e {
        DeserializationError::TxNoInput(_) => 0,
        DeserializationError::BlockDecodeFailed => 1,
        DeserializationError::BlockNoCoinbase => 2,
        DeserializationError::BlockDecodeHeaderFailed => 3,
        DeserializationError::ObjectNoTxidVoutScriptPubKey => 4,
        DeserializationError::NegativeVout => 5,
        DeserializationError::PrevScriptPubKeyMismatch(_, _) => 6,
        DeserializationError::TxNoOutput => 7,
        DeserializationError::TxNoOutput2(_) => 8,
        DeserializationError::TxDecodeFailed(_) => 9,
        DeserializationError::TxDecodeFailed2 => 10,
        DeserializationError::TxMissing => 11,
        DeserializationError::SigsWitnessMissing => 12,
        DeserializationError::TxHexDecodeFailed => 13,
        DeserializationError::Generic(_) => 14,
    }
}

/// The extracted fields the variant carries.
pub open spec fn deserialization_error_fields(e: DeserializationError) -> Seq<Seq<char>> {
    match e {
        DeserializationError::TxNoInput(a) => seq![a@],
        DeserializationError::PrevScriptPubKeyMismatch(a, b) => seq![a@, b@],
        DeserializationError::TxNoOutput2(a) => seq![a@],
        DeserializationError::TxDecodeFailed(a) => seq![a@],
        DeserializationError::Generic(a) => seq![a@],
        _ => Seq::empty(),
    }
}

/// The classification table of [`DeserializationError`], in declaration
/// order. The bare `TX decode failed` cases stand after the more specific
/// decode-failure cases whose patterns they overlap.
pub open spec fn deserialization_error_table() -> Seq<CaseSpecView> {
    seq![
        case_v(
            "TxNoInput"@,
            1,
            seq!["^Transaction decode failed for (.*). Make sure the tx has at least one input.$"@],
        ),
        case_v("BlockDecodeFailed"@, 0, seq!["^Block decode failed$"@]),
        case_v("BlockNoCoinbase"@, 0, seq!["^Block does not start with a coinbase$"@]),
        case_v("BlockDecodeHeaderFailed"@, 0, seq!["^Block header decode failed$"@]),
        case_v(
            "ObjectNoTxidVoutScriptPubKey"@,
            0,
            seq!["^expected object with \\{\"txid'\",\"vout\",\"scriptPubKey\"\\}$"@],
        ),
        case_v("NegativeVout"@, 0, seq!["^vout cannot be negative$"@]),
        case_v(
            "PrevScriptPubKeyMismatch"@,
            2,
            seq!["^Previous output scriptPubKey mismatch:\n(.*)\nvs:\n(.*)"@],
        ),
        case_v(
            "TxNoOutput"@,
            0,
            seq!["^TX decode failed. Make sure the tx has at least one input.$"@],
        ),
        case_v(
            "TxNoOutput2"@,
            1,
            seq![
                "^TX decode failed: (.*) Make sure the tx has at least one input.$"@,
                "^TX decode failed for tx (.*). Make sure the tx has at least one input.$"@,
            ],
        ),
        case_v("TxDecodeFailed"@, 1, seq!["^TX decode failed (.*)"@]),
        case_v("TxDecodeFailed2"@, 0, seq!["^TX decode failed$"@]),
        case_v("TxMissing"@, 0, seq!["^Missing transactions$"@]),
        case_v(
            "SigsWitnessMissing"@,
            0,
            seq!["^Inputs must not have scriptSigs and scriptWitnesses$"@],
        ),
        case_v("TxHexDecodeFailed"@, 0, seq!["^Transaction hex string decoding failure.$"@]),
        case_v("Generic"@, 1, Seq::empty()),
    ]
}

/// Build the [`DeserializationError`] table.
pub fn deserialization_error_specs() -> (r: Vec<CaseSpec>)
    ensures
        r.deep_view() == deserialization_error_table(),
{
    let mut v: Vec<CaseSpec> = Vec::new();
    v.push(
        case(
            "TxNoInput",
            1,
            pats1("^Transaction decode failed for (.*). Make sure the tx has at least one input.$"),
        ),
    );
    v.push(case("BlockDecodeFailed", 0, pats1("^Block decode failed$")));
    v.push(case("BlockNoCoinbase", 0, pats1("^Block does not start with a coinbase$")));
    v.push(case("BlockDecodeHeaderFailed", 0, pats1("^Block header decode failed$")));
    v.push(
        case(
            "ObjectNoTxidVoutScriptPubKey",
            0,
            pats1("^expected object with \\{\"txid'\",\"vout\",\"scriptPubKey\"\\}$"),
        ),
    );
    v.push(case("NegativeVout", 0, pats1("^vout cannot be negative$")));
    v.push(
        case(
            "PrevScriptPubKeyMismatch",
            2,
            pats1("^Previous output scriptPubKey mismatch:\n(.*)\nvs:\n(.*)"),
        ),
    );
    v.push(
        case("TxNoOutput", 0, pats1("^TX decode failed. Make sure the tx has at least one input.$")),
    );
    v.push(
        case(
            "TxNoOutput2",
            1,
            pats2(
                "^TX decode failed: (.*) Make sure the tx has at least one input.$",
                "^TX decode failed for tx (.*). Make sure the tx has at least one input.$",
            ),
        ),
    );
    v.push(case("TxDecodeFailed", 1, pats1("^TX decode failed (.*)")));
    v.push(case("TxDecodeFailed2", 0, pats1("^TX decode failed$")));
    v.push(case("TxMissing", 0, pats1("^Missing transactions$")));
    v.push(
        case("SigsWitnessMissing", 0, pats1("^Inputs must not have scriptSigs and scriptWitnesses$")),
    );
    v.push(case("TxHexDecodeFailed", 0, pats1("^Transaction hex string decoding failure.$")));
    v.push(case("Generic", 1, pats0()));
    proof {
        assert(v.deep_view() =~= deserialization_error_table());
    }
    v
}

impl DeserializationError {
    /// Resolve a message text to its [`DeserializationError`] case; the
    /// `Generic` catch-all receives any text no pattern matches.
    pub fn from_str(s: &str) -> (r: Result<DeserializationError, NoMatch>)
        ensures
            match r {
                Ok(e) => classified(deserialization_error_table(), s@) == Some(
                    (deserialization_error_case(e), deserialization_error_fields(e)),
                ),
                Err(_) => classified(deserialization_error_table(), s@) is None,
            },
    {
        let c = match Classifier::compile(deserialization_error_specs(), false) {
            Ok(c) => c,
            Err(_) => {
                return Err(NoMatch);
            },
        };
        let cl = match c.classify(s) {
            Ok(cl) => cl,
            Err(_) => {
                return Err(NoMatch);
            },
        };
        let e = match cl.case_index {
            0 => DeserializationError::TxNoInput(cl.fields[0].clone()),
            1 => DeserializationError::BlockDecodeFailed,
            2 => DeserializationError::BlockNoCoinbase,
            3 => DeserializationError::BlockDecodeHeaderFailed,
            4 => DeserializationError::ObjectNoTxidVoutScriptPubKey,
            5 => DeserializationError::NegativeVout,
            6 => DeserializationError::PrevScriptPubKeyMismatch(
                cl.fields[0].clone(),
                cl.fields[1].clone(),
            ),
            7 => DeserializationError::TxNoOutput,
            8 => DeserializationError::TxNoOutput2(cl.fields[0].clone()),
            9 => DeserializationError::TxDecodeFailed(cl.fields[0].clone()),
            10 => DeserializationError::TxDecodeFailed2,
            11 => DeserializationError::TxMissing,
            12 => DeserializationError::SigsWitnessMissing,
            13 => DeserializationError::TxHexDecodeFailed,
            _ => DeserializationError::Generic(cl.fields[0].clone()),
        };
        proof {
            assert(deserialization_error_fields(e) =~= cl.fields.deep_view());
        }
        Ok(e)
    }
}

// ------------------------------------------------------------------
// Verification errors.
// ------------------------------------------------------------------

/// The sub-cases of a transaction or block submission failure.
#[derive(Clone, Debug, PartialEq)]
pub enum VerifyError {
    BlockValidityFailed(String),
    PreviousHeaderMissing(String),
    MissingOrSpend,
    Generic(String),
}

/// The position of the variant in the table.
pub open spec fn verify_error_case(e: VerifyError) -> int {
    match e {
        VerifyError::BlockValidityFailed(_) => 0,
        VerifyError::PreviousHeaderMissing(_) => 1,
        VerifyError::MissingOrSpend => 2,
        VerifyError::Generic(_) => 3,
    }
}

/// The extracted fields the variant carries.
pub open spec fn verify_error_fields(e: VerifyError) -> Seq<Seq<char>> {
    match e {
        VerifyError::BlockValidityFailed(a) => seq![a@],
        VerifyError::PreviousHeaderMissing(a) => seq![a@],
        VerifyError::Generic(a) => seq![a@],
        _ => Seq::empty(),
    }
}

/// The classification table of [`VerifyError`].
pub open spec fn verify_error_table() -> Seq<CaseSpecView> {
    seq![
        case_v("BlockValidityFailed"@, 1, seq!["^TestBlockValidity failed: (.*)"@]),
        case_v("PreviousHeaderMissing"@, 1, seq!["^Must submit previous header \\((.*)\\) first$"@]),
        case_v("MissingOrSpend"@, 0, seq!["^Input not found or already spent$"@]),
        case_v("Generic"@, 1, Seq::empty()),
    ]
}

/// Build the [`VerifyError`] table.
pub fn verify_error_specs() -> (r: Vec<CaseSpec>)
    ensures
        r.deep_view() == verify_error_table(),
{
    let mut v: Vec<CaseSpec> = Vec::new();
    v.push(case("BlockValidityFailed", 1, pats1("^TestBlockValidity failed: (.*)")));
    v.push(case("PreviousHeaderMissing", 1, pats1("^Must submit previous header \\((.*)\\) first$")));
    v.push(case("MissingOrSpend", 0, pats1("^Input not found or already spent$")));
    v.push(case("Generic", 1, pats0()));
    proof {
        assert(v.deep_view() =~= verify_error_table());
    }
    v
}

impl VerifyError {
    /// Resolve a message text to its [`VerifyError`] case; the `Generic`
    /// catch-all receives any text no pattern matches.
    pub fn from_str(s: &str) -> (r: Result<VerifyError, NoMatch>)
        ensures
            match r {
                Ok(e) => classified(verify_error_table(), s@) == Some(
                    (verify_error_case(e), verify_error_fields(e)),
                ),
                Err(_) => classified(verify_error_table(), s@) is None,
            },
    {
        let c = match Classifier::compile(verify_error_specs(), false) {
            Ok(c) => c,
            Err(_) => {
                return Err(NoMatch);
            },
        };
        let cl = match c.classify(s) {
            Ok(cl) => cl,
            Err(_) => {
                return Err(NoMatch);
            },
        };
        let e = match cl.case_index {
            0 => VerifyError::BlockValidityFailed(cl.fields[0].clone()),
            1 => VerifyError::PreviousHeaderMissing(cl.fields[0].clone()),
            2 => VerifyError::MissingOrSpend,
            _ => VerifyError::Generic(cl.fields[0].clone()),
        };
        proof {
            assert(verify_error_fields(e) =~= cl.fields.deep_view());
        }
        Ok(e)
    }
}

// ------------------------------------------------------------------
// Warmup errors.
// ------------------------------------------------------------------

/// The sub-cases of a still-warming-up failure: the message is carried
/// verbatim.
#[derive(Clone, Debug, PartialEq)]
pub enum WarmupError {
    Generic(String),
}

/// The position of the variant in the table.
pub open spec fn warmup_error_case(e: WarmupError) -> int {
    match e {
        WarmupError::Generic(_) => 0,
    }
}

/// The extracted fields the variant carries.
pub open spec fn warmup_error_fields(e: WarmupError) -> Seq<Seq<char>> {
    match e {
        WarmupError::Generic(a) => seq![a@],
    }
}

/// The classification table of [`WarmupError`]: the catch-all alone.
pub open spec fn warmup_error_table() -> Seq<CaseSpecView> {
    seq![case_v("Generic"@, 1, Seq::empty())]
}

/// Build the [`WarmupError`] table.
pub fn warmup_error_specs() -> (r: Vec<CaseSpec>)
    ensures
        r.deep_view() == warmup_error_table(),
{
    let mut v: Vec<CaseSpec> = Vec::new();
    v.push(case("Generic", 1, pats0()));
    proof {
        assert(v.deep_view() =~= warmup_error_table());
    }
    v
}

impl WarmupError {
    /// Resolve a message text to its [`WarmupError`] case: the catch-all
    /// receives every text verbatim.
    pub fn from_str(s: &str) -> (r: Result<WarmupError, NoMatch>)
        ensures
            match r {
                Ok(e) => classified(warmup_error_table(), s@) == Some(
                    (warmup_error_case(e), warmup_error_fields(e)),
                ),
                Err(_) => classified(warmup_error_table(), s@) is None,
            },
    {
        let c = match Classifier::compile(warmup_error_specs(), false) {
            Ok(c) => c,
            Err(_) => {
                return Err(NoMatch);
            },
        };
        let cl = match c.classify(s) {
            Ok(cl) => cl,
            Err(_) => {
                return Err(NoMatch);
            },
        };
        let e = WarmupError::Generic(cl.fields[0].clone());
        proof {
            assert(warmup_error_fields(e) =~= cl.fields.deep_view());
        }
        Ok(e)
    }
}

// ------------------------------------------------------------------
// Deprecated-method errors.
// ------------------------------------------------------------------

/// The sub-cases of a deprecated-method failure.
#[derive(Clone, Debug, PartialEq)]
pub enum MethodDeprecated {
    WrongDummyArgument,
}

/// The position of the variant in the table.
pub open spec fn method_deprecated_case(e: MethodDeprecated) -> int {
    match e {
        MethodDeprecated::WrongDummyArgument => 0,
    }
}

/// The extracted fields the variant carries.
pub open spec fn method_deprecated_fields(e: MethodDeprecated) -> Seq<Seq<char>> {
    Seq::empty()
}

/// The classification table of [`MethodDeprecated`].
pub open spec fn method_deprecated_table() -> Seq<CaseSpecView> {
    seq![
        case_v(
            "WrongDummyArgument"@,
            0,
            seq!["^dummy first argument must be excluded or set to \"*\".$"@],
        ),
    ]
}

/// Build the [`MethodDeprecated`] table.
pub fn method_deprecated_specs() -> (r: Vec<CaseSpec>)
    ensures
        r.deep_view() == method_deprecated_table(),
{
    let mut v: Vec<CaseSpec> = Vec::new();
    v.push(
        case(
            "WrongDummyArgument",
            0,
            pats1("^dummy first argument must be excluded or set to \"*\".$"),
        ),
    );
    proof {
        assert(v.deep_view() =~= method_deprecated_table());
    }
    v
}

impl MethodDeprecated {
    /// Resolve a message text to its [`MethodDeprecated`] case. The table
    /// has no catch-all: a text no pattern matches fails with [`NoMatch`].
    pub fn from_str(s: &str) -> (r: Result<MethodDeprecated, NoMatch>)
        ensures
            match r {
                Ok(e) => classified(method_deprecated_table(), s@) == Some(
                    (method_deprecated_case(e), method_deprecated_fields(e)),
                ),
                Err(_) => classified(method_deprecated_table(), s@) is None,
            },
    {
        let c = match Classifier::compile(method_deprecated_specs(), false) {
            Ok(c) => c,
            Err(_) => {
                return Err(NoMatch);
            },
        };
        let cl = match c.classify(s) {
            Ok(cl) => cl,
            Err(_) => {
                return Err(NoMatch);
            },
        };
        let e = MethodDeprecated::WrongDummyArgument;
        proof {
            assert(method_deprecated_fields(e) =~= cl.fields.deep_view());
        }
        Ok(e)
    }
}

} // verus!
