//! The targeted classifier for submitting a prepared transaction.
//!
//! A narrower consumer of the two-tier idea: exactly three negative codes
//! name a rejection, and for one of them the message is further
//! distinguished by literal prefix membership — an ordered list of
//! [`Pattern`]s evaluated first-match-wins with a generic fallback, the
//! same ordering and fallback contract the classifier runtime has.

use vstd::prelude::*;

use crate::classifier::group_text;
use crate::pattern::{first_pattern_from, first_pattern_match, pattern_match_spec, Pattern};

verus! {

/// The rejection of a submitted transaction, by code and message.
#[derive(Clone, Debug, PartialEq)]
pub enum TxRejection {
    /// An input is missing or already spent.
    MissingOrSpent,
    /// The transaction already stands in the block chain.
    AlreadyInChain,
    /// A script failed a non-mandatory verify flag; carries the detail
    /// between the parentheses of the message.
    ScriptVerifyFlag(String),
    /// The transaction conflicts with one already in the mempool.
    MempoolConflict,
    /// Rejected for any other reason; carries the message verbatim.
    Rejected(String),
}

/// The code does not name a rejection of a submitted transaction.
#[derive(Clone, Copy, PartialEq, Eq, Debug)]
pub struct NotARejection;

/// Whether `tr` is the correct rejection for the envelope `(code, msg)`.
pub open spec fn rejection_ok(code: int, msg: Seq<char>, tr: TxRejection) -> bool {
    if code == -25 {
        tr == TxRejection::MissingOrSpent
    } else if code == -27 {
        tr == TxRejection::AlreadyInChain
    } else if code == -26 {
        match pattern_match_spec("non-mandatory-script-verify-flag ("@, ")"@, msg) {
            Some(d) => tr matches TxRejection::ScriptVerifyFlag(x) && x@ == group_text(d),
            None => match pattern_match_spec("txn-mempool-conflict"@, ""@, msg) {
                Some(_) => tr == TxRejection::MempoolConflict,
                None => tr matches TxRejection::Rejected(x) && x@ == msg,
            },
        }
    } else {
        false
    }
}

/// Classify the rejection of a submitted transaction: three known codes
/// name one, every other code is refused. For the rule-rejection code the
/// message is matched against a fixed list of literal patterns in priority
/// order; what stood in the matching pattern's gap is extracted, and a
/// message no pattern matches falls back to `Rejected` holding it
/// verbatim.
pub fn classify_submission(code: i32, message: &str) -> (r: Result<TxRejection, NotARejection>)
    ensures
        match r {
            Ok(tr) => (code == -25 || code == -26 || code == -27) && rejection_ok(
                code as int,
                message@,
                tr,
            ),
            Err(_) => code != -25 && code != -26 && code != -27,
        },
{
    if code == -25 {
        return Ok(TxRejection::MissingOrSpent);
    }
    if code == -27 {
        return Ok(TxRejection::AlreadyInChain);
    }
    if code != -26 {
        return Err(NotARejection);
    }
    proof {
        reveal_strlit("");
        assert(""@ =~= Seq::<char>::empty());
    }
    let mut patterns: Vec<Pattern> = Vec::new();
    patterns.push(
        Pattern {
            prefix: String::from_str("non-mandatory-script-verify-flag ("),
            suffix: String::from_str(")"),
        },
    );
    patterns.push(
        Pattern { prefix: String::from_str("txn-mempool-conflict"), suffix: String::new() },
    );
    match first_pattern_match(&patterns, message) {
        Some(pair) => {
            proof {
                assert(first_pattern_from(patterns@, message@, 0) == Some(pair.0 as int));
            }
            if pair.0 == 0 {
                match pair.1 {
                    Some(d) => Ok(TxRejection::ScriptVerifyFlag(d)),
                    None => Ok(TxRejection::ScriptVerifyFlag(String::new())),
                }
            } else {
                proof {
                    assert(pair.0 == 1);
                    assert(pattern_match_spec(
                        "non-mandatory-script-verify-flag ("@,
                        ")"@,
                        message@,
                    ) is None);
                }
                Ok(TxRejection::MempoolConflict)
            }
        },
        None => {
            proof {
                assert(pattern_match_spec(
                    patterns@[0].prefix@,
                    patterns@[0].suffix@,
                    message@,
                ) is None);
                assert(first_pattern_from(patterns@, message@, 1) is None);
                assert(pattern_match_spec(
                    patterns@[1].prefix@,
                    patterns@[1].suffix@,
                    message@,
                ) is None);
                assert(pattern_match_spec("txn-mempool-conflict"@, ""@, message@) is None);
            }
            Ok(TxRejection::Rejected(String::from_str(message)))
        },
    }
}

} // verus!
