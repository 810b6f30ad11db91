//! A verified classifier for the error strings of a JSON-RPC service.
//!
//! A raw response body is searched for a `{"code": ..., "message": ...}`
//! fragment; the code selects a coarse error category, and for categories
//! that carry sub-detail the message is run through a compiled,
//! first-match-wins pattern classifier that extracts the embedded fields.

use vstd::prelude::*;

pub mod classifier;
pub mod extract;
pub mod general_errors;
pub mod pattern;
pub mod regexes;
pub mod reject;

use crate::classifier::classified;
use crate::extract::{extract, extract_spec};
use crate::general_errors::{
    database_error_case, database_error_fields, database_error_table,
    deserialization_error_case, deserialization_error_fields, deserialization_error_table,
    method_deprecated_case, method_deprecated_fields, method_deprecated_table,
    out_of_memory_error_case, out_of_memory_error_fields, out_of_memory_error_table,
    type_error_case, type_error_fields, type_error_table, verify_error_case, verify_error_fields,
    verify_error_table, warmup_error_case, warmup_error_fields, warmup_error_table, DatabaseError,
    DeserializationError, MethodDeprecated, OutOfMemoryError, TypeError, VerifyError, WarmupError,
};

verus! {

/// The fully resolved error of a response: the coarse category the code
/// selects, holding — for the categories that carry sub-detail — the
/// classified message. A code outside the known mapping lands in
/// `RPC_UNKOWN_ERROR`, which carries the `(code, message)` pair verbatim.
#[allow(non_camel_case_types)]
#[derive(Clone, Debug, PartialEq)]
pub enum Error {
    // General application defined errors
    RPC_MISC_ERROR,
    RPC_TYPE_ERROR(TypeError),
    RPC_INVALID_ADDRESS_OR_KEY,
    RPC_OUT_OF_MEMORY(OutOfMemoryError),
    RPC_INVALID_PARAMETER,
    RPC_DATABASE_ERROR(DatabaseError),
    RPC_DESERIALIZATION_ERROR(DeserializationError),
    RPC_VERIFY_ERROR(VerifyError),
    RPC_VERIFY_REJECTED,
    RPC_VERIFY_ALREADY_IN_CHAIN,
    RPC_IN_WARMUP(WarmupError),
    RPC_METHOD_DEPRECATED(MethodDeprecated),
    // P2P client errors
    RPC_CLIENT_NOT_CONNECTED,
    RPC_CLIENT_IN_INITIAL_DOWNLOAD,
    RPC_CLIENT_NODE_ALREADY_ADDED,
    RPC_CLIENT_NODE_NOT_ADDED,
    RPC_CLIENT_NODE_NOT_CONNECTED,
    RPC_CLIENT_INVALID_IP_OR_SUBNET,
    RPC_CLIENT_P2P_DISABLED,
    RPC_CLIENT_NODE_CAPACITY_REACHED,
    // Chain errors
    RPC_CLIENT_MEMPOOL_DISABLED,
    // Wallet errors
    RPC_WALLET_ERROR,
    RPC_WALLET_INSUFFICIENT_FUNDS,
    RPC_WALLET_INVALID_LABEL_NAME,
    RPC_WALLET_KEYPOOL_RAN_OUT,
    RPC_WALLET_UNLOCK_NEEDED,
    RPC_WALLET_PASSPHRASE_INCORRECT,
    RPC_WALLET_WRONG_ENC_STATE,
    RPC_WALLET_ENCRYPTION_FAILED,
    RPC_WALLET_ALREADY_UNLOCKED,
    RPC_WALLET_NOT_FOUND,
    RPC_WALLET_NOT_SPECIFIED,
    RPC_WALLET_ALREADY_LOADED,
    RPC_WALLET_ALREADY_EXISTS,
    // Unknown error
    RPC_UNKOWN_ERROR(i32, String),
}

/// Why a response body could not be decoded to an [`Error`].
#[derive(Clone, Copy, PartialEq, Eq, Debug)]
pub enum DecodeError {
    /// The body holds no well-formed `{"code": ..., "message": ...}`
    /// fragment.
    EnvelopeNotFound,
    /// The code is known, but its category's classifier resolved the
    /// message to no case — a materially different diagnostic from an
    /// unknown code, and never folded into `RPC_UNKOWN_ERROR`.
    UnclassifiedMessage,
}

/// Whether `e` is the correct decoding of the envelope `(code, msg)`.
pub open spec fn decode_ok(code: int, msg: Seq<char>, e: Error) -> bool {
    if code == -3 {
        e matches Error::RPC_TYPE_ERROR(te) && classified(type_error_table(), msg) == Some(
            (type_error_case(te), type_error_fields(te)),
        )
    } else if code == -5 {
        e == Error::RPC_INVALID_ADDRESS_OR_KEY
    } else if code == -7 {
        e matches Error::RPC_OUT_OF_MEMORY(oe) && classified(out_of_memory_error_table(), msg)
            == Some((out_of_memory_error_case(oe), out_of_memory_error_fields(oe)))
    } else if code == -8 {
        e == Error::RPC_INVALID_PARAMETER
    } else if code == -20 {
        e matches Error::RPC_DATABASE_ERROR(de) && classified(database_error_table(), msg) == Some(
            (database_error_case(de), database_error_fields(de)),
        )
    } else if code == -22 {
        e matches Error::RPC_DESERIALIZATION_ERROR(de) && classified(
            deserialization_error_table(),
            msg,
        ) == Some((deserialization_error_case(de), deserialization_error_fields(de)))
    } else if code == -25 {
        e matches Error::RPC_VERIFY_ERROR(ve) && classified(verify_error_table(), msg) == Some(
            (verify_error_case(ve), verify_error_fields(ve)),
        )
    } else if code == -26 {
        e == Error::RPC_VERIFY_REJECTED
    } else if code == -27 {
        e == Error::RPC_VERIFY_ALREADY_IN_CHAIN
    } else if code == -28 {
        e matches Error::RPC_IN_WARMUP(we) && classified(warmup_error_table(), msg) == Some(
            (warmup_error_case(we), warmup_error_fields(we)),
        )
    } else if code == -32 {
        e matches Error::RPC_METHOD_DEPRECATED(me) && classified(method_deprecated_table(), msg)
            == Some((method_deprecated_case(me), method_deprecated_fields(me)))
    } else if code == -9 {
        e == Error::RPC_CLIENT_NOT_CONNECTED
    } else if code == -10 {
        e == Error::RPC_CLIENT_IN_INITIAL_DOWNLOAD
    } else if code == -23 {
        e == Error::RPC_CLIENT_NODE_ALREADY_ADDED
    } else if code == -24 {
        e == Error::RPC_CLIENT_NODE_NOT_ADDED
    } else if code == -29 {
        e == Error::RPC_CLIENT_NODE_NOT_CONNECTED
    } else if code == -30 {
        e == Error::RPC_CLIENT_INVALID_IP_OR_SUBNET
    } else if code == -31 {
        e == Error::RPC_CLIENT_P2P_DISABLED
    } else if code == -34 {
        e == Error::RPC_CLIENT_NODE_CAPACITY_REACHED
    } else if code == -4 {
        e == Error::RPC_WALLET_ERROR
    } else if code == -6 {
        e == Error::RPC_WALLET_INSUFFICIENT_FUNDS
    } else if code == -11 {
        e == Error::RPC_WALLET_INVALID_LABEL_NAME
    } else if code == -12 {
        e == Error::RPC_WALLET_KEYPOOL_RAN_OUT
    } else if code == -13 {
        e == Error::RPC_WALLET_UNLOCK_NEEDED
    } else if code == -14 {
        e == Error::RPC_WALLET_PASSPHRASE_INCORRECT
    } else if code == -15 {
        e == Error::RPC_WALLET_WRONG_ENC_STATE
    } else if code == -16 {
        e == Error::RPC_WALLET_ENCRYPTION_FAILED
    } else if code == -17 {
        e == Error::RPC_WALLET_ALREADY_UNLOCKED
    } else if code == -18 {
        e == Error::RPC_WALLET_NOT_FOUND
    } else if code == -19 {
        e == Error::RPC_WALLET_NOT_SPECIFIED
    } else if code == -35 {
        e == Error::RPC_WALLET_ALREADY_LOADED
    } else if code == -36 {
        e == Error::RPC_WALLET_ALREADY_EXISTS
    } else {
        e matches Error::RPC_UNKOWN_ERROR(c, m) && c == code && m@ == msg
    }
}

/// Whether decoding the envelope `(code, msg)` must fail: the code's
/// category owns a classifier that resolves the message to no case. This
/// is never downgraded to the unknown category.
pub open spec fn decode_fails(code: int, msg: Seq<char>) -> bool {
    ||| code == -3 && classified(type_error_table(), msg) is None
    ||| code == -7 && classified(out_of_memory_error_table(), msg) is None
    ||| code == -20 && classified(database_error_table(), msg) is None
    ||| code == -22 && classified(deserialization_error_table(), msg) is None
    ||| code == -25 && classified(verify_error_table(), msg) is None
    ||| code == -28 && classified(warmup_error_table(), msg) is None
    ||| code == -32 && classified(method_deprecated_table(), msg) is None
}

impl Error {
    /// Decode a raw response body: extract the `(code, message)` envelope,
    /// map the code to its category, and — for a category that carries
    /// sub-detail — classify the message with that category's table. A
    /// body without an envelope fails with `EnvelopeNotFound`; a known
    /// code whose message its classifier cannot resolve fails with
    /// `UnclassifiedMessage`; an unknown code never fails and carries the
    /// envelope verbatim.
    pub fn from_str(s: &str) -> (r: Result<Error, DecodeError>)
        ensures
            match extract_spec(s@) {
                None => r == Err::<Error, DecodeError>(DecodeError::EnvelopeNotFound),
                Some(t) => match r {
                    Ok(e) => decode_ok(t.0, t.1, e),
                    Err(er) => er == DecodeError::UnclassifiedMessage && decode_fails(t.0, t.1),
                },
            },
    {
        let env = match extract(s) {
            Ok(env) => env,
            Err(_) => {
                return Err(DecodeError::EnvelopeNotFound);
            },
        };
        let code = env.code;
        let msg = env.message;
        if code == -3 {
            match TypeError::from_str(msg.as_str()) {
                Ok(te) => Ok(Error::RPC_TYPE_ERROR(te)),
                Err(_) => Err(DecodeError::UnclassifiedMessage),
            }
        } else if code == -5 {
            Ok(Error::RPC_INVALID_ADDRESS_OR_KEY)
        } else if code == -7 {
            match OutOfMemoryError::from_str(msg.as_str()) {
                Ok(oe) => Ok(Error::RPC_OUT_OF_MEMORY(oe)),
                Err(_) => Err(DecodeError::UnclassifiedMessage),
            }
        } else if code == -8 {
            Ok(Error::RPC_INVALID_PARAMETER)
        } else if code == -20 {
            match DatabaseError::from_str(msg.as_str()) {
                Ok(de) => Ok(Error::RPC_DATABASE_ERROR(de)),
                Err(_) => Err(DecodeError::UnclassifiedMessage),
            }
        } else if code == -22 {
            match DeserializationError::from_str(msg.as_str()) {
                Ok(de) => Ok(Error::RPC_DESERIALIZATION_ERROR(de)),
                Err(_) => Err(DecodeError::UnclassifiedMessage),
            }
        } else if code == -25 {
            match VerifyError::from_str(msg.as_str()) {
                Ok(ve) => Ok(Error::RPC_VERIFY_ERROR(ve)),
                Err(_) => Err(DecodeError::UnclassifiedMessage),
            }
        } else if code == -26 {
            Ok(Error::RPC_VERIFY_REJECTED)
        } else if code == -27 {
            Ok(Error::RPC_VERIFY_ALREADY_IN_CHAIN)
        } else if code == -28 {
            match WarmupError::from_str(msg.as_str()) {
                Ok(we) => Ok(Error::RPC_IN_WARMUP(we)),
                Err(_) => Err(DecodeError::UnclassifiedMessage),
            }
        } else if code == -32 {
            match MethodDeprecated::from_str(msg.as_str()) {
                Ok(me) => Ok(Error::RPC_METHOD_DEPRECATED(me)),
                Err(_) => Err(DecodeError::UnclassifiedMessage),
            }
        } else if code == -9 {
            Ok(Error::RPC_CLIENT_NOT_CONNECTED)
        } else if code == -10 {
            Ok(Error::RPC_CLIENT_IN_INITIAL_DOWNLOAD)
        } else if code == -23 {
            Ok(Error::RPC_CLIENT_NODE_ALREADY_ADDED)
        } else if code == -24 {
            Ok(Error::RPC_CLIENT_NODE_NOT_ADDED)
        } else if code == -29 {
            Ok(Error::RPC_CLIENT_NODE_NOT_CONNECTED)
        } else if code == -30 {
            Ok(Error::RPC_CLIENT_INVALID_IP_OR_SUBNET)
        } else if code == -31 {
            Ok(Error::RPC_CLIENT_P2P_DISABLED)
        } else if code == -34 {
            Ok(Error::RPC_CLIENT_NODE_CAPACITY_REACHED)
        } else if code == -4 {
            Ok(Error::RPC_WALLET_ERROR)
        } else if code == -6 {
            Ok(Error::RPC_WALLET_INSUFFICIENT_FUNDS)
        } else if code == -11 {
            Ok(Error::RPC_WALLET_INVALID_LABEL_NAME)
        } else if code == -12 {
            Ok(Error::RPC_WALLET_KEYPOOL_RAN_OUT)
        } else if code == -13 {
            Ok(Error::RPC_WALLET_UNLOCK_NEEDED)
        } else if code == -14 {
            Ok(Error::RPC_WALLET_PASSPHRASE_INCORRECT)
        } else if code == -15 {
            Ok(Error::RPC_WALLET_WRONG_ENC_STATE)
        } else if code == -16 {
            Ok(Error::RPC_WALLET_ENCRYPTION_FAILED)
        } else if code == -17 {
            Ok(Error::RPC_WALLET_ALREADY_UNLOCKED)
        } else if code == -18 {
            Ok(Error::RPC_WALLET_NOT_FOUND)
        } else if code == -19 {
            Ok(Error::RPC_WALLET_NOT_SPECIFIED)
        } else if code == -35 {
            Ok(Error::RPC_WALLET_ALREADY_LOADED)
        } else if code == -36 {
            Ok(Error::RPC_WALLET_ALREADY_EXISTS)
        } else {
            Ok(Error::RPC_UNKOWN_ERROR(code, msg))
        }
    }
}

} // verus!
