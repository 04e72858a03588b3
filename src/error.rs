//! The errors that a call or a submission ends with.

use serde_json::Value;
use solana_sdk::transaction::TransactionError;
use vstd::prelude::*;
use vstd::string::StringExecFns;

verus! {

/// `serde_json::Value`, carried through opaquely.
#[verifier::external_type_specification]
#[verifier::external_body]
pub struct ExValue(serde_json::Value);

/// `serde_json::Error`, carried through opaquely.
#[verifier::external_type_specification]
#[verifier::external_body]
pub struct ExJsonError(serde_json::Error);

/// `solana_sdk::transaction::TransactionError`, carried through opaquely.
#[verifier::external_type_specification]
#[verifier::external_body]
pub struct ExTransactionError(solana_sdk::transaction::TransactionError);

/// Structured data that a server attaches to an error, decoded by its code.
#[derive(Debug)]
pub enum RpcResponseErrorData {
    /// No data, or data that did not have the shape the code calls for.
    Empty,
    /// The `data` object of a send whose preflight simulation failed, kept
    /// as JSON: any object is taken, and anything else gives `Empty`.
    SendTransactionPreflightFailure(Value),
    /// How far behind the unhealthy node is, when it says.
    NodeUnhealthy { num_slots_behind: Option<u64> },
}

/// Why a call or a submission failed.
#[derive(Debug)]
pub enum ClientError {
    /// The request could not be built or sent.
    Custom(String),
    /// The HTTP layer answered with a failing status.
    HttpStatus { status: u16 },
    /// The answer's body is not JSON.
    Json(serde_json::Error),
    /// The answer's error member does not have the shape `{code, message}`.
    RpcRequestError(String),
    /// The server reported an error.
    RpcResponseError { code: i64, message: String, data: RpcResponseErrorData },
    /// The submitted transaction failed.
    Transaction(TransactionError),
    /// No final status of the transaction was seen before its blockhash
    /// expired and no send attempt was left.
    Unconfirmed,
}

/// The text that explains an `Unconfirmed` error to a user.
pub open spec fn unconfirmed_text() -> Seq<char> {
    "unable to confirm transaction. This can happen in situations such as transaction expiration and insufficient fee-payer funds"@
}

/// The text that explains an `Unconfirmed` error to a user.
pub fn unconfirmed_message() -> (r: String)
    ensures
        r@ == unconfirmed_text(),
{
    String::from_str(
        "unable to confirm transaction. This can happen in situations such as transaction expiration and insufficient fee-payer funds",
    )
}

} // verus!
