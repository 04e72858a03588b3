//! A JSON-RPC transport core with rate-limit retry, error decoding and
//! request statistics, and a state machine that submits a transaction and
//! polls until it is confirmed, fails, or its blockhash expires.
//!
//! The library holds the decisions; the host performs the HTTP calls, the
//! sleeps and the RPC client calls that the decisions ask for.

pub mod confirm;
pub mod error;
pub mod response;
pub mod transport;

pub use confirm::{
    Submission, SubmitAction, SubmitEvent, SubmitState, GET_STATUS_RETRIES, POLL_INTERVAL_MS,
    SEND_RETRIES,
};
pub use error::{unconfirmed_message, ClientError, RpcResponseErrorData};
pub use response::{
    data_kind, decode_data, decode_response, read_error_object, rpc_error, DataKind, DataRead,
    ErrorObject, FieldRead, JSON_RPC_SERVER_ERROR_NODE_UNHEALTHY,
    JSON_RPC_SERVER_ERROR_SEND_TRANSACTION_PREFLIGHT_FAILURE,
};
pub use transport::{
    rate_limit_wait_ms, HttpSender, HttpVerdict, RequestIds, StatsUpdater, TransportStats,
    DEFAULT_RATE_LIMIT_WAIT_MS, MAX_RATE_LIMIT_RETRIES, MAX_RETRY_AFTER_SECS, TOO_MANY_REQUESTS,
};
