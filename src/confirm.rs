//! Submitting a signed transaction and polling until it is confirmed,
//! fails, or its reference blockhash expires.
//!
//! The decisions are a state machine: each step takes the answer to the
//! last action and returns the next action. The host performs the actions
//! (sending, querying, sleeping) and hands back their answers.

use crate::error::ClientError;
use solana_sdk::hash;
use solana_sdk::signature::Signature;
use solana_sdk::transaction::TransactionError;
use vstd::prelude::*;

verus! {

/// `solana_sdk::signature::Signature`, carried through opaquely.
#[verifier::external_type_specification]
#[verifier::external_body]
pub struct ExSignature(solana_sdk::signature::Signature);

/// `solana_sdk::hash::Hash`, carried through opaquely.
#[verifier::external_type_specification]
#[verifier::external_body]
pub struct ExHash(solana_sdk::hash::Hash);

/// `core::array::TryFromSliceError`, which conversions of `Signature` name.
#[verifier::external_type_specification]
#[verifier::external_body]
pub struct ExTryFromSliceError(core::array::TryFromSliceError);

/// How many times a transaction is sent before giving up.
pub const SEND_RETRIES: usize = 1;

/// How many status queries one send gets.
pub const GET_STATUS_RETRIES: usize = usize::MAX;

/// The pause between status queries while the blockhash is still valid.
pub const POLL_INTERVAL_MS: u64 = 500;

/// Where a submission stands.
#[derive(Clone, Copy)]
pub enum SubmitState {
    /// The transaction was sent; `sends_left` more sends are allowed.
    Sending { sends_left: usize },
    /// Sent with a durable nonce: waiting for the latest blockhash.
    AwaitingBlockhash { sends_left: usize, signature: Signature },
    /// Waiting for the status of the signature.
    Polling { sends_left: usize, polls_left: usize, signature: Signature, reference: hash::Hash },
    /// No status yet: waiting to learn whether the reference is still valid.
    CheckingBlockhash {
        sends_left: usize,
        polls_left: usize,
        signature: Signature,
        reference: hash::Hash,
    },
    /// The outcome was handed out.
    Done,
}

/// What the host does next.
#[derive(Debug)]
pub enum SubmitAction {
    /// Send the transaction; answer with `Sent`.
    SendTransaction,
    /// Fetch the latest blockhash at "processed" commitment; answer with
    /// `LatestBlockhash`.
    GetLatestBlockhash,
    /// Sleep `delay_ms`, then query the signature's status; answer with
    /// `Status`.
    GetSignatureStatus { signature: Signature, delay_ms: u64 },
    /// Ask whether the blockhash is still valid at "processed" commitment;
    /// answer with `BlockhashValid`.
    IsBlockhashValid { blockhash: hash::Hash },
    /// The submission is over, with this outcome.
    Finish(Result<Signature, ClientError>),
    /// The submission was already over.
    Finished,
}

/// The answer to the last action.
pub enum SubmitEvent {
    Sent(Signature),
    LatestBlockhash(hash::Hash),
    Status(Option<Result<(), TransactionError>>),
    BlockhashValid(bool),
}

/// One submission of one transaction.
pub struct Submission {
    pub state: SubmitState,
    pub uses_durable_nonce: bool,
    pub recent_blockhash: hash::Hash,
    pub poll_interval_ms: u64,
}

/// The action that a state asks for again when an answer does not fit it.
pub open spec fn pending_action(s: SubmitState) -> SubmitAction {
    match s {
        SubmitState::Sending { .. } => SubmitAction::SendTransaction,
        SubmitState::AwaitingBlockhash { .. } => SubmitAction::GetLatestBlockhash,
        SubmitState::Polling { signature, .. } => SubmitAction::GetSignatureStatus {
            signature,
            delay_ms: 0,
        },
        SubmitState::CheckingBlockhash { reference, .. } => SubmitAction::IsBlockhashValid {
            blockhash: reference,
        },
        SubmitState::Done => SubmitAction::Finished,
    }
}

impl Submission {
    /// The state and action after a send attempt was used up: send again
    /// if one is left, else give up.
    pub open spec fn resend(self, sends_left: usize) -> (Submission, SubmitAction) {
        if sends_left > 0 {
            (
                Submission {
                    state: SubmitState::Sending { sends_left: (sends_left - 1) as usize },
                    ..self
                },
                SubmitAction::SendTransaction,
            )
        } else {
            (
                Submission { state: SubmitState::Done, ..self },
                SubmitAction::Finish(Err(ClientError::Unconfirmed)),
            )
        }
    }

    /// The state and action after `ev` answers the last action.
    pub open spec fn next(self, ev: SubmitEvent) -> (Submission, SubmitAction) {
        match (self.state, ev) {
            (SubmitState::Sending { sends_left }, SubmitEvent::Sent(signature)) => {
                if self.uses_durable_nonce {
                    (
                        Submission {
                            state: SubmitState::AwaitingBlockhash { sends_left, signature },
                            ..self
                        },
                        SubmitAction::GetLatestBlockhash,
                    )
                } else {
                    (
                        Submission {
                            state: SubmitState::Polling {
                                sends_left,
                                polls_left: (GET_STATUS_RETRIES - 1) as usize,
                                signature,
                                reference: self.recent_blockhash,
                            },
                            ..self
                        },
                        SubmitAction::GetSignatureStatus { signature, delay_ms: 0 },
                    )
                }
            },
            (
                SubmitState::AwaitingBlockhash { sends_left, signature },
                SubmitEvent::LatestBlockhash(reference),
            ) => (
                Submission {
                    state: SubmitState::Polling {
                        sends_left,
                        polls_left: (GET_STATUS_RETRIES - 1) as usize,
                        signature,
                        reference,
                    },
                    ..self
                },
                SubmitAction::GetSignatureStatus { signature, delay_ms: 0 },
            ),
            (
                SubmitState::Polling { sends_left, polls_left, signature, reference },
                SubmitEvent::Status(status),
            ) => match status {
                Some(Ok(())) => (
                    Submission { state: SubmitState::Done, ..self },
                    SubmitAction::Finish(Ok(signature)),
                ),
                Some(Err(e)) => (
                    Submission { state: SubmitState::Done, ..self },
                    SubmitAction::Finish(Err(ClientError::Transaction(e))),
                ),
                None => (
                    Submission {
                        state: SubmitState::CheckingBlockhash {
                            sends_left,
                            polls_left,
                            signature,
                            reference,
                        },
                        ..self
                    },
                    SubmitAction::IsBlockhashValid { blockhash: reference },
                ),
            },
            (
                SubmitState::CheckingBlockhash { sends_left, polls_left, signature, reference },
                SubmitEvent::BlockhashValid(valid),
            ) => {
                if valid && polls_left > 0 {
                    (
                        Submission {
                            state: SubmitState::Polling {
                                sends_left,
                                polls_left: (polls_left - 1) as usize,
                                signature,
                                reference,
                            },
                            ..self
                        },
                        SubmitAction::GetSignatureStatus {
                            signature,
                            delay_ms: self.poll_interval_ms,
                        },
                    )
                } else {
                    self.resend(sends_left)
                }
            },
            _ => (self, pending_action(self.state)),
        }
    }

    /// Starts the submission of a transaction: it is sent first. The
    /// liveness reference is the latest blockhash when the transaction uses
    /// a durable nonce, else `recent_blockhash`, its own. `poll_interval_ms`
    /// is the pause between status queries.
    pub fn begin(uses_durable_nonce: bool, recent_blockhash: hash::Hash, poll_interval_ms: u64) -> (r: (
        Submission,
        SubmitAction,
    ))
        ensures
            r.0 == (Submission {
                state: SubmitState::Sending { sends_left: (SEND_RETRIES - 1) as usize },
                uses_durable_nonce,
                recent_blockhash,
                poll_interval_ms,
            }),
            r.1 is SendTransaction,
    {
        let s = Submission {
            state: SubmitState::Sending { sends_left: SEND_RETRIES - 1 },
            uses_durable_nonce,
            recent_blockhash,
            poll_interval_ms,
        };
        (s, SubmitAction::SendTransaction)
    }

    fn resend_exec(&mut self, sends_left: usize) -> (r: SubmitAction)
        ensures
            (*final(self), r) == old(self).resend(sends_left),
    {
        if sends_left > 0 {
            self.state = SubmitState::Sending { sends_left: sends_left - 1 };
            SubmitAction::SendTransaction
        } else {
            self.state = SubmitState::Done;
            SubmitAction::Finish(Err(ClientError::Unconfirmed))
        }
    }

    /// Takes the answer to the last action and returns the next action. An
    /// answer that does not fit the current state changes nothing and the
    /// pending action is asked for again.
    pub fn step(&mut self, ev: SubmitEvent) -> (r: SubmitAction)
        ensures
            (*final(self), r) == old(self).next(ev),
    {
        let state = self.state;
        match (state, ev) {
            (SubmitState::Sending { sends_left }, SubmitEvent::Sent(signature)) => {
                if self.uses_durable_nonce {
                    self.state = SubmitState::AwaitingBlockhash { sends_left, signature };
                    SubmitAction::GetLatestBlockhash
                } else {
                    self.state = SubmitState::Polling {
                        sends_left,
                        polls_left: GET_STATUS_RETRIES - 1,
                        signature,
                        reference: self.recent_blockhash,
                    };
                    SubmitAction::GetSignatureStatus { signature, delay_ms: 0 }
                }
            },
            (
                SubmitState::AwaitingBlockhash { sends_left, signature },
                SubmitEvent::LatestBlockhash(reference),
            ) => {
                self.state = SubmitState::Polling {
                    sends_left,
                    polls_left: GET_STATUS_RETRIES - 1,
                    signature,
                    reference,
                };
                SubmitAction::GetSignatureStatus { signature, delay_ms: 0 }
            },
            (
                SubmitState::Polling { sends_left, polls_left, signature, reference },
                SubmitEvent::Status(status),
            ) => match status {
                Some(Ok(())) => {
                    self.state = SubmitState::Done;
                    SubmitAction::Finish(Ok(signature))
                },
                Some(Err(e)) => {
                    self.state = SubmitState::Done;
                    SubmitAction::Finish(Err(ClientError::Transaction(e)))
                },
                None => {
                    self.state = SubmitState::CheckingBlockhash {
                        sends_left,
                        polls_left,
                        signature,
                        reference,
                    };
                    SubmitAction::IsBlockhashValid { blockhash: reference }
                },
            },
            (
                SubmitState::CheckingBlockhash { sends_left, polls_left, signature, reference },
                SubmitEvent::BlockhashValid(valid),
            ) => {
                if valid && polls_left > 0 {
                    self.state = SubmitState::Polling {
                        sends_left,
                        polls_left: polls_left - 1,
                        signature,
                        reference,
                    };
                    SubmitAction::GetSignatureStatus { signature, delay_ms: self.poll_interval_ms }
                } else {
                    self.resend_exec(sends_left)
                }
            },
            (SubmitState::Sending { .. }, _) => SubmitAction::SendTransaction,
            (SubmitState::AwaitingBlockhash { .. }, _) => SubmitAction::GetLatestBlockhash,
            (SubmitState::Polling { signature, .. }, _) => SubmitAction::GetSignatureStatus {
                signature,
                delay_ms: 0,
            },
            (SubmitState::CheckingBlockhash { reference, .. }, _) => {
                SubmitAction::IsBlockhashValid { blockhash: reference }
            },
            (SubmitState::Done, _) => SubmitAction::Finished,
        }
    }
}

/// A submission of a durable-nonce transaction, freshly sent, whose reference
/// blockhash turns out invalid before any status of the signature appears,
/// leaves the polling, has no send attempt left, and ends with
/// `Unconfirmed`; nothing more is asked of the host afterwards.
pub proof fn expired_reference_ends_unconfirmed(
    s: Submission,
    signature: Signature,
    latest: hash::Hash,
    later: SubmitEvent,
)
    requires
        s.state == (SubmitState::Sending { sends_left: (SEND_RETRIES - 1) as usize }),
        s.uses_durable_nonce,
    ensures
        ({
            let (s1, a1) = s.next(SubmitEvent::Sent(signature));
            let (s2, a2) = s1.next(SubmitEvent::LatestBlockhash(latest));
            let (s3, a3) = s2.next(SubmitEvent::Status(None));
            let (s4, a4) = s3.next(SubmitEvent::BlockhashValid(false));
            &&& a1 is GetLatestBlockhash
            &&& a2 == (SubmitAction::GetSignatureStatus { signature, delay_ms: 0 })
            &&& a3 == (SubmitAction::IsBlockhashValid { blockhash: latest })
            &&& a4 == SubmitAction::Finish(Err(ClientError::Unconfirmed))
            &&& s4.state is Done
            &&& s4.next(later).1 is Finished
        }),
{
}

/// A failed status seen while polling ends the submission with exactly that
/// transaction error, and no further status is asked for.
pub proof fn failed_status_is_final(s: Submission, e: TransactionError, later: SubmitEvent)
    requires
        s.state is Polling,
    ensures
        s.next(SubmitEvent::Status(Some(Err(e)))).1 == SubmitAction::Finish(
            Err(ClientError::Transaction(e)),
        ),
        s.next(SubmitEvent::Status(Some(Err(e)))).0.state is Done,
        s.next(SubmitEvent::Status(Some(Err(e)))).0.next(later).1 is Finished,
{
}

/// After the send, a durable-nonce transaction has the latest blockhash
/// fetched and checks that one; any other transaction checks its own recent
/// blockhash and never asks for the latest.
pub proof fn reference_follows_nonce(
    uses_durable_nonce: bool,
    recent_blockhash: hash::Hash,
    poll_interval_ms: u64,
    signature: Signature,
    latest: hash::Hash,
)
    ensures
        ({
            let s = Submission {
                state: SubmitState::Sending { sends_left: (SEND_RETRIES - 1) as usize },
                uses_durable_nonce,
                recent_blockhash,
                poll_interval_ms,
            };
            let (s1, a1) = s.next(SubmitEvent::Sent(signature));
            if uses_durable_nonce {
                let (s2, a2) = s1.next(SubmitEvent::LatestBlockhash(latest));
                &&& a1 is GetLatestBlockhash
                &&& a2 == (SubmitAction::GetSignatureStatus { signature, delay_ms: 0 })
                &&& s2.next(SubmitEvent::Status(None)).1 == (SubmitAction::IsBlockhashValid {
                    blockhash: latest,
                })
            } else {
                &&& a1 == (SubmitAction::GetSignatureStatus { signature, delay_ms: 0 })
                &&& s1.next(SubmitEvent::Status(None)).1 == (SubmitAction::IsBlockhashValid {
                    blockhash: recent_blockhash,
                })
            }
        }),
{
}

} // verus!
