use solana_sdk::hash;
use solana_sdk::message::Message;
use solana_sdk::pubkey::Pubkey;
use solana_sdk::signature::Signature;
use solana_sdk::system_instruction;
use solana_sdk::transaction::{uses_durable_nonce, Transaction, TransactionError};
use solana_wasm_client::{
    unconfirmed_message, ClientError, Submission, SubmitAction, SubmitEvent, SubmitState,
    POLL_INTERVAL_MS,
};

fn start(tx: &Transaction, poll_interval_ms: u64) -> (Submission, SubmitAction) {
    Submission::begin(
        uses_durable_nonce(tx).is_some(),
        tx.message.recent_blockhash,
        poll_interval_ms,
    )
}

fn plain_transaction(blockhash: hash::Hash) -> Transaction {
    let payer = Pubkey::new_unique();
    let ix = system_instruction::transfer(&payer, &Pubkey::new_unique(), 1);
    let mut message = Message::new(&[ix], Some(&payer));
    message.recent_blockhash = blockhash;
    Transaction::new_unsigned(message)
}

fn nonce_transaction() -> Transaction {
    let payer = Pubkey::new_unique();
    let nonce = Pubkey::new_unique();
    let advance = system_instruction::advance_nonce_account(&nonce, &payer);
    let ix = system_instruction::transfer(&payer, &Pubkey::new_unique(), 1);
    Transaction::new_unsigned(Message::new(&[advance, ix], Some(&payer)))
}

#[test]
fn confirmed_after_pending_poll() {
    let embedded = hash::Hash::new_unique();
    let tx = plain_transaction(embedded);
    let (mut s, a) = start(&tx, POLL_INTERVAL_MS);
    assert!(matches!(a, SubmitAction::SendTransaction));
    assert!(!s.uses_durable_nonce);
    let sig = Signature::new_unique();
    let a = s.step(SubmitEvent::Sent(sig));
    assert!(matches!(a, SubmitAction::GetSignatureStatus { signature, delay_ms: 0 } if signature == sig));
    let a = s.step(SubmitEvent::Status(None));
    assert!(matches!(a, SubmitAction::IsBlockhashValid { blockhash } if blockhash == embedded));
    let a = s.step(SubmitEvent::BlockhashValid(true));
    assert!(matches!(a, SubmitAction::GetSignatureStatus { signature, delay_ms: 500 } if signature == sig));
    let a = s.step(SubmitEvent::Status(Some(Ok(()))));
    assert!(matches!(a, SubmitAction::Finish(Ok(signature)) if signature == sig));
    assert!(matches!(s.state, SubmitState::Done));
}

#[test]
fn poll_interval_can_be_zero() {
    let tx = plain_transaction(hash::Hash::new_unique());
    let (mut s, _) = start(&tx, 0);
    let sig = Signature::new_unique();
    s.step(SubmitEvent::Sent(sig));
    s.step(SubmitEvent::Status(None));
    let a = s.step(SubmitEvent::BlockhashValid(true));
    assert!(matches!(a, SubmitAction::GetSignatureStatus { delay_ms: 0, .. }));
}

#[test]
fn durable_nonce_expired_reference_gives_up() {
    let tx = nonce_transaction();
    let (mut s, _) = start(&tx, POLL_INTERVAL_MS);
    assert!(s.uses_durable_nonce);
    let sig = Signature::new_unique();
    let a = s.step(SubmitEvent::Sent(sig));
    assert!(matches!(a, SubmitAction::GetLatestBlockhash));
    let latest = hash::Hash::new_unique();
    let a = s.step(SubmitEvent::LatestBlockhash(latest));
    assert!(matches!(a, SubmitAction::GetSignatureStatus { signature, delay_ms: 0 } if signature == sig));
    let a = s.step(SubmitEvent::Status(None));
    assert!(matches!(a, SubmitAction::IsBlockhashValid { blockhash } if blockhash == latest));
    let a = s.step(SubmitEvent::BlockhashValid(false));
    assert!(matches!(a, SubmitAction::Finish(Err(ClientError::Unconfirmed))));
    assert!(matches!(s.step(SubmitEvent::Status(None)), SubmitAction::Finished));
}

#[test]
fn failed_status_is_returned_exactly() {
    let tx = plain_transaction(hash::Hash::new_unique());
    let (mut s, _) = start(&tx, POLL_INTERVAL_MS);
    let sig = Signature::new_unique();
    s.step(SubmitEvent::Sent(sig));
    s.step(SubmitEvent::Status(None));
    s.step(SubmitEvent::BlockhashValid(true));
    let a = s.step(SubmitEvent::Status(Some(Err(TransactionError::InsufficientFundsForFee))));
    match a {
        SubmitAction::Finish(Err(ClientError::Transaction(e))) => {
            assert_eq!(e, TransactionError::InsufficientFundsForFee)
        }
        other => panic!("unexpected {:?}", other),
    }
    assert!(matches!(s.step(SubmitEvent::Status(None)), SubmitAction::Finished));
}

#[test]
fn answer_out_of_turn_repeats_pending_action() {
    let tx = plain_transaction(hash::Hash::new_unique());
    let (mut s, _) = start(&tx, POLL_INTERVAL_MS);
    let a = s.step(SubmitEvent::BlockhashValid(true));
    assert!(matches!(a, SubmitAction::SendTransaction));
    assert!(matches!(s.state, SubmitState::Sending { sends_left: 0 }));
    let sig = Signature::new_unique();
    s.step(SubmitEvent::Sent(sig));
    let a = s.step(SubmitEvent::LatestBlockhash(hash::Hash::new_unique()));
    assert!(matches!(a, SubmitAction::GetSignatureStatus { signature, delay_ms: 0 } if signature == sig));
}

#[test]
fn unconfirmed_message_text() {
    assert_eq!(
        unconfirmed_message(),
        "unable to confirm transaction. This can happen in situations such as transaction expiration and insufficient fee-payer funds"
    );
}

#[test]
fn begin_keeps_what_it_is_given() {
    let h = hash::Hash::new_unique();
    let (s, a) = Submission::begin(true, h, 7);
    assert!(matches!(a, SubmitAction::SendTransaction));
    assert!(s.uses_durable_nonce);
    assert_eq!(s.recent_blockhash, h);
    assert_eq!(s.poll_interval_ms, 7);
    assert!(matches!(s.state, SubmitState::Sending { sends_left: 0 }));
}
