use proof_relay::artifact::{PublicParameters, PublicValues};
use proof_relay::balance::{balance_snapshot, relay_info, render_decimal, render_decimal_padded};
use proof_relay::client::{client_step, ClientCommand, ClientError, ClientEvent, ClientPhase};
use proof_relay::gateway::{
    Command, Config, Event, Gateway, Phase, VerifyCallResult,
};
use proof_relay::payout::{
    check_recipient, classify_transfer, scale_amount, TransferCallOutcome,
};
use proof_relay::submit::{
    decode_submission, encode_submission, FailureReason, StatusClass, Submission,
};

const GOOD_ADDRESS: &[u8] = b"0x73987bF167b5cC201cBa676F64d43A063C62018b";

fn test_gateway(payout_amount: u64) -> Gateway {
    Gateway::new(
        Config { payout_amount },
        PublicParameters { bytes: vec![1, 2, 3] },
        PublicValues { bytes: vec![4, 5, 6] },
    )
}

fn submission_body(proof: &[u8], recipient: &[u8]) -> Vec<u8> {
    encode_submission(&Submission {
        proof_bytes: proof.to_vec(),
        recipient_address: recipient.to_vec(),
    })
}

#[test]
fn recipient_syntax_follows_ledger_parser() {
    assert!(check_recipient(GOOD_ADDRESS));
    assert!(check_recipient(b"73987bF167b5cC201cBa676F64d43A063C62018b"));
    assert!(check_recipient(b"0x 73987bF167b5cC201cBa676F64d43A063C62018b"));
    assert!(!check_recipient(b"not-an-address"));
    assert!(!check_recipient(b""));
    assert!(!check_recipient(b"0x73987bF167b5cC201cBa676F64d43A063C62018"));
    assert!(!check_recipient(b"0x73987bF167b5cC201cBa676F64d43A063C62018bb"));
    assert!(!check_recipient(b"0xg3987bF167b5cC201cBa676F64d43A063C62018b"));
}

#[test]
fn scale_amount_scenario() {
    assert_eq!(scale_amount(100, 6), Some(100_000_000));
}

#[test]
fn scale_amount_edges() {
    assert_eq!(scale_amount(0, 200), Some(0));
    assert_eq!(scale_amount(1, 0), Some(1));
    assert_eq!(scale_amount(1, 38), Some(100_000_000_000_000_000_000_000_000_000_000_000_000));
    assert_eq!(scale_amount(u64::MAX, 20), None);
}

#[test]
fn classify_transfer_outcomes() {
    assert!(classify_transfer(&TransferCallOutcome::Receipt { status: Some(1) }).is_ok());
    assert_eq!(
        classify_transfer(&TransferCallOutcome::Receipt { status: Some(0) })
            .unwrap_err()
            .reason,
        FailureReason::TransactionReverted
    );
    assert_eq!(
        classify_transfer(&TransferCallOutcome::Receipt { status: None })
            .unwrap_err()
            .reason,
        FailureReason::TransactionFailed
    );
    assert_eq!(
        classify_transfer(&TransferCallOutcome::NoReceipt).unwrap_err().reason,
        FailureReason::TransactionFailed
    );
    assert_eq!(
        classify_transfer(&TransferCallOutcome::Unreachable).unwrap_err().reason,
        FailureReason::LedgerUnreachable
    );
}

#[test]
fn valid_proof_pays_scaled_amount() {
    let mut gw = test_gateway(100);
    let body = submission_body(&[9, 9, 9], GOOD_ADDRESS);

    let (phase, cmd) = gw.step(Phase::AwaitingBody, Event::BodyReceived(body));
    match cmd {
        Some(Command::RunVerification(p)) => assert_eq!(p, vec![9, 9, 9]),
        _ => panic!("expected a verification command"),
    }

    let (phase, cmd) = gw.step(phase, Event::VerifyReturned(VerifyCallResult::Completed(true)));
    assert!(matches!(cmd, Some(Command::QueryDecimals)));

    let (phase, cmd) = gw.step(phase, Event::DecimalsReturned(Some(6)));
    match cmd {
        Some(Command::SubmitTransfer { recipient, amount_native }) => {
            assert_eq!(recipient, GOOD_ADDRESS.to_vec());
            assert_eq!(amount_native, 100_000_000);
        },
        _ => panic!("expected a transfer command"),
    }

    let (_, cmd) = gw.step(
        phase,
        Event::TransferReturned(TransferCallOutcome::Receipt { status: Some(1) }),
    );
    match cmd {
        Some(Command::Respond(resp)) => {
            assert!(resp.failure_reason.is_none());
            assert_eq!(resp.status(), StatusClass::Success);
        },
        _ => panic!("expected a response command"),
    }
}

#[test]
fn invalid_proof_never_pays() {
    let mut gw = test_gateway(100);
    let body = submission_body(&[9], GOOD_ADDRESS);

    let (phase, _) = gw.step(Phase::AwaitingBody, Event::BodyReceived(body));
    let (phase, cmd) = gw.step(phase, Event::VerifyReturned(VerifyCallResult::Completed(false)));
    match cmd {
        Some(Command::Respond(resp)) => {
            assert_eq!(resp.failure_reason, Some(FailureReason::VerificationFailed));
            assert_eq!(resp.status(), StatusClass::RejectedVerification);
        },
        _ => panic!("expected a response command"),
    }

    // The pipeline is finished: no later event makes it ask for anything.
    let (_, cmd) = gw.step(phase, Event::DecimalsReturned(Some(6)));
    assert!(cmd.is_none());
}

#[test]
fn engine_fault_reported_as_malformed_proof() {
    let mut gw = test_gateway(100);
    let body = submission_body(&[9], GOOD_ADDRESS);
    let (phase, _) = gw.step(Phase::AwaitingBody, Event::BodyReceived(body));
    let (_, cmd) = gw.step(phase, Event::VerifyReturned(VerifyCallResult::EngineFault));
    match cmd {
        Some(Command::Respond(resp)) => {
            assert_eq!(resp.failure_reason, Some(FailureReason::MalformedProof));
            assert_eq!(resp.status(), StatusClass::RejectedVerification);
        },
        _ => panic!("expected a response command"),
    }
}

#[test]
fn malformed_body_never_verified() {
    let mut gw = test_gateway(100);
    let (_, cmd) = gw.step(Phase::AwaitingBody, Event::BodyReceived(b"garbage".to_vec()));
    match cmd {
        Some(Command::Respond(resp)) => {
            assert_eq!(resp.failure_reason, Some(FailureReason::MalformedSubmission));
            assert_eq!(resp.status(), StatusClass::MalformedRequest);
        },
        _ => panic!("expected a response command, not a verification"),
    }
}

#[test]
fn bad_recipient_makes_no_ledger_call() {
    let mut gw = test_gateway(100);
    let body = submission_body(&[9], b"not-an-address");
    let (phase, _) = gw.step(Phase::AwaitingBody, Event::BodyReceived(body));
    let (_, cmd) = gw.step(phase, Event::VerifyReturned(VerifyCallResult::Completed(true)));
    match cmd {
        Some(Command::Respond(resp)) => {
            assert_eq!(resp.failure_reason, Some(FailureReason::InvalidRecipient));
            assert_eq!(resp.status(), StatusClass::ServerFault);
        },
        _ => panic!("expected an invalid-recipient response, not a ledger query"),
    }
}

#[test]
fn reverted_transfer_distinct_from_rejection() {
    let mut gw = test_gateway(100);
    let body = submission_body(&[9], GOOD_ADDRESS);
    let (phase, _) = gw.step(Phase::AwaitingBody, Event::BodyReceived(body));
    let (phase, _) = gw.step(phase, Event::VerifyReturned(VerifyCallResult::Completed(true)));
    let (phase, _) = gw.step(phase, Event::DecimalsReturned(Some(6)));
    let (_, cmd) = gw.step(
        phase,
        Event::TransferReturned(TransferCallOutcome::Receipt { status: Some(0) }),
    );
    match cmd {
        Some(Command::Respond(resp)) => {
            assert_eq!(resp.failure_reason, Some(FailureReason::TransactionReverted));
            assert_eq!(resp.status(), StatusClass::ServerFault);
            let msg = resp.failure_reason.unwrap().message();
            assert_ne!(msg, FailureReason::VerificationFailed.message());
        },
        _ => panic!("expected a response command"),
    }
}

#[test]
fn unreachable_ledger_reported() {
    let mut gw = test_gateway(100);
    let body = submission_body(&[9], GOOD_ADDRESS);
    let (phase, _) = gw.step(Phase::AwaitingBody, Event::BodyReceived(body));
    let (phase, _) = gw.step(phase, Event::VerifyReturned(VerifyCallResult::Completed(true)));
    let (_, cmd) = gw.step(phase, Event::DecimalsReturned(None));
    match cmd {
        Some(Command::Respond(resp)) => {
            assert_eq!(resp.failure_reason, Some(FailureReason::LedgerUnreachable));
        },
        _ => panic!("expected a response command"),
    }
}

#[test]
fn amount_overflow_reported() {
    let mut gw = test_gateway(u64::MAX);
    let body = submission_body(&[9], GOOD_ADDRESS);
    let (phase, _) = gw.step(Phase::AwaitingBody, Event::BodyReceived(body));
    let (phase, _) = gw.step(phase, Event::VerifyReturned(VerifyCallResult::Completed(true)));
    let (_, cmd) = gw.step(phase, Event::DecimalsReturned(Some(200)));
    match cmd {
        Some(Command::Respond(resp)) => {
            assert_eq!(resp.failure_reason, Some(FailureReason::AmountOverflow));
            assert_eq!(resp.status(), StatusClass::ServerFault);
        },
        _ => panic!("expected a response command"),
    }
}

#[test]
fn sequential_replay_rejected_as_already_paid() {
    let mut gw = test_gateway(100);
    let body = submission_body(&[7, 7], GOOD_ADDRESS);

    // First pipeline runs through the transfer submission.
    let (phase, _) = gw.step(Phase::AwaitingBody, Event::BodyReceived(body.clone()));
    let (phase, _) = gw.step(phase, Event::VerifyReturned(VerifyCallResult::Completed(true)));
    let (_, cmd) = gw.step(phase, Event::DecimalsReturned(Some(6)));
    assert!(matches!(cmd, Some(Command::SubmitTransfer { .. })));

    // The identical proof, submitted again, is turned away without
    // re-running verification.
    let (_, cmd) = gw.step(Phase::AwaitingBody, Event::BodyReceived(body));
    match cmd {
        Some(Command::Respond(resp)) => {
            assert_eq!(resp.failure_reason, Some(FailureReason::AlreadyPaid));
            assert_eq!(resp.status(), StatusClass::RejectedVerification);
        },
        _ => panic!("expected an already-paid response, not a verification"),
    }
}

#[test]
fn concurrent_identical_proofs_both_pay() {
    // Two submissions carrying byte-identical valid proofs, interleaved so
    // that both pass the replay guard before either records: both trigger a
    // transfer.  This documents the known non-idempotence window; only
    // serial replays are caught.
    let mut gw = test_gateway(100);
    let body = submission_body(&[7, 7], GOOD_ADDRESS);

    let (phase_a, _) = gw.step(Phase::AwaitingBody, Event::BodyReceived(body.clone()));
    let (phase_b, _) = gw.step(Phase::AwaitingBody, Event::BodyReceived(body));
    let (phase_a, _) = gw.step(phase_a, Event::VerifyReturned(VerifyCallResult::Completed(true)));
    let (phase_b, _) = gw.step(phase_b, Event::VerifyReturned(VerifyCallResult::Completed(true)));
    let (_, cmd_a) = gw.step(phase_a, Event::DecimalsReturned(Some(6)));
    let (_, cmd_b) = gw.step(phase_b, Event::DecimalsReturned(Some(6)));
    assert!(matches!(cmd_a, Some(Command::SubmitTransfer { .. })));
    assert!(matches!(cmd_b, Some(Command::SubmitTransfer { .. })));
}

#[test]
fn client_prove_failure_aborts_before_network() {
    let phase = ClientPhase::Proving { recipient: GOOD_ADDRESS.to_vec() };
    let (phase, cmd) = client_step(phase, ClientEvent::ProveFinished(None));
    assert!(cmd.is_none());
    match phase {
        ClientPhase::Finished { outcome } => {
            assert_eq!(outcome, Err(ClientError::ProofGenerationFailed));
        },
        _ => panic!("expected the exchange to be over"),
    }
}

#[test]
fn client_transmits_encoded_submission() {
    let phase = ClientPhase::Proving { recipient: GOOD_ADDRESS.to_vec() };
    let (phase, cmd) = client_step(phase, ClientEvent::ProveFinished(Some(vec![5, 6, 7])));
    assert!(matches!(phase, ClientPhase::Submitting));
    match cmd {
        Some(ClientCommand::Transmit(body)) => {
            let sub = decode_submission(&body).unwrap();
            assert_eq!(sub.proof_bytes, vec![5, 6, 7]);
            assert_eq!(sub.recipient_address, GOOD_ADDRESS.to_vec());
        },
        _ => panic!("expected a transmit command"),
    }
}

#[test]
fn client_reports_unreachable_relay() {
    let (phase, cmd) = client_step(ClientPhase::Submitting, ClientEvent::TransportFailed);
    assert!(cmd.is_none());
    match phase {
        ClientPhase::Finished { outcome } => {
            assert_eq!(outcome, Err(ClientError::RelayUnreachable));
        },
        _ => panic!("expected the exchange to be over"),
    }
}

#[test]
fn balance_snapshot_splits_exactly() {
    let snap = balance_snapshot(6, 123_456_789);
    assert_eq!(snap.whole, 123);
    assert_eq!(snap.fractional, 456_789);
    assert_eq!(snap.raw, 123_456_789);

    let snap = balance_snapshot(0, 55);
    assert_eq!(snap.whole, 55);
    assert_eq!(snap.fractional, 0);

    let snap = balance_snapshot(200, 55);
    assert_eq!(snap.whole, 0);
    assert_eq!(snap.fractional, 55);
}

#[test]
fn info_degrades_without_ledger() {
    let cfg = Config { payout_amount: 100 };
    let report = relay_info(&cfg, None);
    assert_eq!(report.payout_amount, 100);
    assert!(report.balance.is_none());

    let report = relay_info(&cfg, Some((6, 250_000_000)));
    let snap = report.balance.unwrap();
    assert_eq!(snap.whole, 250);
    assert_eq!(snap.fractional, 0);
}

#[test]
fn decimal_rendering_exact() {
    assert_eq!(render_decimal(0), b"0".to_vec());
    assert_eq!(render_decimal(7), b"7".to_vec());
    assert_eq!(render_decimal(100_000_000), b"100000000".to_vec());
    assert_eq!(
        render_decimal(u128::MAX),
        b"340282366920938463463374607431768211455".to_vec()
    );
    assert_eq!(render_decimal_padded(7, 6), b"000007".to_vec());
    assert_eq!(render_decimal_padded(0, 3), b"000".to_vec());
    assert_eq!(render_decimal_padded(123_456_789, 6), b"123456789".to_vec());
}
