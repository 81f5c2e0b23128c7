use proof_relay::artifact::{
    decode_artifact, encode_artifact, ArtifactKind, PublicParameters, PublicValues, StoreError,
};
use proof_relay::client::{interpret_reply, ClientError};
use proof_relay::submit::{
    decode_response, decode_submission, encode_response, encode_submission, FailureReason,
    RelayResponse, StatusClass, Submission,
};

#[test]
fn artifact_round_trip_parameters() {
    let params = PublicParameters { bytes: vec![0, 1, 2, 250, 255] };
    let stored = params.save();
    let loaded = PublicParameters::load(&stored).unwrap();
    assert_eq!(loaded.bytes, vec![0, 1, 2, 250, 255]);
}

#[test]
fn artifact_round_trip_values() {
    let values = PublicValues { bytes: vec![42; 1000] };
    let stored = values.save();
    let loaded = PublicValues::load(&stored).unwrap();
    assert_eq!(loaded.bytes, vec![42; 1000]);
}

#[test]
fn artifact_round_trip_empty_payload() {
    let stored = encode_artifact(ArtifactKind::Values, &vec![]);
    let payload = decode_artifact(ArtifactKind::Values, &stored).unwrap();
    assert_eq!(payload, Vec::<u8>::new());
}

#[test]
fn artifact_kinds_never_cross() {
    let params = PublicParameters { bytes: vec![7, 8, 9] };
    let stored = params.save();
    assert!(matches!(PublicValues::load(&stored), Err(StoreError::CorruptArtifact)));
}

#[test]
fn artifact_corrupt_magic_rejected() {
    let mut stored = encode_artifact(ArtifactKind::Parameters, &vec![1, 2, 3]);
    stored[0] ^= 0xFF;
    assert_eq!(
        decode_artifact(ArtifactKind::Parameters, &stored).unwrap_err(),
        StoreError::CorruptArtifact
    );
}

#[test]
fn artifact_version_mismatch_rejected() {
    let mut stored = encode_artifact(ArtifactKind::Parameters, &vec![1, 2, 3]);
    stored[3] = stored[3].wrapping_add(1);
    assert_eq!(
        decode_artifact(ArtifactKind::Parameters, &stored).unwrap_err(),
        StoreError::CorruptArtifact
    );
}

#[test]
fn artifact_truncated_rejected() {
    let stored = encode_artifact(ArtifactKind::Parameters, &vec![1, 2, 3]);
    let truncated = &stored[..stored.len() - 1];
    assert!(decode_artifact(ArtifactKind::Parameters, truncated).is_err());
    assert!(decode_artifact(ArtifactKind::Parameters, &[]).is_err());
}

#[test]
fn artifact_trailing_garbage_rejected() {
    let mut stored = encode_artifact(ArtifactKind::Parameters, &vec![1, 2, 3]);
    stored.push(0);
    assert!(decode_artifact(ArtifactKind::Parameters, &stored).is_err());
}

#[test]
fn submission_round_trip() {
    let sub = Submission {
        proof_bytes: vec![1, 2, 3, 4, 5],
        recipient_address: b"0x73987bF167b5cC201cBa676F64d43A063C62018b".to_vec(),
    };
    let body = encode_submission(&sub);
    let back = decode_submission(&body).unwrap();
    assert_eq!(back.proof_bytes, vec![1, 2, 3, 4, 5]);
    assert_eq!(
        back.recipient_address,
        b"0x73987bF167b5cC201cBa676F64d43A063C62018b".to_vec()
    );
}

#[test]
fn submission_round_trip_empty_fields() {
    let sub = Submission { proof_bytes: vec![], recipient_address: vec![] };
    let body = encode_submission(&sub);
    let back = decode_submission(&body).unwrap();
    assert!(back.proof_bytes.is_empty());
    assert!(back.recipient_address.is_empty());
}

#[test]
fn submission_garbage_rejected() {
    assert!(decode_submission(b"not a submission").is_none());
    assert!(decode_submission(&[]).is_none());
    assert!(decode_submission(&[1, 2, 3]).is_none());
}

#[test]
fn submission_wrong_version_rejected() {
    let sub = Submission { proof_bytes: vec![1], recipient_address: vec![2] };
    let mut body = encode_submission(&sub);
    body[0] = body[0].wrapping_add(1);
    assert!(decode_submission(&body).is_none());
}

#[test]
fn submission_trailing_garbage_rejected() {
    let sub = Submission { proof_bytes: vec![1], recipient_address: vec![2] };
    let mut body = encode_submission(&sub);
    body.push(0);
    assert!(decode_submission(&body).is_none());
}

#[test]
fn submission_bad_length_field_rejected() {
    let sub = Submission { proof_bytes: vec![1, 2, 3], recipient_address: vec![4] };
    let mut body = encode_submission(&sub);
    body[1] = 200;
    assert!(decode_submission(&body).is_none());
}

#[test]
fn response_round_trip_success() {
    let resp = RelayResponse { failure_reason: None };
    let body = encode_response(&resp);
    assert_eq!(decode_response(&body).unwrap(), resp);
}

#[test]
fn response_round_trip_each_reason() {
    let reasons = [
        FailureReason::MalformedSubmission,
        FailureReason::MalformedProof,
        FailureReason::VerificationFailed,
        FailureReason::AlreadyPaid,
        FailureReason::InvalidRecipient,
        FailureReason::AmountOverflow,
        FailureReason::TransactionReverted,
        FailureReason::TransactionFailed,
        FailureReason::LedgerUnreachable,
    ];
    for reason in reasons {
        let resp = RelayResponse { failure_reason: Some(reason) };
        let body = encode_response(&resp);
        assert_eq!(decode_response(&body).unwrap(), resp);
    }
}

#[test]
fn response_garbage_rejected() {
    assert!(decode_response(&[]).is_none());
    assert!(decode_response(&[1]).is_none());
    assert!(decode_response(&[2, 0]).is_none());
    assert!(decode_response(&[1, 10]).is_none());
    assert!(decode_response(&[1, 0, 0]).is_none());
}

#[test]
fn reason_status_classes() {
    assert_eq!(FailureReason::MalformedSubmission.status(), StatusClass::MalformedRequest);
    assert_eq!(FailureReason::VerificationFailed.status(), StatusClass::RejectedVerification);
    assert_eq!(FailureReason::MalformedProof.status(), StatusClass::RejectedVerification);
    assert_eq!(FailureReason::AlreadyPaid.status(), StatusClass::RejectedVerification);
    assert_eq!(FailureReason::InvalidRecipient.status(), StatusClass::ServerFault);
    assert_eq!(FailureReason::TransactionReverted.status(), StatusClass::ServerFault);
    assert_eq!(FailureReason::LedgerUnreachable.status(), StatusClass::ServerFault);
    let ok = RelayResponse { failure_reason: None };
    assert_eq!(ok.status(), StatusClass::Success);
}

#[test]
fn reason_messages_distinct_between_stages() {
    let payout = FailureReason::TransactionReverted.message();
    let rejection = FailureReason::VerificationFailed.message();
    assert_ne!(payout, rejection);
    assert_eq!(payout, "transaction reverted");
    assert_eq!(rejection, "verification failed");
}

#[test]
fn client_interprets_success_reply() {
    let body = encode_response(&RelayResponse { failure_reason: None });
    assert_eq!(interpret_reply(true, &body), Ok(()));
}

#[test]
fn client_surfaces_rejection_verbatim() {
    let body = encode_response(&RelayResponse {
        failure_reason: Some(FailureReason::VerificationFailed),
    });
    assert_eq!(
        interpret_reply(false, &body),
        Err(ClientError::SubmissionRejected(FailureReason::VerificationFailed))
    );
}

#[test]
fn client_rejects_undecodable_reply() {
    assert_eq!(
        interpret_reply(true, b"garbage"),
        Err(ClientError::MalformedResponse)
    );
}

#[test]
fn client_rejects_inconsistent_reply() {
    let body = encode_response(&RelayResponse { failure_reason: None });
    assert_eq!(interpret_reply(false, &body), Err(ClientError::MalformedResponse));
}
