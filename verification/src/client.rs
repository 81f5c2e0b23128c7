//! Proving client: the decisions on the submitting side.
//!
//! The client drives the external proof engine to build a proof, packages
//! it with the chosen recipient into a submission body, transmits it, and
//! surfaces the relay's answer to the caller verbatim.  Proving is
//! expensive, so a proving failure aborts before any network traffic, and
//! nothing is ever retried on the caller's behalf.

use vstd::prelude::*;
use crate::submit::{
    decode_response, encode_submission, spec_decode_response, spec_encode_submission,
    FailureReason, Submission,
};

verus! {

/// Everything that can stop a submission from being accepted, from the
/// client's point of view.
#[derive(Clone, Copy, PartialEq, Eq, Structural, Debug)]
pub enum ClientError {
    /// The proof engine could not produce a proof (malformed program, trace
    /// bound exceeded, or a proof too large for the wire); no network call
    /// was made.
    ProofGenerationFailed,
    /// The relay endpoint could not be reached.
    RelayUnreachable,
    /// The relay answered and turned the submission down for this reason,
    /// reported verbatim.
    SubmissionRejected(FailureReason),
    /// The relay's answer did not decode, or contradicted itself.
    MalformedResponse,
}

/// Where the client stands with one submission.
pub enum ClientPhase {
    /// The proof engine is running for this recipient.
    Proving { recipient: Vec<u8> },
    /// The submission body is on its way to the relay.
    Submitting,
    /// The exchange is over, with this outcome.
    Finished { outcome: Result<(), ClientError> },
}

/// What the outside world reports back to the client.
pub enum ClientEvent {
    /// The proof engine finished: the proof bytes, or nothing on a proving
    /// failure.
    ProveFinished(Option<Vec<u8>>),
    /// The relay answered, with the transport's success flag and the raw
    /// response body.
    ReplyReceived { success: bool, body: Vec<u8> },
    /// The relay could not be reached.
    TransportFailed,
}

/// The single piece of outside work the client asks for after a step, if
/// any: transmit this request body to the relay's submission endpoint.
pub enum ClientCommand {
    Transmit(Vec<u8>),
}

/// What a relay reply means to the caller: the reported reason verbatim
/// when one is carried; success only on a success-status reply that carries
/// none; and `MalformedResponse` both for a body that does not decode and
/// for a non-success status whose body names no reason.
pub open spec fn spec_interpret_reply(success: bool, body: Seq<u8>) -> Result<(), ClientError> {
    match spec_decode_response(body) {
        Option::None => Err(ClientError::MalformedResponse),
        Option::Some(resp) => match resp.failure_reason {
            Option::Some(reason) => Err(ClientError::SubmissionRejected(reason)),
            Option::None => if success {
                Ok(())
            } else {
                Err(ClientError::MalformedResponse)
            },
        },
    }
}

/// Decode one relay reply and surface it verbatim.
pub fn interpret_reply(success: bool, body: &[u8]) -> (r: Result<(), ClientError>)
    ensures
        r == spec_interpret_reply(success, body@),
{
    match decode_response(body) {
        Option::None => Err(ClientError::MalformedResponse),
        Option::Some(resp) => match resp.failure_reason {
            Option::Some(reason) => Err(ClientError::SubmissionRejected(reason)),
            Option::None => if success {
                Ok(())
            } else {
                Err(ClientError::MalformedResponse)
            },
        },
    }
}

/// Drive the client one event forward.
///
/// A proving failure finishes the exchange at once — before any network
/// call, so no command is emitted.  A completed proof is packaged with the
/// recipient and handed out for transmission.  A reply, or the failure to
/// get one, finishes the exchange with the verbatim outcome.  A mismatched
/// event changes nothing and asks nothing.
pub fn client_step(phase: ClientPhase, event: ClientEvent) -> (r: (
    ClientPhase,
    Option<ClientCommand>,
))
    ensures
        phase is Proving ==> (event matches ClientEvent::ProveFinished(None::<Vec<u8>>) ==> (r.0
            matches ClientPhase::Finished { outcome: Err(ClientError::ProofGenerationFailed) }
            && r.1 is None)),
        phase matches ClientPhase::Proving { recipient } ==> (event matches
            ClientEvent::ProveFinished(Some(pb)) ==> ({
            let sub = (Submission { proof_bytes: pb, recipient_address: recipient });
            if sub.wf() {
                &&& r.0 is Submitting
                &&& r.1 matches Some(ClientCommand::Transmit(b)) && b@ == spec_encode_submission(
                    pb@,
                    recipient@,
                )
            } else {
                &&& r.0 matches ClientPhase::Finished {
                    outcome: Err(ClientError::ProofGenerationFailed),
                }
                &&& r.1 is None
            }
        })),
        phase is Submitting && event is TransportFailed ==> (r.0 matches ClientPhase::Finished {
            outcome: Err(ClientError::RelayUnreachable),
        } && r.1 is None),
        phase is Submitting ==> (event matches ClientEvent::ReplyReceived { success, body } ==> (
        r.0 matches ClientPhase::Finished { outcome } && outcome == spec_interpret_reply(
            success,
            body@,
        ) && r.1 is None)),
        phase matches ClientPhase::Finished { outcome } ==> (r.0 matches ClientPhase::Finished {
            outcome: kept,
        } && kept == outcome && r.1 is None),
        phase matches ClientPhase::Proving { recipient } ==> (!(event is ProveFinished) ==> (r.0
            matches ClientPhase::Proving { recipient: kept } && kept@ == recipient@ && r.1
            is None)),
        phase is Submitting && event is ProveFinished ==> r.0 is Submitting && r.1 is None,
{
    match (phase, event) {
        (ClientPhase::Proving { recipient }, ClientEvent::ProveFinished(maybe_proof)) => {
            match maybe_proof {
                Option::None => (
                    ClientPhase::Finished { outcome: Err(ClientError::ProofGenerationFailed) },
                    None,
                ),
                Option::Some(pb) => {
                    let sub = Submission { proof_bytes: pb, recipient_address: recipient };
                    if sub.proof_bytes.len() as u64 <= crate::submit::MAX_FIELD_LEN
                        && sub.recipient_address.len() as u64 <= crate::submit::MAX_FIELD_LEN
                        && 9u64 + sub.proof_bytes.len() as u64 + sub.recipient_address.len() as u64
                            <= usize::MAX as u64 {
                        let body = encode_submission(&sub);
                        (ClientPhase::Submitting, Some(ClientCommand::Transmit(body)))
                    } else {
                        (
                            ClientPhase::Finished {
                                outcome: Err(ClientError::ProofGenerationFailed),
                            },
                            None,
                        )
                    }
                },
            }
        },
        (ClientPhase::Submitting, ClientEvent::TransportFailed) => (
            ClientPhase::Finished { outcome: Err(ClientError::RelayUnreachable) },
            None,
        ),
        (ClientPhase::Submitting, ClientEvent::ReplyReceived { success, body }) => (
            ClientPhase::Finished { outcome: interpret_reply(success, body.as_slice()) },
            None,
        ),
        (ph, _) => (ph, None),
    }
}

/// Every reply the relay actually encodes is surfaced verbatim: the
/// client's outcome carries exactly the failure reason the relay put into
/// the response, and succeeds exactly on a success-status reply that
/// carries none.
pub proof fn lemma_reply_surfaced_verbatim(resp: crate::submit::RelayResponse, success: bool)
    ensures
        spec_interpret_reply(success, crate::submit::spec_encode_response(resp)) == (
        match resp.failure_reason {
            Option::Some(reason) => Err::<(), ClientError>(ClientError::SubmissionRejected(reason)),
            Option::None => if success {
                Ok(())
            } else {
                Err(ClientError::MalformedResponse)
            },
        }),
{
    crate::submit::lemma_response_round_trip(resp);
}

} // verus!
