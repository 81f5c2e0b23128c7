//! Submission codec: the wire shape exchanged between proving client and
//! relay.
//!
//! The request carries an opaque proof blob and the recipient address the
//! submitter wants paid; the response carries the failure reason, or nothing
//! on success.  Both directions use the same framing, prefixed with a wire
//! version byte, so a version mismatch between client and relay surfaces as
//! a decode error — never as a silent misverification.  The codec is strict:
//! a body that decodes at all is byte for byte an encoding.

use vstd::prelude::*;
use vstd::bytes::*;
use vstd::slice::{slice_index_get, slice_subrange, slice_to_vec};

verus! {

/// Version byte that opens every request and response body.
pub const WIRE_VERSION: u8 = 1;

/// Largest field the four-byte length prefix can carry.
pub const MAX_FIELD_LEN: u64 = 0xFFFF_FFFF;

/// The unit of work a proving client sends to the relay: an opaque succinct
/// proof and the ledger address that should receive the payout.  The address
/// is caller-supplied and untrusted; the relay checks it against its own
/// address syntax before any ledger call.
pub struct Submission {
    pub proof_bytes: Vec<u8>,
    pub recipient_address: Vec<u8>,
}

impl Submission {
    /// Both fields fit the four-byte length prefixes of the wire format.
    pub open spec fn wf(self) -> bool {
        &&& self.proof_bytes@.len() <= MAX_FIELD_LEN
        &&& self.recipient_address@.len() <= MAX_FIELD_LEN
        &&& 9 + self.proof_bytes@.len() + self.recipient_address@.len() <= usize::MAX
    }
}

/// Every way the relay can turn a submission down, one reason per failing
/// stage, so a caller can always tell a rejected proof from a payment that
/// could not be sent.
#[derive(Clone, Copy, PartialEq, Eq, Structural, Debug)]
pub enum FailureReason {
    /// The request body did not decode; verification was never attempted.
    MalformedSubmission,
    /// The proof engine faulted on the proof's structure.
    MalformedProof,
    /// The proof engine completed and the proof does not verify.
    VerificationFailed,
    /// The identical proof has already triggered a payout.
    AlreadyPaid,
    /// The recipient address is not syntactically a ledger address; nothing
    /// was attempted on-chain.
    InvalidRecipient,
    /// Scaling the configured amount by the token's decimals does not fit
    /// the ledger's native integer unit; nothing was attempted on-chain.
    AmountOverflow,
    /// The ledger returned a receipt whose status marks the transfer
    /// reverted.
    TransactionReverted,
    /// The ledger returned no usable confirmation within the bounded wait.
    TransactionFailed,
    /// The ledger endpoint could not be reached at all.
    LedgerUnreachable,
}

/// Response classes of the relay's submit operation, mirrored onto the
/// transport's status codes by the serving process.
#[derive(Clone, Copy, PartialEq, Eq, Structural, Debug)]
pub enum StatusClass {
    /// Proof verified and the payout was sent.
    Success,
    /// Codec failure: the request never reached verification.
    MalformedRequest,
    /// The verification gate said no; not a system fault.
    RejectedVerification,
    /// The proof was valid but the payout could not be completed.
    ServerFault,
}

/// What the relay answers: no reason on success, exactly one reason
/// otherwise.
#[derive(Clone, Copy, PartialEq, Eq, Structural, Debug)]
pub struct RelayResponse {
    pub failure_reason: Option<FailureReason>,
}

/// The response class a failure reason belongs to.
pub open spec fn spec_reason_status(r: FailureReason) -> StatusClass {
    match r {
        FailureReason::MalformedSubmission => StatusClass::MalformedRequest,
        FailureReason::MalformedProof => StatusClass::RejectedVerification,
        FailureReason::VerificationFailed => StatusClass::RejectedVerification,
        FailureReason::AlreadyPaid => StatusClass::RejectedVerification,
        FailureReason::InvalidRecipient => StatusClass::ServerFault,
        FailureReason::AmountOverflow => StatusClass::ServerFault,
        FailureReason::TransactionReverted => StatusClass::ServerFault,
        FailureReason::TransactionFailed => StatusClass::ServerFault,
        FailureReason::LedgerUnreachable => StatusClass::ServerFault,
    }
}

/// The response class of a whole response: success exactly when no failure
/// reason is carried.
pub open spec fn spec_response_status(resp: RelayResponse) -> StatusClass {
    match resp.failure_reason {
        Option::None => StatusClass::Success,
        Option::Some(r) => spec_reason_status(r),
    }
}

/// The human-readable message for a failure reason.
pub open spec fn spec_message(r: FailureReason) -> Seq<char> {
    match r {
        FailureReason::MalformedSubmission => "malformed submission"@,
        FailureReason::MalformedProof => "malformed proof"@,
        FailureReason::VerificationFailed => "verification failed"@,
        FailureReason::AlreadyPaid => "already paid"@,
        FailureReason::InvalidRecipient => "invalid recipient address"@,
        FailureReason::AmountOverflow => "payout amount out of range"@,
        FailureReason::TransactionReverted => "transaction reverted"@,
        FailureReason::TransactionFailed => "transaction failed"@,
        FailureReason::LedgerUnreachable => "ledger unreachable"@,
    }
}

impl FailureReason {
    /// The message shown to the submitter for this reason.
    pub fn message(&self) -> (r: String)
        ensures
            r@ == spec_message(*self),
    {
        match self {
            FailureReason::MalformedSubmission => "malformed submission".to_owned(),
            FailureReason::MalformedProof => "malformed proof".to_owned(),
            FailureReason::VerificationFailed => "verification failed".to_owned(),
            FailureReason::AlreadyPaid => "already paid".to_owned(),
            FailureReason::InvalidRecipient => "invalid recipient address".to_owned(),
            FailureReason::AmountOverflow => "payout amount out of range".to_owned(),
            FailureReason::TransactionReverted => "transaction reverted".to_owned(),
            FailureReason::TransactionFailed => "transaction failed".to_owned(),
            FailureReason::LedgerUnreachable => "ledger unreachable".to_owned(),
        }
    }

    /// The response class this reason is reported under.
    pub fn status(&self) -> (r: StatusClass)
        ensures
            r == spec_reason_status(*self),
    {
        match self {
            FailureReason::MalformedSubmission => StatusClass::MalformedRequest,
            FailureReason::MalformedProof => StatusClass::RejectedVerification,
            FailureReason::VerificationFailed => StatusClass::RejectedVerification,
            FailureReason::AlreadyPaid => StatusClass::RejectedVerification,
            FailureReason::InvalidRecipient => StatusClass::ServerFault,
            FailureReason::AmountOverflow => StatusClass::ServerFault,
            FailureReason::TransactionReverted => StatusClass::ServerFault,
            FailureReason::TransactionFailed => StatusClass::ServerFault,
            FailureReason::LedgerUnreachable => StatusClass::ServerFault,
        }
    }
}

impl RelayResponse {
    /// The response class of this response.
    pub fn status(&self) -> (r: StatusClass)
        ensures
            r == spec_response_status(*self),
    {
        match &self.failure_reason {
            Option::None => StatusClass::Success,
            Option::Some(reason) => reason.status(),
        }
    }
}

/// Tag byte under which a failure reason travels; `0` is reserved for
/// success.
pub open spec fn spec_reason_tag(r: FailureReason) -> u8 {
    match r {
        FailureReason::MalformedSubmission => 1,
        FailureReason::MalformedProof => 2,
        FailureReason::VerificationFailed => 3,
        FailureReason::AlreadyPaid => 4,
        FailureReason::InvalidRecipient => 5,
        FailureReason::AmountOverflow => 6,
        FailureReason::TransactionReverted => 7,
        FailureReason::TransactionFailed => 8,
        FailureReason::LedgerUnreachable => 9,
    }
}

/// The failure reason a tag byte names, if any.
pub open spec fn spec_reason_of_tag(t: u8) -> Option<FailureReason> {
    if t == 1 {
        Some(FailureReason::MalformedSubmission)
    } else if t == 2 {
        Some(FailureReason::MalformedProof)
    } else if t == 3 {
        Some(FailureReason::VerificationFailed)
    } else if t == 4 {
        Some(FailureReason::AlreadyPaid)
    } else if t == 5 {
        Some(FailureReason::InvalidRecipient)
    } else if t == 6 {
        Some(FailureReason::AmountOverflow)
    } else if t == 7 {
        Some(FailureReason::TransactionReverted)
    } else if t == 8 {
        Some(FailureReason::TransactionFailed)
    } else if t == 9 {
        Some(FailureReason::LedgerUnreachable)
    } else {
        None
    }
}

/// The exact two-byte body the relay answers with.
pub open spec fn spec_encode_response(resp: RelayResponse) -> Seq<u8> {
    match resp.failure_reason {
        Option::None => seq![WIRE_VERSION, 0u8],
        Option::Some(r) => seq![WIRE_VERSION, spec_reason_tag(r)],
    }
}

/// What decoding a response body yields: a response exactly when the body is
/// one of the bodies the relay writes.
pub open spec fn spec_decode_response(b: Seq<u8>) -> Option<RelayResponse> {
    if b.len() == 2 && b[0] == WIRE_VERSION {
        if b[1] == 0 {
            Some(RelayResponse { failure_reason: None })
        } else {
            match spec_reason_of_tag(b[1]) {
                Some(r) => Some(RelayResponse { failure_reason: Some(r) }),
                None => None,
            }
        }
    } else {
        None
    }
}

/// Serialize a relay response for the wire.
pub fn encode_response(resp: &RelayResponse) -> (r: Vec<u8>)
    ensures
        r@ == spec_encode_response(*resp),
{
    let mut out: Vec<u8> = Vec::new();
    out.push(WIRE_VERSION);
    match &resp.failure_reason {
        Option::None => out.push(0),
        Option::Some(reason) => {
            let tag: u8 = match reason {
                FailureReason::MalformedSubmission => 1,
                FailureReason::MalformedProof => 2,
                FailureReason::VerificationFailed => 3,
                FailureReason::AlreadyPaid => 4,
                FailureReason::InvalidRecipient => 5,
                FailureReason::AmountOverflow => 6,
                FailureReason::TransactionReverted => 7,
                FailureReason::TransactionFailed => 8,
                FailureReason::LedgerUnreachable => 9,
            };
            out.push(tag);
        },
    }
    proof {
        assert(out@ =~= spec_encode_response(*resp));
    }
    out
}

/// Deserialize a response body received from the relay.
pub fn decode_response(b: &[u8]) -> (r: Option<RelayResponse>)
    ensures
        r == spec_decode_response(b@),
{
    if b.len() != 2 {
        return None;
    }
    if *slice_index_get(b, 0) != WIRE_VERSION {
        return None;
    }
    let tag = *slice_index_get(b, 1);
    if tag == 0 {
        return Some(RelayResponse { failure_reason: None });
    }
    let reason = if tag == 1 {
        FailureReason::MalformedSubmission
    } else if tag == 2 {
        FailureReason::MalformedProof
    } else if tag == 3 {
        FailureReason::VerificationFailed
    } else if tag == 4 {
        FailureReason::AlreadyPaid
    } else if tag == 5 {
        FailureReason::InvalidRecipient
    } else if tag == 6 {
        FailureReason::AmountOverflow
    } else if tag == 7 {
        FailureReason::TransactionReverted
    } else if tag == 8 {
        FailureReason::TransactionFailed
    } else if tag == 9 {
        FailureReason::LedgerUnreachable
    } else {
        return None;
    };
    Some(RelayResponse { failure_reason: Some(reason) })
}

/// The exact request body a client sends for this proof and recipient.
pub open spec fn spec_encode_submission(proof_bytes: Seq<u8>, addr: Seq<u8>) -> Seq<u8> {
    seq![WIRE_VERSION] + spec_u32_to_le_bytes(proof_bytes.len() as u32) + proof_bytes + spec_u32_to_le_bytes(
        addr.len() as u32,
    ) + addr
}

/// What decoding a request body yields: the proof and recipient fields
/// exactly when the body is a well-framed encoding, nothing otherwise.
pub open spec fn spec_decode_submission(b: Seq<u8>) -> Option<(Seq<u8>, Seq<u8>)> {
    if b.len() >= 9 && b[0] == WIRE_VERSION {
        let plen = spec_u32_from_le_bytes(b.subrange(1, 5)) as int;
        if b.len() - 9 >= plen {
            let alen = spec_u32_from_le_bytes(b.subrange(5 + plen, 9 + plen)) as int;
            if b.len() - 9 - plen == alen {
                Some((b.subrange(5, 5 + plen), b.subrange(9 + plen, 9 + plen + alen)))
            } else {
                None
            }
        } else {
            None
        }
    } else {
        None
    }
}

/// Serialize a submission for the wire.
pub fn encode_submission(sub: &Submission) -> (r: Vec<u8>)
    requires
        sub.wf(),
    ensures
        r@ == spec_encode_submission(sub.proof_bytes@, sub.recipient_address@),
{
    let mut out: Vec<u8> = Vec::new();
    out.push(WIRE_VERSION);
    let mut plen = u32_to_le_bytes(sub.proof_bytes.len() as u32);
    out.append(&mut plen);
    let mut pbytes = slice_to_vec(sub.proof_bytes.as_slice());
    out.append(&mut pbytes);
    let mut alen = u32_to_le_bytes(sub.recipient_address.len() as u32);
    out.append(&mut alen);
    let mut addr = slice_to_vec(sub.recipient_address.as_slice());
    out.append(&mut addr);
    proof {
        assert(out@ =~= spec_encode_submission(sub.proof_bytes@, sub.recipient_address@));
    }
    out
}

/// Deserialize a request body received by the relay.
///
/// Fails exactly on the bodies no client of this wire version writes; the
/// gateway answers such a body with `MalformedSubmission` before any
/// verification.
pub fn decode_submission(b: &[u8]) -> (r: Option<Submission>)
    ensures
        match r {
            Some(sub) => spec_decode_submission(b@) == Some(
                (sub.proof_bytes@, sub.recipient_address@),
            ) && sub.wf(),
            None => spec_decode_submission(b@) is None,
        },
{
    if b.len() < 9 {
        return None;
    }
    if *slice_index_get(b, 0) != WIRE_VERSION {
        return None;
    }
    let plen = u32_from_le_bytes(slice_subrange(b, 1, 5)) as usize;
    if b.len() - 9 < plen {
        return None;
    }
    let alen = u32_from_le_bytes(slice_subrange(b, 5 + plen, 9 + plen)) as usize;
    if b.len() - 9 - plen != alen {
        return None;
    }
    let pbytes = slice_to_vec(slice_subrange(b, 5, 5 + plen));
    let addr = slice_to_vec(slice_subrange(b, 9 + plen, 9 + plen + alen));
    Some(Submission { proof_bytes: pbytes, recipient_address: addr })
}

/// Round trip of the submission codec: the relay decodes every body a
/// client encodes back to the same proof and recipient.
pub proof fn lemma_submission_round_trip(proof_bytes: Seq<u8>, addr: Seq<u8>)
    requires
        proof_bytes.len() <= MAX_FIELD_LEN,
        addr.len() <= MAX_FIELD_LEN,
    ensures
        spec_decode_submission(spec_encode_submission(proof_bytes, addr)) == Some((proof_bytes, addr)),
{
    lemma_auto_spec_u32_to_from_le_bytes();
    let e = spec_encode_submission(proof_bytes, addr);
    let plen = proof_bytes.len() as int;
    let alen = addr.len() as int;
    assert(e.subrange(1, 5) =~= spec_u32_to_le_bytes(proof_bytes.len() as u32));
    assert(e.subrange(5 + plen, 9 + plen) =~= spec_u32_to_le_bytes(addr.len() as u32));
    assert(e.subrange(5, 5 + plen) =~= proof_bytes);
    assert(e.subrange(9 + plen, 9 + plen + alen) =~= addr);
}

/// The submission codec is strict: a body that decodes at all is byte for
/// byte the encoding of what it decodes to.
pub proof fn lemma_submission_decode_exact(b: Seq<u8>, proof_bytes: Seq<u8>, addr: Seq<u8>)
    requires
        spec_decode_submission(b) == Some((proof_bytes, addr)),
    ensures
        b == spec_encode_submission(proof_bytes, addr),
        proof_bytes.len() <= MAX_FIELD_LEN,
        addr.len() <= MAX_FIELD_LEN,
{
    lemma_auto_spec_u32_to_from_le_bytes();
    let plen = spec_u32_from_le_bytes(b.subrange(1, 5)) as int;
    assert(spec_u32_to_le_bytes(spec_u32_from_le_bytes(b.subrange(1, 5))) == b.subrange(1, 5));
    assert(spec_u32_to_le_bytes(spec_u32_from_le_bytes(b.subrange(5 + plen, 9 + plen)))
        == b.subrange(5 + plen, 9 + plen));
    assert(b =~= spec_encode_submission(proof_bytes, addr));
}

/// Round trip of the response codec: the client decodes every body the
/// relay encodes back to the same response.
pub proof fn lemma_response_round_trip(resp: RelayResponse)
    ensures
        spec_decode_response(spec_encode_response(resp)) == Some(resp),
{
}

/// The response codec is strict: a body that decodes at all is byte for
/// byte the encoding of what it decodes to.
pub proof fn lemma_response_decode_exact(b: Seq<u8>, resp: RelayResponse)
    requires
        spec_decode_response(b) == Some(resp),
    ensures
        b == spec_encode_response(resp),
{
    assert(b =~= spec_encode_response(resp));
}

/// Payout failures are reported under messages distinct from every
/// verification rejection, so a caller can always tell "the proof was
/// invalid" from "the proof was valid but payment could not be sent".
pub proof fn lemma_payout_messages_distinct(p: FailureReason, v: FailureReason)
    requires
        spec_reason_status(p) == StatusClass::ServerFault,
        spec_reason_status(v) == StatusClass::RejectedVerification,
    ensures
        spec_message(p) != spec_message(v),
{
    reveal_strlit("malformed proof");
    reveal_strlit("verification failed");
    reveal_strlit("already paid");
    reveal_strlit("invalid recipient address");
    reveal_strlit("payout amount out of range");
    reveal_strlit("transaction reverted");
    reveal_strlit("transaction failed");
    reveal_strlit("ledger unreachable");
    let mp = spec_message(p);
    let mv = spec_message(v);
    assert(mp.len() == 25 || mp.len() == 26 || mp.len() == 20 || mp.len() == 18);
    assert(mv.len() == 15 || mv.len() == 19 || mv.len() == 12);
}

} // verus!
