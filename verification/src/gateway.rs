//! Verification gateway: the relay's sole trust boundary.
//!
//! Each submission runs one strictly sequential pipeline — decode, verify,
//! pay, respond — modelled as a state machine.  The surrounding process
//! feeds the machine one event at a time (the request body, the proof
//! engine's verdict, the ledger's answers) and performs the single command
//! each step hands back.  The machine itself decides everything: a body
//! that does not decode never reaches verification, a proof that does not
//! verify never reaches the ledger, and a valid proof triggers exactly one
//! transfer of the configured amount scaled by the token's decimals.
//!
//! The gateway also keeps the set of proof fingerprints that have already
//! triggered a payout, and turns a repeat of such a proof away as "already
//! paid" without re-running verification.  The set is consulted when a
//! submission arrives and extended when its transfer is submitted, with no
//! mutual exclusion across submissions in flight: two identical proofs
//! interleaved between those two points can still both pay, exactly the
//! replay window that the laws module's serial-replay guarantee does not
//! cover.

use vstd::prelude::*;
use vstd::slice::{slice_index_get, slice_to_vec};
use crate::artifact::{PublicParameters, PublicValues};
use crate::payout::{
    check_recipient, scale_amount, spec_addr_well_formed, spec_classify_transfer, spec_pow10,
    TransferCallOutcome,
};
use crate::submit::{
    decode_submission, spec_decode_submission, FailureReason, RelayResponse, Submission,
};

verus! {

/// Fixed relay configuration: the payout granted for one valid proof, in
/// whole token units.
#[derive(Clone, Copy, PartialEq, Eq, Structural, Debug)]
pub struct Config {
    pub payout_amount: u64,
}

/// Byte-wise equality of two byte strings.
fn bytes_equal(a: &[u8], b: &[u8]) -> (r: bool)
    ensures
        r == (a@ == b@),
{
    if a.len() != b.len() {
        return false;
    }
    let mut i: usize = 0;
    while i < a.len()
        invariant
            i <= a@.len(),
            a@.len() == b@.len(),
            forall|j: int| 0 <= j < i ==> a@[j] == b@[j],
        decreases a@.len() - i,
    {
        if *slice_index_get(a, i) != *slice_index_get(b, i) {
            return false;
        }
        i = i + 1;
    }
    proof {
        assert(a@ =~= b@);
    }
    true
}

/// The fingerprints of the proofs that have already triggered a payout: the
/// proof bytes themselves, compared byte for byte.  The surrounding process
/// persists this set; the gateway owns its meaning.
pub struct ReplayGuard {
    entries: Vec<Vec<u8>>,
}

impl View for ReplayGuard {
    type V = Seq<Seq<u8>>;

    closed spec fn view(&self) -> Seq<Seq<u8>> {
        self.entries@.map_values(|e: Vec<u8>| e@)
    }
}

impl ReplayGuard {
    /// An empty guard: no proof has been paid yet.
    pub fn new() -> (r: ReplayGuard)
        ensures
            r@ == Seq::<Seq<u8>>::empty(),
    {
        let r = ReplayGuard { entries: Vec::new() };
        proof {
            assert(r@ =~= Seq::<Seq<u8>>::empty());
        }
        r
    }

    /// Whether this proof has already triggered a payout.
    pub fn contains(&self, fingerprint: &[u8]) -> (r: bool)
        ensures
            r == self@.contains(fingerprint@),
    {
        let mut i: usize = 0;
        while i < self.entries.len()
            invariant
                i <= self.entries@.len(),
                forall|j: int| 0 <= j < i ==> self@[j] != fingerprint@,
            decreases self.entries@.len() - i,
        {
            if bytes_equal(self.entries[i].as_slice(), fingerprint) {
                proof {
                    assert(self@[i as int] == fingerprint@);
                }
                return true;
            }
            i = i + 1;
        }
        false
    }

    /// Remember that this proof's payout has been submitted.
    pub fn record(&mut self, fingerprint: Vec<u8>)
        ensures
            final(self)@ == old(self)@.push(fingerprint@),
    {
        self.entries.push(fingerprint);
        proof {
            assert(self@ =~= old(self)@.push(fingerprint@));
        }
    }
}

/// What the proof engine reported for one verification call: a completed
/// run with its verdict, or an internal fault on the proof's structure.
#[derive(Clone, Copy, PartialEq, Eq, Structural, Debug)]
pub enum VerifyCallResult {
    Completed(bool),
    EngineFault,
}

/// One event of a submission's pipeline, handed to the gateway by the
/// process driving it.
pub enum Event {
    /// The raw request body arrived.
    BodyReceived(Vec<u8>),
    /// The proof engine returned from the requested verification.
    VerifyReturned(VerifyCallResult),
    /// The ledger answered (or failed to answer) the decimals query.
    DecimalsReturned(Option<u8>),
    /// The ledger concluded the requested transfer attempt.
    TransferReturned(TransferCallOutcome),
}

/// The single piece of outside work the gateway asks for after a step, if
/// any.
pub enum Command {
    /// Run proof verification on these proof bytes against the resident
    /// public parameters and values.
    RunVerification(Vec<u8>),
    /// Ask the token contract for its decimal precision.
    QueryDecimals,
    /// Submit the signed transfer and await its bounded confirmation.
    SubmitTransfer { recipient: Vec<u8>, amount_native: u128 },
    /// Send this response back to the submitter.
    Respond(RelayResponse),
}

/// Where one submission stands in its pipeline.
pub enum Phase {
    /// Nothing received yet.
    AwaitingBody,
    /// The submission decoded and its proof is with the proof engine.
    AwaitingVerification { submission: Submission },
    /// The proof verified and the recipient is well-formed; the token's
    /// decimals are being queried.
    AwaitingDecimals { submission: Submission },
    /// The transfer has been submitted to the ledger.
    AwaitingTransfer { submission: Submission },
    /// The pipeline is finished; nothing further will be asked.
    Done { response: RelayResponse },
}

/// Mathematical image of an `Event`.
pub enum EventModel {
    BodyReceived(Seq<u8>),
    VerifyReturned(VerifyCallResult),
    DecimalsReturned(Option<u8>),
    TransferReturned(TransferCallOutcome),
}

/// Mathematical image of a `Command`.
pub enum CommandModel {
    RunVerification(Seq<u8>),
    QueryDecimals,
    SubmitTransfer { recipient: Seq<u8>, amount_native: u128 },
    Respond(RelayResponse),
}

/// Mathematical image of a `Phase`.
pub enum PhaseModel {
    AwaitingBody,
    AwaitingVerification { proof_bytes: Seq<u8>, recipient: Seq<u8> },
    AwaitingDecimals { proof_bytes: Seq<u8>, recipient: Seq<u8> },
    AwaitingTransfer { proof_bytes: Seq<u8>, recipient: Seq<u8> },
    Done { response: RelayResponse },
}

impl View for Event {
    type V = EventModel;

    open spec fn view(&self) -> EventModel {
        match self {
            Event::BodyReceived(b) => EventModel::BodyReceived(b@),
            Event::VerifyReturned(r) => EventModel::VerifyReturned(*r),
            Event::DecimalsReturned(d) => EventModel::DecimalsReturned(*d),
            Event::TransferReturned(o) => EventModel::TransferReturned(*o),
        }
    }
}

impl View for Command {
    type V = CommandModel;

    open spec fn view(&self) -> CommandModel {
        match self {
            Command::RunVerification(b) => CommandModel::RunVerification(b@),
            Command::QueryDecimals => CommandModel::QueryDecimals,
            Command::SubmitTransfer { recipient, amount_native } => CommandModel::SubmitTransfer {
                recipient: recipient@,
                amount_native: *amount_native,
            },
            Command::Respond(resp) => CommandModel::Respond(*resp),
        }
    }
}

impl View for Phase {
    type V = PhaseModel;

    open spec fn view(&self) -> PhaseModel {
        match self {
            Phase::AwaitingBody => PhaseModel::AwaitingBody,
            Phase::AwaitingVerification { submission } => PhaseModel::AwaitingVerification {
                proof_bytes: submission.proof_bytes@,
                recipient: submission.recipient_address@,
            },
            Phase::AwaitingDecimals { submission } => PhaseModel::AwaitingDecimals {
                proof_bytes: submission.proof_bytes@,
                recipient: submission.recipient_address@,
            },
            Phase::AwaitingTransfer { submission } => PhaseModel::AwaitingTransfer {
                proof_bytes: submission.proof_bytes@,
                recipient: submission.recipient_address@,
            },
            Phase::Done { response } => PhaseModel::Done { response: *response },
        }
    }
}

/// The model image of an optional command.
pub open spec fn spec_command_of(c: Option<Command>) -> Option<CommandModel> {
    match c {
        Option::Some(cmd) => Some(cmd@),
        Option::None => None,
    }
}

/// The outcome of one transition: the next phase, the paid-set after it,
/// and the command it asks for.
pub struct StepModel {
    pub phase: PhaseModel,
    pub paid: Seq<Seq<u8>>,
    pub command: Option<CommandModel>,
}

/// A finished pipeline reporting this failure reason, with the response
/// going out.
pub open spec fn spec_done(paid: Seq<Seq<u8>>, reason: FailureReason) -> StepModel {
    let resp = RelayResponse { failure_reason: Some(reason) };
    StepModel { phase: PhaseModel::Done { response: resp }, paid, command: Some(
        CommandModel::Respond(resp),
    ) }
}

/// The complete transition relation of the submission pipeline.  Every
/// behaviour of the gateway is a fold of this function over the events the
/// process hands it; a mismatched event changes nothing and asks nothing.
pub open spec fn spec_step(
    cfg: Config,
    phase: PhaseModel,
    paid: Seq<Seq<u8>>,
    ev: EventModel,
) -> StepModel {
    match (phase, ev) {
        (PhaseModel::AwaitingBody, EventModel::BodyReceived(body)) => {
            match spec_decode_submission(body) {
                Option::None => spec_done(paid, FailureReason::MalformedSubmission),
                Option::Some((proof_bytes, recipient)) => {
                    if paid.contains(proof_bytes) {
                        spec_done(paid, FailureReason::AlreadyPaid)
                    } else {
                        StepModel {
                            phase: PhaseModel::AwaitingVerification { proof_bytes, recipient },
                            paid,
                            command: Some(CommandModel::RunVerification(proof_bytes)),
                        }
                    }
                },
            }
        },
        (
            PhaseModel::AwaitingVerification { proof_bytes, recipient },
            EventModel::VerifyReturned(res),
        ) => {
            match res {
                VerifyCallResult::EngineFault => spec_done(paid, FailureReason::MalformedProof),
                VerifyCallResult::Completed(false) => spec_done(
                    paid,
                    FailureReason::VerificationFailed,
                ),
                VerifyCallResult::Completed(true) => {
                    if !spec_addr_well_formed(recipient) {
                        spec_done(paid, FailureReason::InvalidRecipient)
                    } else {
                        StepModel {
                            phase: PhaseModel::AwaitingDecimals { proof_bytes, recipient },
                            paid,
                            command: Some(CommandModel::QueryDecimals),
                        }
                    }
                },
            }
        },
        (
            PhaseModel::AwaitingDecimals { proof_bytes, recipient },
            EventModel::DecimalsReturned(res),
        ) => {
            match res {
                Option::None => spec_done(paid, FailureReason::LedgerUnreachable),
                Option::Some(decimals) => {
                    if cfg.payout_amount * spec_pow10(decimals as nat) > u128::MAX {
                        spec_done(paid, FailureReason::AmountOverflow)
                    } else {
                        StepModel {
                            phase: PhaseModel::AwaitingTransfer { proof_bytes, recipient },
                            paid: paid.push(proof_bytes),
                            command: Some(
                                CommandModel::SubmitTransfer {
                                    recipient,
                                    amount_native: (cfg.payout_amount * spec_pow10(
                                        decimals as nat,
                                    )) as u128,
                                },
                            ),
                        }
                    }
                },
            }
        },
        (PhaseModel::AwaitingTransfer { .. }, EventModel::TransferReturned(outcome)) => {
            match spec_classify_transfer(outcome) {
                Option::None => {
                    let resp = RelayResponse { failure_reason: None };
                    StepModel { phase: PhaseModel::Done { response: resp }, paid, command: Some(
                        CommandModel::Respond(resp),
                    ) }
                },
                Option::Some(reason) => spec_done(paid, reason),
            }
        },
        (ph, _) => StepModel { phase: ph, paid, command: None },
    }
}

/// The relay service: its configuration, the artifacts loaded once at
/// startup, and the paid-proof set.  Constructed before serving; if the
/// artifacts cannot be loaded there is no gateway to construct, which is
/// exactly the startup-fatal contract of the store.
pub struct Gateway {
    pub config: Config,
    pub params: PublicParameters,
    pub values: PublicValues,
    pub paid: ReplayGuard,
}

impl Gateway {
    /// A gateway over the given configuration and loaded artifacts, with no
    /// proof paid yet.
    pub fn new(config: Config, params: PublicParameters, values: PublicValues) -> (r: Gateway)
        ensures
            r.config == config,
            r.params@ == params@,
            r.values@ == values@,
            r.paid@ == Seq::<Seq<u8>>::empty(),
    {
        Gateway { config, params, values, paid: ReplayGuard::new() }
    }

    /// Drive one submission's pipeline one event forward.
    ///
    /// The result and the paid-set change are exactly `spec_step`; the
    /// configuration and the resident artifacts are never touched —
    /// verification is pure with respect to process state.
    pub fn step(&mut self, phase: Phase, event: Event) -> (r: (Phase, Option<Command>))
        ensures
            ({
                let m = spec_step(old(self).config, phase@, old(self).paid@, event@);
                &&& r.0@ == m.phase
                &&& spec_command_of(r.1) == m.command
                &&& final(self).paid@ == m.paid
            }),
            final(self).config == old(self).config,
            final(self).params@ == old(self).params@,
            final(self).values@ == old(self).values@,
    {
        match (phase, event) {
            (Phase::AwaitingBody, Event::BodyReceived(body)) => {
                match decode_submission(body.as_slice()) {
                    Option::None => respond_failure(FailureReason::MalformedSubmission),
                    Option::Some(submission) => {
                        if self.paid.contains(submission.proof_bytes.as_slice()) {
                            respond_failure(FailureReason::AlreadyPaid)
                        } else {
                            let job = slice_to_vec(submission.proof_bytes.as_slice());
                            (
                                Phase::AwaitingVerification { submission },
                                Some(Command::RunVerification(job)),
                            )
                        }
                    },
                }
            },
            (Phase::AwaitingVerification { submission }, Event::VerifyReturned(res)) => {
                match res {
                    VerifyCallResult::EngineFault => respond_failure(FailureReason::MalformedProof),
                    VerifyCallResult::Completed(false) => respond_failure(FailureReason::VerificationFailed),
                    VerifyCallResult::Completed(true) => {
                        if !check_recipient(submission.recipient_address.as_slice()) {
                            respond_failure(FailureReason::InvalidRecipient)
                        } else {
                            (
                                Phase::AwaitingDecimals { submission },
                                Some(Command::QueryDecimals),
                            )
                        }
                    },
                }
            },
            (Phase::AwaitingDecimals { submission }, Event::DecimalsReturned(res)) => {
                match res {
                    Option::None => respond_failure(FailureReason::LedgerUnreachable),
                    Option::Some(decimals) => {
                        match scale_amount(self.config.payout_amount, decimals) {
                            Option::None => respond_failure(FailureReason::AmountOverflow),
                            Option::Some(amount_native) => {
                                let fingerprint = slice_to_vec(submission.proof_bytes.as_slice());
                                let recipient = slice_to_vec(
                                    submission.recipient_address.as_slice(),
                                );
                                self.paid.record(fingerprint);
                                (
                                    Phase::AwaitingTransfer { submission },
                                    Some(Command::SubmitTransfer { recipient, amount_native }),
                                )
                            },
                        }
                    },
                }
            },
            (Phase::AwaitingTransfer { submission: _ }, Event::TransferReturned(outcome)) => {
                match crate::payout::classify_transfer(&outcome) {
                    Result::Ok(()) => {
                        let resp = RelayResponse { failure_reason: None };
                        (Phase::Done { response: resp }, Some(Command::Respond(resp)))
                    },
                    Result::Err(failure) => respond_failure(failure.reason),
                }
            },
            (ph, _) => (ph, None),
        }
    }
}

/// Finish a pipeline with this failure reason and hand the response out.
fn respond_failure(reason: FailureReason) -> (r: (Phase, Option<Command>))
    ensures
        r.0@ == (PhaseModel::Done { response: RelayResponse { failure_reason: Some(reason) } }),
        spec_command_of(r.1) == Some(
            CommandModel::Respond(RelayResponse { failure_reason: Some(reason) }),
        ),
{
    let resp = RelayResponse { failure_reason: Some(reason) };
    (Phase::Done { response: resp }, Some(Command::Respond(resp)))
}

} // verus!
