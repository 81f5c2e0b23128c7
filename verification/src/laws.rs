//! The laws of the relay, stated and proved over the pipeline model.
//!
//! A submission's whole lifetime is a fold of `spec_step` over the events
//! the serving process feeds it; these lemmas pin down what any such run
//! can do: a proof that never verified is never paid, a body that never
//! decoded is never verified, no run pays more than once, and the one
//! canonical successful run pays exactly the configured amount scaled by
//! the token's decimals.

use vstd::prelude::*;
use crate::gateway::{
    spec_done, spec_step, CommandModel, Config, EventModel, PhaseModel, StepModel,
    VerifyCallResult,
};
use crate::payout::{
    spec_addr_well_formed, spec_classify_transfer, spec_pow10, TransferCallOutcome,
};
use crate::submit::{
    spec_decode_submission, spec_reason_status, FailureReason, RelayResponse, StatusClass,
};

verus! {

/// One submission's run: the phase, the paid-set and the commands emitted
/// after the given events, starting before its body over the paid set
/// `paid0`.
pub open spec fn spec_run(cfg: Config, paid0: Seq<Seq<u8>>, evs: Seq<EventModel>) -> (
    PhaseModel,
    Seq<Seq<u8>>,
    Seq<CommandModel>,
)
    decreases evs.len(),
{
    if evs.len() == 0 {
        (PhaseModel::AwaitingBody, paid0, Seq::<CommandModel>::empty())
    } else {
        let prev = spec_run(cfg, paid0, evs.drop_last());
        let m = spec_step(cfg, prev.0, prev.1, evs.last());
        (
            m.phase,
            m.paid,
            match m.command {
                Option::Some(c) => prev.2.push(c),
                Option::None => prev.2,
            },
        )
    }
}

/// How many transfers a command sequence submits.
pub open spec fn spec_transfer_count(cmds: Seq<CommandModel>) -> nat
    decreases cmds.len(),
{
    if cmds.len() == 0 {
        0
    } else {
        spec_transfer_count(cmds.drop_last()) + if cmds.last() is SubmitTransfer {
            1nat
        } else {
            0nat
        }
    }
}

/// How many verification runs a command sequence asks for.
pub open spec fn spec_verification_count(cmds: Seq<CommandModel>) -> nat
    decreases cmds.len(),
{
    if cmds.len() == 0 {
        0
    } else {
        spec_verification_count(cmds.drop_last()) + if cmds.last() is RunVerification {
            1nat
        } else {
            0nat
        }
    }
}

/// How many decimals queries a command sequence asks for.
pub open spec fn spec_decimals_count(cmds: Seq<CommandModel>) -> nat
    decreases cmds.len(),
{
    if cmds.len() == 0 {
        0
    } else {
        spec_decimals_count(cmds.drop_last()) + if cmds.last() is QueryDecimals {
            1nat
        } else {
            0nat
        }
    }
}

proof fn lemma_counts_push(s: Seq<CommandModel>, c: CommandModel)
    ensures
        spec_transfer_count(s.push(c)) == spec_transfer_count(s) + if c is SubmitTransfer {
            1nat
        } else {
            0nat
        },
        spec_verification_count(s.push(c)) == spec_verification_count(s)
            + if c is RunVerification {
            1nat
        } else {
            0nat
        },
        spec_decimals_count(s.push(c)) == spec_decimals_count(s) + if c is QueryDecimals {
            1nat
        } else {
            0nat
        },
{
    assert(s.push(c).drop_last() =~= s);
    assert(s.push(c).last() == c);
}

/// No run of the pipeline submits more than one transfer, whatever events
/// the outside world produces and in whatever order.
pub proof fn lemma_at_most_one_transfer(cfg: Config, paid0: Seq<Seq<u8>>, evs: Seq<EventModel>)
    ensures
        spec_transfer_count(spec_run(cfg, paid0, evs).2) <= 1,
        !(spec_run(cfg, paid0, evs).0 is AwaitingTransfer) && !(spec_run(cfg, paid0, evs).0
            is Done) ==> spec_transfer_count(spec_run(cfg, paid0, evs).2) == 0,
        spec_run(cfg, paid0, evs).0 is AwaitingTransfer ==> spec_transfer_count(
            spec_run(cfg, paid0, evs).2,
        ) == 1,
    decreases evs.len(),
{
    if evs.len() > 0 {
        lemma_at_most_one_transfer(cfg, paid0, evs.drop_last());
        let prev = spec_run(cfg, paid0, evs.drop_last());
        let m = spec_step(cfg, prev.0, prev.1, evs.last());
        match m.command {
            Option::Some(c) => lemma_counts_push(prev.2, c),
            Option::None => {},
        }
    }
}

/// No run of the pipeline asks for verification more than once: the
/// verification outcome is computed at most once per submission and never
/// retried.
pub proof fn lemma_at_most_one_verification(cfg: Config, paid0: Seq<Seq<u8>>, evs: Seq<EventModel>)
    ensures
        spec_verification_count(spec_run(cfg, paid0, evs).2) <= 1,
        spec_run(cfg, paid0, evs).0 is AwaitingBody ==> spec_verification_count(
            spec_run(cfg, paid0, evs).2,
        ) == 0,
        spec_run(cfg, paid0, evs).0 is AwaitingVerification || spec_run(cfg, paid0, evs).0
            is AwaitingDecimals || spec_run(cfg, paid0, evs).0 is AwaitingTransfer
            ==> spec_verification_count(spec_run(cfg, paid0, evs).2) == 1,
    decreases evs.len(),
{
    if evs.len() > 0 {
        lemma_at_most_one_verification(cfg, paid0, evs.drop_last());
        let prev = spec_run(cfg, paid0, evs.drop_last());
        let m = spec_step(cfg, prev.0, prev.1, evs.last());
        match m.command {
            Option::Some(c) => lemma_counts_push(prev.2, c),
            Option::None => {},
        }
    }
}

/// A proof that the engine never pronounced valid is never paid: a run
/// containing no successful verification verdict submits no transfer and
/// never even queries the ledger.
pub proof fn lemma_unverified_never_pays(cfg: Config, paid0: Seq<Seq<u8>>, evs: Seq<EventModel>)
    requires
        forall|i: int|
            0 <= i < evs.len() ==> !(#[trigger] evs[i] matches EventModel::VerifyReturned(
                VerifyCallResult::Completed(true),
            )),
    ensures
        spec_transfer_count(spec_run(cfg, paid0, evs).2) == 0,
        spec_decimals_count(spec_run(cfg, paid0, evs).2) == 0,
        !(spec_run(cfg, paid0, evs).0 is AwaitingDecimals),
        !(spec_run(cfg, paid0, evs).0 is AwaitingTransfer),
        spec_run(cfg, paid0, evs).1 == paid0,
    decreases evs.len(),
{
    if evs.len() > 0 {
        assert(forall|i: int|
            0 <= i < evs.drop_last().len() ==> #[trigger] evs.drop_last()[i] == evs[i]);
        lemma_unverified_never_pays(cfg, paid0, evs.drop_last());
        let prev = spec_run(cfg, paid0, evs.drop_last());
        let m = spec_step(cfg, prev.0, prev.1, evs.last());
        assert(!(evs[evs.len() - 1] matches EventModel::VerifyReturned(
            VerifyCallResult::Completed(true),
        )));
        match m.command {
            Option::Some(c) => lemma_counts_push(prev.2, c),
            Option::None => {},
        }
    }
}

/// Every unsuccessful verification verdict finishes the pipeline at once,
/// with a non-null failure reason of the rejection class; nothing is asked
/// for but the response.
pub proof fn lemma_gate_rejects_invalid(
    cfg: Config,
    paid: Seq<Seq<u8>>,
    proof_bytes: Seq<u8>,
    recipient: Seq<u8>,
    res: VerifyCallResult,
)
    requires
        !(res matches VerifyCallResult::Completed(true)),
    ensures
        ({
            let m = spec_step(
                cfg,
                PhaseModel::AwaitingVerification { proof_bytes, recipient },
                paid,
                EventModel::VerifyReturned(res),
            );
            let reason = if res is EngineFault {
                FailureReason::MalformedProof
            } else {
                FailureReason::VerificationFailed
            };
            &&& m == spec_done(paid, reason)
            &&& m.phase == (PhaseModel::Done {
                response: RelayResponse { failure_reason: Some(reason) },
            })
            &&& spec_reason_status(reason) == StatusClass::RejectedVerification
        }),
{
}

/// A body that does not decode never reaches the verification step: a run
/// whose every body event is malformed asks for no verification and no
/// payout work at all.
pub proof fn lemma_malformed_never_verified(cfg: Config, paid0: Seq<Seq<u8>>, evs: Seq<EventModel>)
    requires
        forall|i: int|
            0 <= i < evs.len() ==> ((#[trigger] evs[i]) matches EventModel::BodyReceived(b)
                ==> spec_decode_submission(b) is None),
    ensures
        spec_verification_count(spec_run(cfg, paid0, evs).2) == 0,
        spec_decimals_count(spec_run(cfg, paid0, evs).2) == 0,
        spec_transfer_count(spec_run(cfg, paid0, evs).2) == 0,
        spec_run(cfg, paid0, evs).0 is AwaitingBody || spec_run(cfg, paid0, evs).0 is Done,
    decreases evs.len(),
{
    if evs.len() > 0 {
        assert(forall|i: int|
            0 <= i < evs.drop_last().len() ==> #[trigger] evs.drop_last()[i] == evs[i]);
        lemma_malformed_never_verified(cfg, paid0, evs.drop_last());
        let prev = spec_run(cfg, paid0, evs.drop_last());
        let m = spec_step(cfg, prev.0, prev.1, evs.last());
        if prev.0 is AwaitingBody {
            match evs.last() {
                EventModel::BodyReceived(b) => {
                    assert(evs[evs.len() - 1] == EventModel::BodyReceived(b));
                    assert(spec_decode_submission(b) is None);
                },
                _ => {},
            }
        }
        match m.command {
            Option::Some(c) => lemma_counts_push(prev.2, c),
            Option::None => {},
        }
    }
}

/// At most one payout per distinct valid proof, under serial processing:
/// once a proof's fingerprint is in the paid set, a run whose every body
/// carries that proof (or does not decode) verifies nothing, queries
/// nothing, transfers nothing, and leaves the paid set as it was.
pub proof fn lemma_paid_proof_never_paid_again(
    cfg: Config,
    paid0: Seq<Seq<u8>>,
    evs: Seq<EventModel>,
)
    requires
        forall|i: int|
            0 <= i < evs.len() ==> ((#[trigger] evs[i]) matches EventModel::BodyReceived(b)
                ==> (spec_decode_submission(b) matches Some(sub) ==> paid0.contains(sub.0))),
    ensures
        spec_verification_count(spec_run(cfg, paid0, evs).2) == 0,
        spec_decimals_count(spec_run(cfg, paid0, evs).2) == 0,
        spec_transfer_count(spec_run(cfg, paid0, evs).2) == 0,
        spec_run(cfg, paid0, evs).1 == paid0,
        spec_run(cfg, paid0, evs).0 is AwaitingBody || spec_run(cfg, paid0, evs).0 is Done,
    decreases evs.len(),
{
    if evs.len() > 0 {
        assert(forall|i: int|
            0 <= i < evs.drop_last().len() ==> #[trigger] evs.drop_last()[i] == evs[i]);
        lemma_paid_proof_never_paid_again(cfg, paid0, evs.drop_last());
        let prev = spec_run(cfg, paid0, evs.drop_last());
        let m = spec_step(cfg, prev.0, prev.1, evs.last());
        if prev.0 is AwaitingBody {
            match evs.last() {
                EventModel::BodyReceived(b) => {
                    assert(evs[evs.len() - 1] == EventModel::BodyReceived(b));
                },
                _ => {},
            }
        }
        match m.command {
            Option::Some(c) => lemma_counts_push(prev.2, c),
            Option::None => {},
        }
    }
}

/// A malformed body is answered immediately, with the malformed-submission
/// reason under the client-error class, and nothing else is asked for.
pub proof fn lemma_malformed_response(cfg: Config, paid: Seq<Seq<u8>>, body: Seq<u8>)
    requires
        spec_decode_submission(body) is None,
    ensures
        spec_step(cfg, PhaseModel::AwaitingBody, paid, EventModel::BodyReceived(body))
            == spec_done(paid, FailureReason::MalformedSubmission),
        spec_reason_status(FailureReason::MalformedSubmission) == StatusClass::MalformedRequest,
{
}

/// The canonical successful run: a fresh, well-formed submission whose
/// proof verifies and whose transfer confirms.  It emits exactly one
/// verification, one decimals query, one transfer — of the configured
/// payout scaled by the token's decimals, to the submitted recipient — and
/// the success response; and it alone extends the paid-proof set.
pub proof fn lemma_valid_proof_pays(
    cfg: Config,
    paid0: Seq<Seq<u8>>,
    body: Seq<u8>,
    proof_bytes: Seq<u8>,
    recipient: Seq<u8>,
    decimals: u8,
    outcome: TransferCallOutcome,
)
    requires
        spec_decode_submission(body) == Some((proof_bytes, recipient)),
        !paid0.contains(proof_bytes),
        spec_addr_well_formed(recipient),
        cfg.payout_amount * spec_pow10(decimals as nat) <= u128::MAX,
        spec_classify_transfer(outcome) is None,
    ensures
        ({
            let evs = seq![
                EventModel::BodyReceived(body),
                EventModel::VerifyReturned(VerifyCallResult::Completed(true)),
                EventModel::DecimalsReturned(Some(decimals)),
                EventModel::TransferReturned(outcome),
            ];
            let r = spec_run(cfg, paid0, evs);
            &&& r.2 =~= seq![
                CommandModel::RunVerification(proof_bytes),
                CommandModel::QueryDecimals,
                CommandModel::SubmitTransfer {
                    recipient,
                    amount_native: (cfg.payout_amount * spec_pow10(decimals as nat)) as u128,
                },
                CommandModel::Respond(RelayResponse { failure_reason: None }),
            ]
            &&& r.0 == (PhaseModel::Done { response: RelayResponse { failure_reason: None } })
            &&& r.1 == paid0.push(proof_bytes)
        }),
{
    let e0 = EventModel::BodyReceived(body);
    let e1 = EventModel::VerifyReturned(VerifyCallResult::Completed(true));
    let e2 = EventModel::DecimalsReturned(Some(decimals));
    let e3 = EventModel::TransferReturned(outcome);
    let evs = seq![e0, e1, e2, e3];
    assert(evs.drop_last() =~= seq![e0, e1, e2]);
    assert(seq![e0, e1, e2].drop_last() =~= seq![e0, e1]);
    assert(seq![e0, e1].drop_last() =~= seq![e0]);
    assert(seq![e0].drop_last() =~= Seq::<EventModel>::empty());
    assert(seq![e0].last() == e0);
    assert(seq![e0, e1].last() == e1);
    assert(seq![e0, e1, e2].last() == e2);
    assert(evs.last() == e3);
    let amount_native = (cfg.payout_amount * spec_pow10(decimals as nat)) as u128;
    reveal_with_fuel(spec_run, 6);
    assert(spec_run(cfg, paid0, Seq::<EventModel>::empty()).0 == PhaseModel::AwaitingBody);
    let r1 = spec_run(cfg, paid0, seq![e0]);
    assert(r1.0 == (PhaseModel::AwaitingVerification { proof_bytes, recipient }));
    assert(r1.1 == paid0);
    assert(r1.2 =~= seq![CommandModel::RunVerification(proof_bytes)]);
    let r2 = spec_run(cfg, paid0, seq![e0, e1]);
    assert(r2.0 == (PhaseModel::AwaitingDecimals { proof_bytes, recipient }));
    assert(r2.1 == paid0);
    assert(r2.2 =~= seq![
        CommandModel::RunVerification(proof_bytes),
        CommandModel::QueryDecimals,
    ]);
    let r3 = spec_run(cfg, paid0, seq![e0, e1, e2]);
    assert(r3.0 == (PhaseModel::AwaitingTransfer { proof_bytes, recipient }));
    assert(r3.1 == paid0.push(proof_bytes));
    assert(r3.2 =~= seq![
        CommandModel::RunVerification(proof_bytes),
        CommandModel::QueryDecimals,
        CommandModel::SubmitTransfer { recipient, amount_native },
    ]);
    let r = spec_run(cfg, paid0, evs);
    assert(r.0 == (PhaseModel::Done { response: RelayResponse { failure_reason: None } }));
    assert(r.1 == paid0.push(proof_bytes));
    assert(r.2 =~= seq![
        CommandModel::RunVerification(proof_bytes),
        CommandModel::QueryDecimals,
        CommandModel::SubmitTransfer { recipient, amount_native },
        CommandModel::Respond(RelayResponse { failure_reason: None }),
    ]);
}

/// A proof whose fingerprint has already triggered a payout is turned away
/// as already paid the moment its body decodes, without re-running
/// verification.
pub proof fn lemma_replay_rejected(
    cfg: Config,
    paid: Seq<Seq<u8>>,
    body: Seq<u8>,
    proof_bytes: Seq<u8>,
    recipient: Seq<u8>,
)
    requires
        spec_decode_submission(body) == Some((proof_bytes, recipient)),
        paid.contains(proof_bytes),
    ensures
        spec_step(cfg, PhaseModel::AwaitingBody, paid, EventModel::BodyReceived(body))
            == spec_done(paid, FailureReason::AlreadyPaid),
{
}

/// The moment a transfer is submitted, the proof's fingerprint is in the
/// paid set, so a later submission of the identical proof meets the guard.
pub proof fn lemma_transfer_recorded(
    cfg: Config,
    paid: Seq<Seq<u8>>,
    proof_bytes: Seq<u8>,
    recipient: Seq<u8>,
    decimals: u8,
)
    requires
        cfg.payout_amount * spec_pow10(decimals as nat) <= u128::MAX,
    ensures
        ({
            let m = spec_step(
                cfg,
                PhaseModel::AwaitingDecimals { proof_bytes, recipient },
                paid,
                EventModel::DecimalsReturned(Some(decimals)),
            );
            &&& m.paid == paid.push(proof_bytes)
            &&& m.paid.contains(proof_bytes)
            &&& m.command == Some(
                CommandModel::SubmitTransfer {
                    recipient,
                    amount_native: (cfg.payout_amount * spec_pow10(decimals as nat)) as u128,
                },
            )
        }),
{
    let m = spec_step(
        cfg,
        PhaseModel::AwaitingDecimals { proof_bytes, recipient },
        paid,
        EventModel::DecimalsReturned(Some(decimals)),
    );
    assert(m.paid == paid.push(proof_bytes));
    assert(m.paid[paid.len() as int] == proof_bytes);
}

/// A reverted transfer is reported as its own server-side failure, under a
/// message distinct from every verification rejection: a caller can always
/// tell "the proof was invalid" from "the proof was valid but payment
/// failed".
pub proof fn lemma_reverted_transfer_reported(
    cfg: Config,
    paid: Seq<Seq<u8>>,
    proof_bytes: Seq<u8>,
    recipient: Seq<u8>,
)
    ensures
        ({
            let m = spec_step(
                cfg,
                PhaseModel::AwaitingTransfer { proof_bytes, recipient },
                paid,
                EventModel::TransferReturned(
                    TransferCallOutcome::Receipt { status: Some(0) },
                ),
            );
            &&& m == spec_done(paid, FailureReason::TransactionReverted)
            &&& spec_reason_status(FailureReason::TransactionReverted) == StatusClass::ServerFault
            &&& crate::submit::spec_message(FailureReason::TransactionReverted)
                != crate::submit::spec_message(FailureReason::VerificationFailed)
            &&& crate::submit::spec_message(FailureReason::TransactionReverted)
                != crate::submit::spec_message(FailureReason::MalformedProof)
        }),
{
    crate::submit::lemma_payout_messages_distinct(
        FailureReason::TransactionReverted,
        FailureReason::VerificationFailed,
    );
    crate::submit::lemma_payout_messages_distinct(
        FailureReason::TransactionReverted,
        FailureReason::MalformedProof,
    );
}

/// A finished pipeline is terminal: whatever arrives later changes nothing
/// and asks for nothing.  A verification outcome is computed once per
/// submission and never retried.
pub proof fn lemma_done_is_terminal(
    cfg: Config,
    paid: Seq<Seq<u8>>,
    response: RelayResponse,
    ev: EventModel,
)
    ensures
        spec_step(cfg, PhaseModel::Done { response }, paid, ev) == (StepModel {
            phase: PhaseModel::Done { response },
            paid,
            command: None,
        }),
{
}

} // verus!
