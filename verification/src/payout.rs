//! Payout executor: the decisions around a single ledger transfer.
//!
//! The gateway decides *whether* to pay; this module decides *how* and what
//! the attempt meant.  It checks the recipient address before anything goes
//! on-chain, scales the configured whole-token amount into the ledger's
//! native unit by the token's decimal precision, and classifies the receipt
//! the ledger hands back.  The transfer itself — signing, sending, waiting
//! for confirmations — is performed by the surrounding process against these
//! verdicts.

use vstd::prelude::*;
use core::str::FromStr;
use crate::submit::FailureReason;

verus! {

/// A recipient address byte that counts as a hex digit.
pub open spec fn spec_is_hex_digit(b: u8) -> bool {
    (48 <= b <= 57) || (97 <= b <= 102) || (65 <= b <= 70)
}

/// A recipient address byte the ledger's address parser skips over.
pub open spec fn spec_is_hex_space(b: u8) -> bool {
    b == 32 || b == 9 || b == 10 || b == 13
}

/// The address with a single leading `0x` removed, if it carries one.
pub open spec fn spec_strip_hex_prefix(s: Seq<u8>) -> Seq<u8> {
    if s.len() >= 2 && s[0] == 48 && s[1] == 120 {
        s.skip(2)
    } else {
        s
    }
}

/// A syntactically valid ledger account address: after an optional `0x`
/// prefix, every byte is a hex digit or skippable whitespace, and exactly
/// forty hex digits remain — twenty big-endian bytes.
pub open spec fn spec_addr_well_formed(s: Seq<u8>) -> bool {
    let t = spec_strip_hex_prefix(s);
    &&& forall|i: int| 0 <= i < t.len() ==> spec_is_hex_digit(#[trigger] t[i]) || spec_is_hex_space(t[i])
    &&& t.filter(|b: u8| spec_is_hex_digit(b)).len() == 40
}

/// Declares the ledger's account address type so that the parser below can
/// return it; the address itself stays opaque here.
#[verifier::external_type_specification]
#[verifier::external_body]
pub struct ExAddress(web3::types::Address);

/// Relies on `web3::types::Address::from_str` (fixed-hash's `FromStr` over
/// rustc-hex): it strips one optional `0x` prefix, skips ASCII whitespace,
/// and accepts exactly forty hex digits — nothing else.  Bytes that are not
/// UTF-8 contain a byte above 127, which that parser rejects as well.
#[verifier::external_body]
fn parse_address(bytes: &[u8]) -> (r: Option<web3::types::Address>)
    ensures
        r is Some <==> spec_addr_well_formed(bytes@),
{
    match core::str::from_utf8(bytes) {
        Ok(s) => web3::types::Address::from_str(s).ok(),
        Err(_) => None,
    }
}

/// Whether the ledger's address parser will accept this recipient.
///
/// A submission whose recipient fails this check is a hard payout failure,
/// `InvalidRecipient`, and nothing is attempted on-chain.
pub fn check_recipient(addr: &[u8]) -> (r: bool)
    ensures
        r == spec_addr_well_formed(addr@),
{
    parse_address(addr).is_some()
}

/// Ten to the `n`th, the factor between a token's whole unit and its native
/// ledger unit at `n` decimals of precision.
pub open spec fn spec_pow10(n: nat) -> nat
    decreases n,
{
    if n == 0 {
        1
    } else {
        10 * spec_pow10((n - 1) as nat)
    }
}

/// Ten to the `n`th never shrinks as `n` grows.
pub proof fn lemma_pow10_monotone(a: nat, b: nat)
    requires
        a <= b,
    ensures
        spec_pow10(a) <= spec_pow10(b),
    decreases b,
{
    if a < b {
        lemma_pow10_monotone(a, (b - 1) as nat);
    }
}

/// Ten to the `d`th as a machine integer, or nothing when it does not fit.
pub fn pow10_checked(d: u8) -> (r: Option<u128>)
    ensures
        match r {
            Some(p) => p == spec_pow10(d as nat),
            None => spec_pow10(d as nat) > u128::MAX,
        },
{
    let mut acc: u128 = 1;
    let mut i: u8 = 0;
    while i < d
        invariant
            i <= d,
            acc == spec_pow10(i as nat),
        decreases d - i,
    {
        acc = match acc.checked_mul(10) {
            Some(next) => next,
            None => {
                proof {
                    lemma_pow10_monotone((i + 1) as nat, d as nat);
                }
                return None;
            },
        };
        i = i + 1;
    }
    Some(acc)
}

/// Scale a whole-token payout amount into the ledger's native integer unit:
/// `amount * 10^decimals`, or nothing when that product does not fit the
/// native integer.
pub fn scale_amount(amount: u64, decimals: u8) -> (r: Option<u128>)
    ensures
        match r {
            Some(v) => v == amount * spec_pow10(decimals as nat),
            None => amount * spec_pow10(decimals as nat) > u128::MAX,
        },
{
    if amount == 0 {
        return Some(0);
    }
    match pow10_checked(decimals) {
        None => {
            proof {
                assert(amount * spec_pow10(decimals as nat) >= spec_pow10(decimals as nat))
                    by (nonlinear_arith)
                    requires
                        amount >= 1,
                ;
            }
            None
        },
        Some(p) => {
            match (amount as u128).checked_mul(p) {
                Some(v) => Some(v),
                None => None,
            }
        },
    }
}

/// What the ledger client reports after one transfer attempt, reduced to
/// what the classification needs: a receipt with its status word, no
/// receipt within the bounded confirmation wait, or no contact at all.
#[derive(Clone, Copy, PartialEq, Eq, Structural, Debug)]
pub enum TransferCallOutcome {
    /// The transfer was mined and a receipt came back; `status` is the
    /// receipt's status word, absent on pre-status ledgers.
    Receipt { status: Option<u64> },
    /// No receipt arrived within the bounded confirmation wait.
    NoReceipt,
    /// The ledger endpoint could not be reached.
    Unreachable,
}

/// A transfer attempt that did not take effect, carrying the precise stage
/// that failed.
#[derive(Clone, Copy, PartialEq, Eq, Structural, Debug)]
pub struct TransactionFailed {
    pub reason: FailureReason,
}

impl TransactionFailed {
    /// The message reported to the submitter for this failure.
    pub fn message(&self) -> (r: String)
        ensures
            r@ == crate::submit::spec_message(self.reason),
    {
        self.reason.message()
    }
}

/// The failure a transfer outcome classifies to, if any: a truthy status
/// word is the one and only success.
pub open spec fn spec_classify_transfer(o: TransferCallOutcome) -> Option<FailureReason> {
    match o {
        TransferCallOutcome::Receipt { status } => match status {
            Some(s) => if s == 0 {
                Some(FailureReason::TransactionReverted)
            } else {
                None
            },
            None => Some(FailureReason::TransactionFailed),
        },
        TransferCallOutcome::NoReceipt => Some(FailureReason::TransactionFailed),
        TransferCallOutcome::Unreachable => Some(FailureReason::LedgerUnreachable),
    }
}

/// Classify one transfer attempt: sent if and only if a receipt came back
/// with a non-zero status word; every other outcome is a distinct failure,
/// never an ambiguous "maybe sent" success.
pub fn classify_transfer(o: &TransferCallOutcome) -> (r: Result<(), TransactionFailed>)
    ensures
        match r {
            Ok(()) => spec_classify_transfer(*o) is None,
            Err(f) => spec_classify_transfer(*o) == Some(f.reason),
        },
{
    match o {
        TransferCallOutcome::Receipt { status } => match status {
            Some(s) => if *s == 0 {
                Err(TransactionFailed { reason: FailureReason::TransactionReverted })
            } else {
                Ok(())
            },
            None => Err(TransactionFailed { reason: FailureReason::TransactionFailed }),
        },
        TransferCallOutcome::NoReceipt => Err(
            TransactionFailed { reason: FailureReason::TransactionFailed },
        ),
        TransferCallOutcome::Unreachable => Err(
            TransactionFailed { reason: FailureReason::LedgerUnreachable },
        ),
    }
}

} // verus!
