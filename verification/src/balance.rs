//! Relay balance snapshot: the read-only informational view.
//!
//! The relay's info operation reports the configured payout amount and a
//! live, point-in-time view of the payout account — computed on demand,
//! never cached, never touched by the payment flow.  A failing ledger query
//! degrades the report (the snapshot is simply absent) rather than blocking
//! the service.

use vstd::prelude::*;
use vstd::arithmetic::div_mod::lemma_fundamental_div_mod;
use crate::gateway::Config;
use crate::payout::{lemma_pow10_monotone, pow10_checked, spec_pow10};

verus! {

/// A point-in-time view of the payout account: the token's decimal
/// precision, the raw balance in native units, and the same balance split
/// into whole tokens and the native-unit remainder.
#[derive(Clone, Copy, PartialEq, Eq, Structural, Debug)]
pub struct RelayBalanceSnapshot {
    pub decimals: u8,
    pub raw: u128,
    pub whole: u128,
    pub fractional: u128,
}

impl RelayBalanceSnapshot {
    /// The split is exact: whole tokens times the decimal factor plus the
    /// remainder is the raw balance, and the remainder is below one whole
    /// token.  When the decimal factor itself exceeds the native integer,
    /// the balance is all remainder.
    pub open spec fn wf(self) -> bool {
        if spec_pow10(self.decimals as nat) <= u128::MAX {
            &&& self.whole * spec_pow10(self.decimals as nat) + self.fractional == self.raw
            &&& self.fractional < spec_pow10(self.decimals as nat)
        } else {
            &&& self.whole == 0
            &&& self.fractional == self.raw
        }
    }
}

/// Split a raw native balance by the token's decimal precision.
pub fn balance_snapshot(decimals: u8, raw: u128) -> (r: RelayBalanceSnapshot)
    ensures
        r.decimals == decimals,
        r.raw == raw,
        r.wf(),
{
    match pow10_checked(decimals) {
        Option::Some(p) => {
            proof {
                lemma_pow10_monotone(0, decimals as nat);
            }
            let whole = raw / p;
            let fractional = raw % p;
            proof {
                lemma_fundamental_div_mod(raw as int, p as int);
                vstd::arithmetic::div_mod::lemma_mod_bound(raw as int, p as int);
                assert(raw == p * whole + fractional);
                assert(p * whole == whole * p) by (nonlinear_arith);
            }
            RelayBalanceSnapshot { decimals, raw, whole, fractional }
        },
        Option::None => RelayBalanceSnapshot { decimals, raw, whole: 0, fractional: raw },
    }
}

/// What the info operation reports: the configured payout amount, and the
/// live snapshot when the ledger answered.
pub struct InfoReport {
    pub payout_amount: u64,
    pub balance: Option<RelayBalanceSnapshot>,
}

/// Build the info report from the configuration and the ledger's answer —
/// decimals and raw balance, or nothing when the query failed, which
/// degrades the report instead of failing it.
pub fn relay_info(cfg: &Config, ledger_answer: Option<(u8, u128)>) -> (r: InfoReport)
    ensures
        r.payout_amount == cfg.payout_amount,
        ledger_answer is None <==> r.balance is None,
        ledger_answer matches Some((decimals, raw)) ==> (r.balance matches Some(snap)
            && snap.decimals == decimals && snap.raw == raw && snap.wf()),
{
    match ledger_answer {
        Option::None => InfoReport { payout_amount: cfg.payout_amount, balance: None },
        Option::Some((decimals, raw)) => InfoReport {
            payout_amount: cfg.payout_amount,
            balance: Some(balance_snapshot(decimals, raw)),
        },
    }
}

/// The number a big-endian sequence of ASCII decimal digits denotes.
pub open spec fn spec_decimal_value(s: Seq<u8>) -> nat
    decreases s.len(),
{
    if s.len() == 0 {
        0
    } else {
        ((s[0] - 48) as nat) * spec_pow10((s.len() - 1) as nat) + spec_decimal_value(s.skip(1))
    }
}

/// Render a number as ASCII decimal digits: the digits denote exactly the
/// number, and there is no leading zero unless the number is zero.
pub fn render_decimal(n: u128) -> (r: Vec<u8>)
    ensures
        spec_decimal_value(r@) == n,
        forall|i: int| 0 <= i < r@.len() ==> 48 <= #[trigger] r@[i] <= 57,
        r@.len() >= 1,
        n == 0 ==> r@ =~= seq![48u8],
        n > 0 ==> r@[0] != 48,
{
    if n == 0 {
        let mut r: Vec<u8> = Vec::new();
        r.push(48);
        proof {
            assert(r@ =~= seq![48u8]);
            assert(r@.skip(1) =~= Seq::<u8>::empty());
            assert(spec_decimal_value(Seq::<u8>::empty()) == 0);
            assert(spec_pow10((r@.len() - 1) as nat) == 1);
            assert(spec_decimal_value(r@) == 0);
        }
        return r;
    }
    let mut out: Vec<u8> = Vec::new();
    let mut m: u128 = n;
    proof {
        assert(out@ =~= Seq::<u8>::empty());
        assert(spec_decimal_value(out@) == 0);
        assert(spec_pow10(0) == 1);
    }
    while m > 0
        invariant
            spec_decimal_value(out@) + m * spec_pow10(out@.len() as nat) == n,
            forall|i: int| 0 <= i < out@.len() ==> 48 <= #[trigger] out@[i] <= 57,
            m == 0 ==> out@.len() >= 1 && out@[0] != 48,
            m <= n,
        decreases m,
    {
        let ghost prev = out@;
        let ghost m0 = m;
        let digit: u8 = (m % 10) as u8 + 48;
        m = m / 10;
        out.insert(0, digit);
        proof {
            lemma_fundamental_div_mod(m0 as int, 10);
            assert(out@ =~= seq![digit] + prev);
            assert(out@.skip(1) =~= prev);
            let len = prev.len() as nat;
            assert(spec_decimal_value(out@) == ((digit - 48) as nat) * spec_pow10(len)
                + spec_decimal_value(prev));
            assert(m0 * spec_pow10(len) == ((m0 % 10) + 10 * (m0 / 10)) * spec_pow10(len));
            assert(((m0 % 10) + 10 * (m0 / 10)) * spec_pow10(len) == (m0 % 10) * spec_pow10(len)
                + (m0 / 10) * (10 * spec_pow10(len))) by (nonlinear_arith);
            assert(spec_pow10((len + 1) as nat) == 10 * spec_pow10(len));
            if m == 0 {
                assert(m0 < 10) by {
                    if m0 >= 10 {
                        vstd::arithmetic::div_mod::lemma_div_is_ordered(10, m0 as int, 10);
                    }
                };
                assert(digit != 48);
            }
        }
    }
    out
}

/// Render a number as ASCII decimal digits, left-padded with zeros to at
/// least the given width — how a fractional token part is shown under a
/// fixed decimal precision.  Padding never changes the denoted number.
pub fn render_decimal_padded(n: u128, width: usize) -> (r: Vec<u8>)
    ensures
        spec_decimal_value(r@) == n,
        forall|i: int| 0 <= i < r@.len() ==> 48 <= #[trigger] r@[i] <= 57,
        r@.len() >= width,
        r@.len() >= 1,
        r@.len() > width && n > 0 ==> r@[0] != 48,
{
    let mut out = render_decimal(n);
    let ghost unpadded = out@;
    while out.len() < width
        invariant
            spec_decimal_value(out@) == n,
            forall|i: int| 0 <= i < out@.len() ==> 48 <= #[trigger] out@[i] <= 57,
            out@.len() >= 1,
            out@ == unpadded || out@.len() <= width,
            n > 0 ==> unpadded[0] != 48,
        decreases width - out@.len(),
    {
        let ghost prev = out@;
        out.insert(0, 48);
        proof {
            assert(out@ =~= seq![48u8] + prev);
            assert(out@.skip(1) =~= prev);
            assert(spec_decimal_value(out@) == 0 * spec_pow10(prev.len() as nat)
                + spec_decimal_value(prev));
        }
    }
    out
}

} // verus!
