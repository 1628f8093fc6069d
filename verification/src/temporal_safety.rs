//! Go/no-go questions over confirmation counts: when a lock, cancel, buy,
//! refund or punish transaction may be acted upon.
use vstd::prelude::*;
use crate::chain::Blockchain;

verus! {

pub type BlockHeight = u32;

/// Why a set of thresholds was turned down.
#[derive(Debug, Clone, Copy, PartialEq, Eq, Structural)]
pub enum Error {
    /// The timelocks, the race margin and the finality threshold are not in
    /// a safe order.
    TemporalUnsafe,
}

impl Error {
    /// The text shown to an operator.
    pub fn message(&self) -> (text: &'static str)
        ensures
            text@ == "unsafe and invalid temporal parameters, timelocks, race and tx finality params"@,
    {
        "unsafe and invalid temporal parameters, timelocks, race and tx finality params"
    }
}

/// The thresholds, in blocks, that gate every step of a swap.
#[derive(Debug, Clone, Copy, PartialEq, Eq, Structural)]
pub struct TemporalSafety {
    /// Blocks after the lock's inclusion from which cancel is valid on-chain.
    pub cancel_timelock: BlockHeight,
    /// Blocks after the cancel's inclusion from which punish is valid.
    pub punish_timelock: BlockHeight,
    /// Safety margin: nothing is done this close to a counter-action.
    pub race_thr: BlockHeight,
    /// Confirmations after which an arbitrating transaction is final.
    pub btc_finality_thr: BlockHeight,
    /// Confirmations after which an accordant transaction is final.
    pub xmr_finality_thr: BlockHeight,
    /// Confirmations before the shared accordant output is swept.
    pub sweep_monero_thr: BlockHeight,
}

impl TemporalSafety {
    /// The thresholds are in a safe order.
    pub open spec fn valid(&self) -> bool {
        &&& self.btc_finality_thr < self.cancel_timelock
        &&& self.cancel_timelock < self.punish_timelock
        &&& self.btc_finality_thr < self.race_thr
        &&& self.punish_timelock > self.race_thr
        &&& self.cancel_timelock > self.race_thr
    }

    /// The finality threshold of a chain.
    pub open spec fn finality_thr(&self, blockchain: Blockchain) -> u32 {
        match blockchain {
            Blockchain::Bitcoin => self.btc_finality_thr,
            Blockchain::Monero => self.xmr_finality_thr,
        }
    }

    pub open spec fn spec_final_tx(&self, confs: u32, blockchain: Blockchain) -> bool {
        confs >= self.finality_thr(blockchain)
    }

    pub open spec fn spec_stop_funding_before_cancel(&self, lock_confirmations: u32) -> bool {
        &&& self.spec_final_tx(lock_confirmations, Blockchain::Bitcoin)
        &&& lock_confirmations > self.cancel_timelock - self.race_thr + 1
    }

    pub open spec fn spec_valid_cancel(&self, lock_confirmations: u32) -> bool {
        &&& self.spec_final_tx(lock_confirmations, Blockchain::Bitcoin)
        &&& lock_confirmations >= self.cancel_timelock
    }

    pub open spec fn spec_safe_buy(&self, lock_confirmations: u32) -> bool {
        &&& self.spec_final_tx(lock_confirmations, Blockchain::Bitcoin)
        &&& lock_confirmations <= self.cancel_timelock - self.race_thr
    }

    pub open spec fn spec_safe_refund(&self, cancel_confirmations: u32) -> bool {
        &&& self.spec_final_tx(cancel_confirmations, Blockchain::Bitcoin)
        &&& cancel_confirmations <= self.punish_timelock - self.race_thr
    }

    pub open spec fn spec_valid_punish(&self, cancel_confirmations: u32) -> bool {
        &&& self.spec_final_tx(cancel_confirmations, Blockchain::Bitcoin)
        &&& cancel_confirmations >= self.punish_timelock
    }

    /// Builds the thresholds, or refuses them when they are not in a safe
    /// order.
    pub fn new(
        cancel_timelock: BlockHeight,
        punish_timelock: BlockHeight,
        race_thr: BlockHeight,
        btc_finality_thr: BlockHeight,
        xmr_finality_thr: BlockHeight,
        sweep_monero_thr: BlockHeight,
    ) -> (made: Result<TemporalSafety, Error>)
        ensures
            match made {
                Ok(ts) => ts.valid() && ts == (TemporalSafety {
                    cancel_timelock,
                    punish_timelock,
                    race_thr,
                    btc_finality_thr,
                    xmr_finality_thr,
                    sweep_monero_thr,
                }),
                Err(e) => e == Error::TemporalUnsafe && !(TemporalSafety {
                    cancel_timelock,
                    punish_timelock,
                    race_thr,
                    btc_finality_thr,
                    xmr_finality_thr,
                    sweep_monero_thr,
                }).valid(),
            },
    {
        let ts = TemporalSafety {
            cancel_timelock,
            punish_timelock,
            race_thr,
            btc_finality_thr,
            xmr_finality_thr,
            sweep_monero_thr,
        };
        match ts.valid_params() {
            Ok(()) => Ok(ts),
            Err(e) => Err(e),
        }
    }

    /// Checks that the thresholds are in a safe order:
    /// finality < cancel < punish, finality < race, race < cancel and
    /// race < punish.
    pub fn valid_params(&self) -> (checked: Result<(), Error>)
        ensures
            checked is Ok <==> self.valid(),
            checked is Err ==> checked == Err::<(), Error>(Error::TemporalUnsafe),
    {
        let btc_finality = self.btc_finality_thr;
        let cancel = self.cancel_timelock;
        let punish = self.punish_timelock;
        let race = self.race_thr;
        if btc_finality < cancel && cancel < punish && btc_finality < race && punish > race
            && cancel > race {
            Ok(())
        } else {
            Err(Error::TemporalUnsafe)
        }
    }

    /// Whether a transaction with `confs` confirmations is final on its
    /// chain.
    #[verifier::when_used_as_spec(spec_final_tx)]
    pub fn final_tx(&self, confs: u32, blockchain: Blockchain) -> (is_final: bool)
        ensures
            is_final == self.spec_final_tx(confs, blockchain),
    {
        let finality_thr = match blockchain {
            Blockchain::Bitcoin => self.btc_finality_thr,
            Blockchain::Monero => self.xmr_finality_thr,
        };
        confs >= finality_thr
    }

    /// Whether funding is no longer acknowledged: the lock is final and has
    /// more than `cancel_timelock - race_thr + 1` confirmations.
    #[verifier::when_used_as_spec(spec_stop_funding_before_cancel)]
    pub fn stop_funding_before_cancel(&self, lock_confirmations: u32) -> (stop: bool)
        ensures
            stop == self.spec_stop_funding_before_cancel(lock_confirmations),
    {
        let confs: i64 = lock_confirmations as i64;
        let limit: i64 = self.cancel_timelock as i64 - self.race_thr as i64 + 1;
        self.final_tx(lock_confirmations, Blockchain::Bitcoin) && confs > limit
    }

    /// Blocks left until funding is stopped; negative once it has been.
    pub fn blocks_until_stop_funding(&self, lock_confirmations: u32) -> (blocks: i64)
        ensures
            blocks == self.cancel_timelock - (self.race_thr + 1 + lock_confirmations),
    {
        self.cancel_timelock as i64 - (self.race_thr as i64 + 1 + lock_confirmations as i64)
    }

    /// Whether cancel is valid on-chain: the lock is final and has at least
    /// `cancel_timelock` confirmations.
    #[verifier::when_used_as_spec(spec_valid_cancel)]
    pub fn valid_cancel(&self, lock_confirmations: u32) -> (valid: bool)
        ensures
            valid == self.spec_valid_cancel(lock_confirmations),
    {
        self.final_tx(lock_confirmations, Blockchain::Bitcoin) && lock_confirmations
            >= self.cancel_timelock
    }

    /// Blocks left until cancel is valid; zero or negative once it is.
    pub fn blocks_until_cancel(&self, lock_confirmations: u32) -> (blocks: i64)
        ensures
            blocks == self.cancel_timelock - lock_confirmations,
    {
        self.cancel_timelock as i64 - lock_confirmations as i64
    }

    /// Whether buy cannot be raced by cancel: the lock is final and has at
    /// most `cancel_timelock - race_thr` confirmations.
    #[verifier::when_used_as_spec(spec_safe_buy)]
    pub fn safe_buy(&self, lock_confirmations: u32) -> (safe: bool)
        ensures
            safe == self.spec_safe_buy(lock_confirmations),
    {
        let confs: i64 = lock_confirmations as i64;
        let limit: i64 = self.cancel_timelock as i64 - self.race_thr as i64;
        self.final_tx(lock_confirmations, Blockchain::Bitcoin) && confs <= limit
    }

    /// Whether refund cannot be raced by punish: the cancel is final and has
    /// at most `punish_timelock - race_thr` confirmations.
    #[verifier::when_used_as_spec(spec_safe_refund)]
    pub fn safe_refund(&self, cancel_confirmations: u32) -> (safe: bool)
        ensures
            safe == self.spec_safe_refund(cancel_confirmations),
    {
        let confs: i64 = cancel_confirmations as i64;
        let limit: i64 = self.punish_timelock as i64 - self.race_thr as i64;
        self.final_tx(cancel_confirmations, Blockchain::Bitcoin) && confs <= limit
    }

    /// Whether punish is valid on-chain: the cancel is final and has at
    /// least `punish_timelock` confirmations.
    #[verifier::when_used_as_spec(spec_valid_punish)]
    pub fn valid_punish(&self, cancel_confirmations: u32) -> (valid: bool)
        ensures
            valid == self.spec_valid_punish(cancel_confirmations),
    {
        self.final_tx(cancel_confirmations, Blockchain::Bitcoin) && cancel_confirmations
            >= self.punish_timelock
    }

    /// Blocks left until punish is valid; zero or negative once it is.
    pub fn blocks_until_punish_after_cancel(&self, cancel_confirmations: u32) -> (blocks: i64)
        ensures
            blocks == self.punish_timelock - cancel_confirmations,
    {
        self.punish_timelock as i64 - cancel_confirmations as i64
    }
}

/// The buy window and the cancel window are disjoint: with thresholds in a
/// safe order, no confirmation count makes buy safe and cancel valid at once.
pub proof fn lemma_buy_excludes_cancel(ts: TemporalSafety, lock_confirmations: u32)
    requires
        ts.valid(),
    ensures
        ts.spec_safe_buy(lock_confirmations) ==> !ts.spec_valid_cancel(lock_confirmations),
{
}

/// The refund window and the punish window are disjoint.
pub proof fn lemma_refund_excludes_punish(ts: TemporalSafety, cancel_confirmations: u32)
    requires
        ts.valid(),
    ensures
        ts.spec_safe_refund(cancel_confirmations) ==> !ts.spec_valid_punish(cancel_confirmations),
{
}

/// Finality is monotonic in confirmations: a transaction that is final with
/// `n` confirmations is final with any `m >= n`.
pub proof fn lemma_final_tx_monotonic(ts: TemporalSafety, n: u32, m: u32, blockchain: Blockchain)
    requires
        m >= n,
    ensures
        ts.spec_final_tx(n, blockchain) ==> ts.spec_final_tx(m, blockchain),
{
}

/// Once funding is stopped, buy is no longer safe.
pub proof fn lemma_stop_funding_excludes_buy(ts: TemporalSafety, lock_confirmations: u32)
    ensures
        ts.spec_stop_funding_before_cancel(lock_confirmations) ==> !ts.spec_safe_buy(
            lock_confirmations,
        ),
{
}

} // verus!
