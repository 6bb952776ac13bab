//! The market record and the pricing engine it is plugged into.

use vstd::prelude::*;

use crate::player::credit;

verus! {

/// What the market needs from a pricing engine.
///
/// An engine is a function of its state: what it answers to a question,
/// and the state it is in afterwards, depend on the state it was in and on
/// the question, and on nothing else. Each method says just that, by
/// naming its answer and the state that follows; nothing is said of what
/// the answers are.
pub trait PricingEngine: Sized {
    /// The answer of an engine in this state to
    /// [`PricingEngine::ensure_active`].
    spec fn active_answer(&self, time: u64) -> Result<u64, u32>;

    /// The state that follows [`PricingEngine::ensure_active`].
    spec fn after_active(&self, time: u64) -> Self;

    /// The answer of an engine in this state to
    /// [`PricingEngine::place_bet`].
    spec fn bet_answer(&self, bet_type: u64, amount: u64) -> Result<u64, u32>;

    /// The state that follows [`PricingEngine::place_bet`].
    spec fn after_bet(&self, bet_type: u64, amount: u64) -> Self;

    /// The answer of an engine in this state to
    /// [`PricingEngine::sell_shares`].
    spec fn sale_answer(&self, sell_type: u64, shares: u64) -> Result<u64, u32>;

    /// The state that follows [`PricingEngine::sell_shares`].
    spec fn after_sale(&self, sell_type: u64, shares: u64) -> Self;

    /// The answer of an engine in this state to
    /// [`PricingEngine::can_resolve`].
    spec fn resolvable_at(&self, time: u64) -> bool;

    /// The answer of an engine in this state to
    /// [`PricingEngine::resolve`].
    spec fn resolve_answer(&self, outcome: bool) -> Result<(), u32>;

    /// The state that follows [`PricingEngine::resolve`].
    spec fn after_resolve(&self, outcome: bool) -> Self;

    /// The answer of an engine in this state to
    /// [`PricingEngine::calculate_payout`].
    spec fn payout_answer(&self, yes_shares: u64, no_shares: u64) -> Result<u64, u32>;

    /// The current time if trades are accepted at `time`, else the error
    /// code that says why not.
    fn ensure_active(&mut self, time: u64) -> (r: Result<u64, u32>)
        ensures
            r == old(self).active_answer(time),
            *final(self) == old(self).after_active(time),
    ;

    /// Takes a bet of `amount` on side `bet_type` and returns the shares
    /// issued for it.
    fn place_bet(&mut self, bet_type: u64, amount: u64) -> (r: Result<u64, u32>)
        ensures
            r == old(self).bet_answer(bet_type, amount),
            *final(self) == old(self).after_bet(bet_type, amount),
    ;

    /// Takes back `shares` of side `sell_type` and returns what is paid for
    /// them.
    fn sell_shares(&mut self, sell_type: u64, shares: u64) -> (r: Result<u64, u32>)
        ensures
            r == old(self).sale_answer(sell_type, shares),
            *final(self) == old(self).after_sale(sell_type, shares),
    ;

    /// Whether the market may be resolved at `time`.
    fn can_resolve(&self, time: u64) -> (r: bool)
        ensures
            r == self.resolvable_at(time),
    ;

    /// Fixes the outcome.
    fn resolve(&mut self, outcome: bool) -> (r: Result<(), u32>)
        ensures
            r == old(self).resolve_answer(outcome),
            *final(self) == old(self).after_resolve(outcome),
    ;

    /// What a holder of these positions is owed once the outcome is fixed.
    fn calculate_payout(&self, yes_shares: u64, no_shares: u64) -> (r: Result<u64, u32>)
        ensures
            r == self.payout_answer(yes_shares, no_shares),
    ;
}

/// The one market: its clock, its lifecycle, the fees it has collected and
/// the engine that prices its trades.
pub struct MarketState<E> {
    /// Time, as counted by the caller.
    pub counter: u64,
    /// Identifier that the next emitted event carries.
    pub txcounter: u64,
    /// Whether the outcome has been fixed.
    pub resolved: bool,
    /// The outcome; meaningful once `resolved` is set.
    pub outcome: bool,
    /// Fees collected and not yet withdrawn.
    pub total_fees_collected: u64,
    /// Whether a resolution is refused while the engine says that the
    /// market cannot be resolved yet. Off unless switched on.
    pub enforce_resolution_time: bool,
    /// The pricing engine.
    pub engine: E,
}

impl<E: PricingEngine> MarketState<E> {
    /// This market around another engine state.
    pub open spec fn with_engine(self, engine: E) -> Self {
        MarketState { engine, ..self }
    }

    /// This market with its outcome fixed.
    pub open spec fn with_outcome(self, outcome: bool) -> Self {
        MarketState { resolved: true, outcome, ..self }
    }

    /// This market with an empty fee pool.
    pub open spec fn with_fees_drained(self) -> Self {
        MarketState { total_fees_collected: 0, ..self }
    }

    /// An unresolved market at time zero around `engine`, with no fees and
    /// no resolution gate.
    pub open spec fn fresh(engine: E) -> Self {
        MarketState {
            counter: 0,
            txcounter: 0,
            resolved: false,
            outcome: false,
            total_fees_collected: 0,
            enforce_resolution_time: false,
            engine,
        }
    }

    /// A fresh market around `engine`.
    pub fn new(engine: E) -> (market: Self)
        ensures
            market == Self::fresh(engine),
    {
        MarketState {
            counter: 0,
            txcounter: 0,
            resolved: false,
            outcome: false,
            total_fees_collected: 0,
            enforce_resolution_time: false,
            engine,
        }
    }

    /// This market with `fee` added to its pool, capped at `u64::MAX`.
    pub open spec fn with_fee(self, fee: u64) -> Self {
        MarketState { total_fees_collected: credit(self.total_fees_collected, fee), ..self }
    }

    /// Asks the engine whether trades are accepted at the market's current
    /// time, and hands on its answer. Only the engine has changed.
    pub fn ensure_active(&mut self) -> (active: Result<u64, u32>)
        ensures
            active == old(self).engine.active_answer(old(self).counter),
            *final(self) == old(self).with_engine(
                old(self).engine.after_active(old(self).counter),
            ),
    {
        self.engine.ensure_active(self.counter)
    }

    /// Adds the fee of a trade to the pool.
    ///
    /// The answers of the engine carry no fee, so the handlers of bets and
    /// sales leave the pool alone. It is for whoever plugs the engine in
    /// to call this after a trade, with the fee that the engine charged.
    pub fn collect_fee(&mut self, fee: u64)
        ensures
            *final(self) == old(self).with_fee(fee),
    {
        self.total_fees_collected = self.total_fees_collected.saturating_add(fee);
    }
}

} // verus!
