use prediction_market::command::Activity;
use prediction_market::command::Context;
use prediction_market::error::ERROR_ALREADY_CLAIMED;
use prediction_market::error::ERROR_INSUFFICIENT_BALANCE;
use prediction_market::error::ERROR_MARKET_NOT_ACTIVE;
use prediction_market::error::ERROR_MARKET_NOT_RESOLVED;
use prediction_market::error::ERROR_NO_WINNING_POSITION;
use prediction_market::event::EVENT_BET_UPDATE;
use prediction_market::player::Player;
use prediction_market::player::PlayerData;
use prediction_market::state::MarketState;
use prediction_market::state::PricingEngine;

/// An engine that must not be asked: every answer in these tests is given
/// by hand.
struct Silent;

impl PricingEngine for Silent {
    // The names of the answers exist for proofs only and are never run.
    fn active_answer(&self, _time: u64) -> Result<u64, u32> {
        unreachable!()
    }

    fn after_active(&self, _time: u64) -> Self {
        unreachable!()
    }

    fn bet_answer(&self, _bet_type: u64, _amount: u64) -> Result<u64, u32> {
        unreachable!()
    }

    fn after_bet(&self, _bet_type: u64, _amount: u64) -> Self {
        unreachable!()
    }

    fn sale_answer(&self, _sell_type: u64, _shares: u64) -> Result<u64, u32> {
        unreachable!()
    }

    fn after_sale(&self, _sell_type: u64, _shares: u64) -> Self {
        unreachable!()
    }

    fn resolvable_at(&self, _time: u64) -> bool {
        unreachable!()
    }

    fn resolve_answer(&self, _outcome: bool) -> Result<(), u32> {
        unreachable!()
    }

    fn after_resolve(&self, _outcome: bool) -> Self {
        unreachable!()
    }

    fn payout_answer(&self, _yes_shares: u64, _no_shares: u64) -> Result<u64, u32> {
        unreachable!()
    }

    fn ensure_active(&mut self, _time: u64) -> Result<u64, u32> {
        panic!("not to be asked")
    }

    fn place_bet(&mut self, _bet_type: u64, _amount: u64) -> Result<u64, u32> {
        panic!("not to be asked")
    }

    fn sell_shares(&mut self, _sell_type: u64, _shares: u64) -> Result<u64, u32> {
        panic!("not to be asked")
    }

    fn can_resolve(&self, _time: u64) -> bool {
        panic!("not to be asked")
    }

    fn resolve(&mut self, _outcome: bool) -> Result<(), u32> {
        panic!("not to be asked")
    }

    fn calculate_payout(&self, _yes_shares: u64, _no_shares: u64) -> Result<u64, u32> {
        panic!("not to be asked")
    }
}

const PID: [u64; 2] = [3, 4];

fn player(balance: u64, yes_shares: u64, no_shares: u64) -> Player {
    Player {
        player_id: PID,
        nonce: 6,
        data: PlayerData { balance, yes_shares, no_shares, claimed: false },
    }
}

#[test]
fn stake_is_taken_when_market_trades_and_balance_covers() {
    let mut p = player(10, 3, 1);
    assert_eq!(Activity::stake_bet(&mut p, 4, Ok(99)), Ok(99));
    assert_eq!(p, player(6, 3, 1));
    assert_eq!(Activity::stake_bet(&mut p, 6, Ok(5)), Ok(5));
    assert_eq!(p.data.balance, 0);
}

#[test]
fn stake_is_refused_with_the_answer_of_the_market() {
    let mut p = player(10, 3, 1);
    assert_eq!(Activity::stake_bet(&mut p, 4, Err(ERROR_MARKET_NOT_ACTIVE)), Err(ERROR_MARKET_NOT_ACTIVE));
    assert_eq!(Activity::stake_bet(&mut p, 40, Err(11)), Err(11));
    assert_eq!(p, player(10, 3, 1));
}

#[test]
fn stake_beyond_balance_is_refused() {
    let mut p = player(3, 3, 1);
    assert_eq!(Activity::stake_bet(&mut p, 4, Ok(99)), Err(ERROR_INSUFFICIENT_BALANCE));
    assert_eq!(p, player(3, 3, 1));
}

#[test]
fn bet_is_settled_with_the_shares_issued() {
    let mut ctx = Context::new(Silent);
    let mut p = player(10, 3, 1);
    assert_eq!(Activity::stake_bet(&mut p, 4, Ok(99)), Ok(99));
    assert_eq!(Activity::settle_bet(&mut ctx, &mut p, 2, 4, 17, 99, Ok(7)), Ok(()));
    assert_eq!(p, player(6, 3, 8));
    assert_eq!(ctx.players.get_from_pid(&PID), Some(p));
    assert_eq!(ctx.events.events.len(), 1);
    assert_eq!(ctx.events.events[0].kind, EVENT_BET_UPDATE);
    assert_eq!(ctx.events.events[0].data, vec![17, 3, 4, 2, 4, 7, 99]);
    assert_eq!(Activity::settle_bet(&mut ctx, &mut p, 1, 0, 18, 100, Ok(2)), Ok(()));
    assert_eq!(p, player(6, 5, 8));
}

#[test]
fn bet_refused_by_the_engine_is_not_settled() {
    let mut ctx = Context::new(Silent);
    let mut p = player(6, 3, 1);
    assert_eq!(Activity::settle_bet(&mut ctx, &mut p, 2, 4, 17, 99, Err(12)), Err(12));
    assert_eq!(p, player(6, 3, 1));
    assert!(ctx.players.get_from_pid(&PID).is_none());
    assert_eq!(ctx.events.events.len(), 0);
}

#[test]
fn sale_is_checked_against_the_side_sold() {
    let p = player(10, 2, 5);
    assert_eq!(Activity::check_sale(&p, 1, 3, Ok(8)), Err(ERROR_INSUFFICIENT_BALANCE));
    assert_eq!(Activity::check_sale(&p, 1, 2, Ok(8)), Ok(8));
    assert_eq!(Activity::check_sale(&p, 2, 5, Ok(8)), Ok(8));
    assert_eq!(Activity::check_sale(&p, 9, 6, Ok(8)), Err(ERROR_INSUFFICIENT_BALANCE));
    assert_eq!(Activity::check_sale(&p, 1, 3, Err(ERROR_MARKET_NOT_ACTIVE)), Err(ERROR_MARKET_NOT_ACTIVE));
}

#[test]
fn sale_is_settled_with_the_payout_granted() {
    let mut ctx = Context::new(Silent);
    let mut p = player(10, 5, 2);
    assert_eq!(Activity::settle_sale(&mut ctx, &mut p, 1, 3, 17, 99, Ok(9)), Ok(()));
    assert_eq!(p, player(19, 2, 2));
    assert_eq!(ctx.players.get_from_pid(&PID), Some(p));
    assert_eq!(ctx.events.events[0].data, vec![17, 3, 4, 11, 3, 9, 99]);
    assert_eq!(Activity::settle_sale(&mut ctx, &mut p, 2, 2, 18, 100, Ok(0)), Ok(()));
    assert_eq!(p, player(19, 2, 0));
}

#[test]
fn sale_refused_or_short_is_not_settled() {
    let mut ctx = Context::new(Silent);
    let mut p = player(10, 5, 2);
    assert_eq!(Activity::settle_sale(&mut ctx, &mut p, 1, 3, 17, 99, Err(12)), Err(12));
    assert_eq!(
        Activity::settle_sale(&mut ctx, &mut p, 2, 3, 17, 99, Ok(9)),
        Err(ERROR_INSUFFICIENT_BALANCE)
    );
    assert_eq!(
        Activity::settle_sale(&mut ctx, &mut p, 2, 3, 17, 99, Err(12)),
        Err(ERROR_INSUFFICIENT_BALANCE)
    );
    assert_eq!(p, player(10, 5, 2));
    assert!(ctx.players.get_from_pid(&PID).is_none());
    assert_eq!(ctx.events.events.len(), 0);
}

#[test]
fn bet_then_sale_leaves_balance_less_stake_plus_payout() {
    let mut ctx = Context::new(Silent);
    let mut p = player(100, 0, 0);
    assert_eq!(Activity::stake_bet(&mut p, 30, Ok(1)), Ok(1));
    assert_eq!(Activity::settle_bet(&mut ctx, &mut p, 1, 30, 0, 1, Ok(12)), Ok(()));
    assert_eq!(Activity::settle_sale(&mut ctx, &mut p, 1, 12, 0, 1, Ok(45)), Ok(()));
    assert_eq!(p, player(115, 0, 0));
}

#[test]
fn resolution_gate_heeds_the_answer_only_when_set() {
    let mut market = MarketState::new(Silent);
    assert_eq!(Activity::gate_resolution(&market, false), Ok(()));
    assert_eq!(Activity::gate_resolution(&market, true), Ok(()));
    market.enforce_resolution_time = true;
    assert_eq!(Activity::gate_resolution(&market, false), Err(ERROR_MARKET_NOT_RESOLVED));
    assert_eq!(Activity::gate_resolution(&market, true), Ok(()));
}

#[test]
fn resolution_is_settled_with_the_verdict() {
    let mut ctx = Context::new(Silent);
    assert_eq!(Activity::settle_resolution(&mut ctx, 2, Err(10)), Err(10));
    assert!(!ctx.market.resolved);
    assert_eq!(Activity::settle_resolution(&mut ctx, 2, Ok(())), Ok(()));
    assert!(ctx.market.resolved);
    assert!(ctx.market.outcome);
    assert_eq!(Activity::settle_resolution(&mut ctx, 0, Ok(())), Ok(()));
    assert!(ctx.market.resolved);
    assert!(!ctx.market.outcome);
}

#[test]
fn claim_is_opened_once_on_a_resolved_market() {
    let mut p = player(10, 5, 0);
    assert_eq!(Activity::begin_claim(&mut p, false), Err(ERROR_MARKET_NOT_RESOLVED));
    assert!(!p.data.claimed);
    assert_eq!(Activity::begin_claim(&mut p, true), Ok(()));
    assert!(p.data.claimed);
    assert_eq!(Activity::begin_claim(&mut p, true), Err(ERROR_ALREADY_CLAIMED));
    assert_eq!(Activity::begin_claim(&mut p, false), Err(ERROR_MARKET_NOT_RESOLVED));
    assert_eq!(p.data.balance, 10);
}

#[test]
fn claim_is_settled_with_the_payout_owed() {
    let mut ctx = Context::new(Silent);
    let mut p = player(10, 5, 0);
    assert_eq!(Activity::begin_claim(&mut p, true), Ok(()));
    assert_eq!(Activity::settle_claim(&mut ctx, &mut p, Ok(50)), Ok(()));
    assert_eq!(p.data.balance, 60);
    assert_eq!(p.data.yes_shares, 5);
    let filed = ctx.players.get_from_pid(&PID).unwrap();
    assert!(filed.data.claimed);
    assert_eq!(filed.data.balance, 60);
    assert_eq!(ctx.events.events.len(), 0);
}

#[test]
fn claim_of_nothing_or_refused_is_not_settled() {
    let mut ctx = Context::new(Silent);
    let mut p = player(10, 5, 0);
    assert_eq!(Activity::settle_claim(&mut ctx, &mut p, Ok(0)), Err(ERROR_NO_WINNING_POSITION));
    assert_eq!(Activity::settle_claim(&mut ctx, &mut p, Err(12)), Err(12));
    assert_eq!(p, player(10, 5, 0));
    assert!(ctx.players.get_from_pid(&PID).is_none());
}

#[test]
fn fees_of_trades_reach_the_pool() {
    let mut market = MarketState::new(Silent);
    market.collect_fee(3);
    market.collect_fee(4);
    assert_eq!(market.total_fees_collected, 7);
    market.collect_fee(u64::MAX);
    assert_eq!(market.total_fees_collected, u64::MAX);
    assert!(!market.resolved);
    assert_eq!(market.counter, 0);
}

#[test]
fn collected_fees_can_be_withdrawn() {
    let mut ctx = Context::new(Silent);
    let mut p = player(10, 0, 0);
    ctx.market.collect_fee(25);
    assert_eq!(Activity::handle_withdraw_fees(&mut ctx, &mut p, 0), Ok(()));
    assert_eq!(p.data.balance, 35);
    assert_eq!(ctx.market.total_fees_collected, 0);
}
