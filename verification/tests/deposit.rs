use prediction_market::command::Command;
use prediction_market::command::CommandHandler;
use prediction_market::command::Context;
use prediction_market::command::Deposit;
use prediction_market::command::Withdraw;
use prediction_market::error::ERROR_PLAYER_NOT_EXIST;
use prediction_market::player::Player;
use prediction_market::state::PricingEngine;

struct Idle;

impl PricingEngine for Idle {
    // The names of the answers exist for proofs only and are never run.
    fn active_answer(&self, _time: u64) -> Result<u64, u32> {
        unreachable!()
    }

    fn after_active(&self, _time: u64) -> Self {
        unreachable!()
    }

    fn bet_answer(&self, _bet_type: u64, _amount: u64) -> Result<u64, u32> {
        unreachable!()
    }

    fn after_bet(&self, _bet_type: u64, _amount: u64) -> Self {
        unreachable!()
    }

    fn sale_answer(&self, _sell_type: u64, _shares: u64) -> Result<u64, u32> {
        unreachable!()
    }

    fn after_sale(&self, _sell_type: u64, _shares: u64) -> Self {
        unreachable!()
    }

    fn resolvable_at(&self, _time: u64) -> bool {
        unreachable!()
    }

    fn resolve_answer(&self, _outcome: bool) -> Result<(), u32> {
        unreachable!()
    }

    fn after_resolve(&self, _outcome: bool) -> Self {
        unreachable!()
    }

    fn payout_answer(&self, _yes_shares: u64, _no_shares: u64) -> Result<u64, u32> {
        unreachable!()
    }

    fn ensure_active(&mut self, time: u64) -> Result<u64, u32> {
        Ok(time)
    }

    fn place_bet(&mut self, _bet_type: u64, amount: u64) -> Result<u64, u32> {
        Ok(amount)
    }

    fn sell_shares(&mut self, _sell_type: u64, shares: u64) -> Result<u64, u32> {
        Ok(shares)
    }

    fn can_resolve(&self, _time: u64) -> bool {
        true
    }

    fn resolve(&mut self, _outcome: bool) -> Result<(), u32> {
        Ok(())
    }

    fn calculate_payout(&self, yes_shares: u64, _no_shares: u64) -> Result<u64, u32> {
        Ok(yes_shares)
    }
}

const ADMIN: [u64; 2] = [1, 1];
const USER: [u64; 2] = [2, 3];
const RAND: [u64; 4] = [9, 9, 9, 9];

fn two_players() -> Context<Idle> {
    let mut ctx = Context::new(Idle);
    ctx.players.store(&Player::new(ADMIN));
    let mut user = Player::new(USER);
    user.data.balance = 10;
    user.nonce = 4;
    ctx.players.store(&user);
    ctx
}

#[test]
fn deposit_credits_target_and_advances_caller() {
    let mut ctx = two_players();
    let d = Deposit { data: [2, 3, 500] };
    assert!(d.admits(&ctx, &ADMIN, 0));
    assert_eq!(d.handle(&mut ctx, &ADMIN, 0, &RAND, 0), Ok(()));
    let user = ctx.players.get_from_pid(&USER).unwrap();
    assert_eq!(user.data.balance, 510);
    assert_eq!(user.nonce, 4);
    let admin = ctx.players.get_from_pid(&ADMIN).unwrap();
    assert_eq!(admin.nonce, 1);
    assert_eq!(admin.data.balance, 0);
    assert_eq!(ctx.settlement.settlement_size(), 0);
    assert_eq!(ctx.events.events.len(), 0);
    assert!(!d.admits(&ctx, &ADMIN, 0));
}

#[test]
fn deposit_to_unknown_target_fails_and_keeps_nonce() {
    let mut ctx = two_players();
    let d = Deposit { data: [8, 8, 500] };
    assert_eq!(d.handle(&mut ctx, &ADMIN, 0, &RAND, 0), Err(ERROR_PLAYER_NOT_EXIST));
    assert_eq!(ctx.players.get_from_pid(&ADMIN).unwrap().nonce, 0);
    assert!(ctx.players.get_from_pid(&[8, 8]).is_none());
}

#[test]
fn deposit_needs_the_right_nonce_of_a_caller_with_an_account() {
    let ctx = two_players();
    let d = Deposit { data: [2, 3, 500] };
    assert!(d.admits(&ctx, &[5, 5], 0));
    assert!(!d.admits(&ctx, &ADMIN, 1));
    assert!(d.admits(&ctx, &USER, 4));
}

#[test]
fn deposit_by_unknown_caller_fails_and_changes_nothing() {
    let mut ctx = two_players();
    let d = Deposit { data: [2, 3, 500] };
    assert_eq!(d.handle(&mut ctx, &[5, 5], 0, &RAND, 0), Err(ERROR_PLAYER_NOT_EXIST));
    assert_eq!(ctx.players.get_from_pid(&USER).unwrap().data.balance, 10);
    assert!(ctx.players.get_from_pid(&[5, 5]).is_none());
}

#[test]
fn deposit_to_oneself_only_advances_the_nonce() {
    let mut ctx = two_players();
    let d = Deposit { data: [2, 3, 500] };
    assert_eq!(d.handle(&mut ctx, &USER, 4, &RAND, 0), Ok(()));
    let user = ctx.players.get_from_pid(&USER).unwrap();
    assert_eq!(user.nonce, 5);
    assert_eq!(user.data.balance, 10);
}

#[test]
fn deposit_stops_at_the_top() {
    let mut ctx = two_players();
    let d = Deposit { data: [2, 3, u64::MAX] };
    assert_eq!(d.handle(&mut ctx, &ADMIN, 0, &RAND, 0), Ok(()));
    assert_eq!(ctx.players.get_from_pid(&USER).unwrap().data.balance, u64::MAX);
}

#[test]
fn withdraw_reads_the_low_half_of_the_third_word() {
    let mut ctx = two_players();
    let w = Withdraw { data: [u64::MAX, 7, (0xdead_beefu64 << 32) | 4] };
    assert!(w.admits(&ctx, &USER, 4));
    assert_eq!(w.handle(&mut ctx, &USER, 4, &RAND, 0), Ok(()));
    let user = ctx.players.get_from_pid(&USER).unwrap();
    assert_eq!(user.data.balance, 6);
    assert_eq!(user.nonce, 5);
    let bytes = ctx.settlement.flush_settlement();
    let mut expected = Vec::new();
    expected.extend_from_slice(&u64::MAX.to_le_bytes());
    expected.extend_from_slice(&7u64.to_le_bytes());
    expected.extend_from_slice(&((0xdead_beefu64 << 32) | 4).to_le_bytes());
    assert_eq!(bytes, expected);
}

#[test]
fn withdraw_beyond_balance_is_not_admitted() {
    let ctx = two_players();
    assert!(!Withdraw { data: [0, 0, 11] }.admits(&ctx, &USER, 4));
    assert!(Withdraw { data: [0, 0, 10] }.admits(&ctx, &USER, 4));
    assert!(!Withdraw { data: [0, 0, 10] }.admits(&ctx, &USER, 3));
    assert!(Withdraw { data: [0, 0, (1u64 << 32) | 10] }.admits(&ctx, &USER, 4));
}

#[test]
fn commands_are_plain_values() {
    let c = Command::Withdraw(Withdraw { data: [1, 2, 3] });
    assert_eq!(c, c.clone());
    assert_ne!(c, Command::Deposit(Deposit { data: [1, 2, 3] }));
    assert_ne!(Command::InstallPlayer, Command::Tick);
}
