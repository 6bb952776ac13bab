//! Commands and the handlers that apply them.

use vstd::prelude::*;

use crate::error::ERROR_ALREADY_CLAIMED;
use crate::error::ERROR_INSUFFICIENT_BALANCE;
use crate::error::ERROR_INVALID_BET_AMOUNT;
use crate::error::ERROR_MARKET_NOT_RESOLVED;
use crate::error::ERROR_NO_WINNING_POSITION;
use crate::error::ERROR_PLAYER_NOT_EXIST;
use crate::event::EventLog;
use crate::event::EVENT_BET_UPDATE;
use crate::player::credit;
use crate::player::pid_key;
use crate::player::Player;
use crate::player::PlayerData;
use crate::player::PlayerLedger;
use crate::settlement::SettlementEntry;
use crate::settlement::SettlementInfo;
use crate::state::MarketState;
use crate::state::PricingEngine;

verus! {

/// Everything a command may read or change.
pub struct Context<E> {
    pub players: PlayerLedger,
    pub market: MarketState<E>,
    pub settlement: SettlementInfo,
    pub events: EventLog,
}

impl<E: PricingEngine> Context<E> {
    /// No accounts, nothing queued, nothing emitted, and a fresh market
    /// around `engine`.
    pub fn new(engine: E) -> (ctx: Self)
        ensures
            ctx.players@ == Map::<(u64, u64), Player>::empty(),
            ctx.settlement@ == Seq::<SettlementEntry>::empty(),
            ctx.events@ == Seq::<(u32, Seq<u64>)>::empty(),
            ctx.market == MarketState::<E>::fresh(engine),
    {
        Context {
            players: PlayerLedger::new(),
            market: MarketState::new(engine),
            settlement: SettlementInfo::new(),
            events: EventLog::new(),
        }
    }

    /// Whether `post` differs from `pre` at most in the state of the
    /// pricing engine.
    pub open spec fn same_but_engine(pre: Self, post: Self) -> bool {
        &&& post.players@ == pre.players@
        &&& post.settlement@ == pre.settlement@
        &&& post.events@ == pre.events@
        &&& post.market == pre.market.with_engine(post.market.engine)
    }
}

/// What a player may ask for.
#[derive(Clone, Copy, Debug, PartialEq, Eq)]
pub enum Command {
    /// A market activity.
    Activity(Activity),
    /// Taking value out of the system.
    Withdraw(Withdraw),
    /// Bringing value into the system.
    Deposit(Deposit),
    /// Opening an account.
    InstallPlayer,
    /// Advancing the clock.
    Tick,
}

/// A command that can be applied on behalf of a player.
pub trait CommandHandler {
    /// Whether the command may be applied for player `pid` under `nonce`.
    /// A command that may not be applied is one that the host must halt
    /// on; `handle` is not to be called with it.
    spec fn admissible(&self, players: Map<(u64, u64), Player>, pid: [u64; 2], nonce: u64) -> bool;

    /// Runtime form of `admissible`.
    fn admits<E: PricingEngine>(&self, ctx: &Context<E>, pid: &[u64; 2], nonce: u64) -> (ok: bool)
        ensures
            ok == self.admissible(ctx.players@, *pid, nonce),
    ;

    /// Applies the command for player `pid`.
    ///
    /// A command of a player without an account fails with
    /// `ERROR_PLAYER_NOT_EXIST`. A command that fails leaves the accounts,
    /// the settlement queue, the event log and the market record as they
    /// were.
    fn handle<E: PricingEngine>(
        &self,
        ctx: &mut Context<E>,
        pid: &[u64; 2],
        nonce: u64,
        rand: &[u64; 4],
        counter: u64,
    ) -> (r: Result<(), u32>)
        requires
            self.admissible(old(ctx).players@, *pid, nonce),
        ensures
            !old(ctx).players@.dom().contains(pid_key(*pid)) ==> r == Err::<(), u32>(
                ERROR_PLAYER_NOT_EXIST,
            ),
            r is Err ==> Context::same_but_engine(*old(ctx), *final(ctx)),
    ;
}

/// Whether the account of `pid` in `after` shows that a command under
/// `nonce` has been applied to it.
pub open spec fn nonce_consumed(after: Map<(u64, u64), Player>, pid: [u64; 2], nonce: u64) -> bool {
    after.dom().contains(pid_key(pid)) && after[pid_key(pid)].nonce == nonce + 1
}

/// A withdrawal: the first two words name the receiver, the low 32 bits of
/// the third are the amount.
#[derive(Clone, Copy, Debug, PartialEq, Eq)]
pub struct Withdraw {
    pub data: [u64; 3],
}

impl Withdraw {
    /// The amount withdrawn.
    pub open spec fn amount(self) -> u64 {
        self.data[2] & 0xffffffff
    }

    /// The account of a player after this withdrawal.
    pub open spec fn withdrawn(self, player: Player) -> Player
        recommends
            player.data.balance >= self.amount(),
            player.nonce < u64::MAX,
    {
        player.nonce_advanced().with_data(player.data.debited(self.amount()))
    }
}

impl CommandHandler for Withdraw {
    /// A withdrawal is admissible for a player without an account (it then
    /// fails), and for one whose next nonce it carries and whose balance
    /// covers the amount.
    open spec fn admissible(
        &self,
        players: Map<(u64, u64), Player>,
        pid: [u64; 2],
        nonce: u64,
    ) -> bool {
        players.dom().contains(pid_key(pid)) ==> players[pid_key(pid)].accepts_nonce(nonce)
            && players[pid_key(pid)].data.balance >= self.amount()
    }

    fn admits<E: PricingEngine>(&self, ctx: &Context<E>, pid: &[u64; 2], nonce: u64) -> (ok:
        bool) {
        match ctx.players.get_from_pid(pid) {
            None => true,
            Some(player) => player.nonce_matches(nonce) && player.data.balance >= (self.data[2]
                & 0xffffffff),
        }
    }

    /// Takes the amount from the player's balance and queues the transfer:
    /// the three words of the command, as they are.
    fn handle<E: PricingEngine>(
        &self,
        ctx: &mut Context<E>,
        pid: &[u64; 2],
        nonce: u64,
        rand: &[u64; 4],
        counter: u64,
    ) -> (r: Result<(), u32>)
        ensures
            !old(ctx).players@.dom().contains(pid_key(*pid)) ==> *final(ctx) == *old(ctx),
            old(ctx).players@.dom().contains(pid_key(*pid)) ==> {
                &&& r == Ok::<(), u32>(())
                &&& final(ctx).players@ == old(ctx).players@.insert(
                    pid_key(*pid),
                    self.withdrawn(old(ctx).players@[pid_key(*pid)]),
                )
                &&& final(ctx).settlement@ == old(ctx).settlement@.push(
                    SettlementEntry { words: self.data },
                )
                &&& final(ctx).events == old(ctx).events
                &&& final(ctx).market == old(ctx).market
                &&& nonce_consumed(final(ctx).players@, *pid, nonce)
            },
    {
        let found = ctx.players.get_from_pid(pid);
        match found {
            None => Err(ERROR_PLAYER_NOT_EXIST),
            Some(mut player) => {
                proof {
                    ctx.players.lemma_filed_under_own_id(pid_key(*pid));
                }
                player.check_and_inc_nonce(nonce);
                let amount = self.data[2] & 0xffffffff;
                player.data.balance = player.data.balance - amount;
                let info = SettlementEntry::new(&[self.data[0], self.data[1], self.data[2]]);
                assert(info.words =~= self.data);
                ctx.settlement.append_settlement(info);
                ctx.players.store(&player);
                Ok(())
            },
        }
    }
}

/// A deposit: the first two words name the account credited, the third is
/// the amount.
#[derive(Clone, Copy, Debug, PartialEq, Eq)]
pub struct Deposit {
    pub data: [u64; 3],
}

impl Deposit {
    /// The identity of the account that is credited.
    pub open spec fn target(self) -> (u64, u64) {
        (self.data[0], self.data[1])
    }
}

impl CommandHandler for Deposit {
    /// A deposit is admissible for a caller without an account (it then
    /// fails), and for one whose next nonce it carries.
    open spec fn admissible(
        &self,
        players: Map<(u64, u64), Player>,
        pid: [u64; 2],
        nonce: u64,
    ) -> bool {
        players.dom().contains(pid_key(pid)) ==> players[pid_key(pid)].accepts_nonce(nonce)
    }

    fn admits<E: PricingEngine>(&self, ctx: &Context<E>, pid: &[u64; 2], nonce: u64) -> (ok:
        bool) {
        match ctx.players.get_from_pid(pid) {
            None => true,
            Some(player) => player.nonce_matches(nonce),
        }
    }

    /// Credits the target account and advances the caller's nonce.
    ///
    /// Without an account of the caller, and without a target account, the
    /// deposit fails with `ERROR_PLAYER_NOT_EXIST` and nothing changes, the
    /// caller's nonce included. The target is filed first and the caller
    /// after it: a caller who names their own account as the target ends
    /// with the nonce advanced and the balance as it was.
    fn handle<E: PricingEngine>(
        &self,
        ctx: &mut Context<E>,
        pid: &[u64; 2],
        nonce: u64,
        rand: &[u64; 4],
        counter: u64,
    ) -> (r: Result<(), u32>)
        ensures
            !old(ctx).players@.dom().contains(pid_key(*pid)) || !old(ctx).players@.dom().contains(
                self.target(),
            ) ==> r == Err::<(), u32>(ERROR_PLAYER_NOT_EXIST) && *final(ctx) == *old(ctx),
            old(ctx).players@.dom().contains(pid_key(*pid)) && old(ctx).players@.dom().contains(
                self.target(),
            ) ==> {
                let target = old(ctx).players@[self.target()];
                let caller = old(ctx).players@[pid_key(*pid)];
                &&& r == Ok::<(), u32>(())
                &&& final(ctx).players@ == old(ctx).players@.insert(
                    self.target(),
                    target.with_data(target.data.credited(self.data[2])),
                ).insert(pid_key(*pid), caller.nonce_advanced())
                &&& final(ctx).settlement == old(ctx).settlement
                &&& final(ctx).events == old(ctx).events
                &&& final(ctx).market == old(ctx).market
                &&& nonce_consumed(final(ctx).players@, *pid, nonce)
            },
    {
        let found = ctx.players.get_from_pid(pid);
        let mut admin = match found {
            None => {
                return Err(ERROR_PLAYER_NOT_EXIST);
            },
            Some(admin) => admin,
        };
        proof {
            ctx.players.lemma_filed_under_own_id(pid_key(*pid));
        }
        admin.check_and_inc_nonce(nonce);
        let target = ctx.players.get_from_pid(&[self.data[0], self.data[1]]);
        match target {
            None => Err(ERROR_PLAYER_NOT_EXIST),
            Some(mut player) => {
                proof {
                    ctx.players.lemma_filed_under_own_id(self.target());
                }
                player.data.add_balance(self.data[2]);
                ctx.players.store(&player);
                ctx.players.store(&admin);
                Ok(())
            },
        }
    }
}

/// A market activity.
#[derive(Clone, Copy, Debug, PartialEq, Eq)]
pub enum Activity {
    /// A bet: the side (1 is YES, anything else NO) and the amount staked.
    Bet(u64, u64),
    /// A sale: the side and the number of shares given back.
    Sell(u64, u64),
    /// Fixing the outcome: nonzero for YES.
    Resolve(u64),
    /// Collecting what a resolved market owes.
    Claim,
    /// Taking the collected fees.
    WithdrawFees,
}

/// What one activity comes to, as a function of the player's account and
/// of the pricing engine's answers.
pub struct Step {
    /// What the handler returns.
    pub result: Result<(), u32>,
    /// The player's record as the handler leaves it in memory. It is filed
    /// in the ledger if and only if the result is `Ok`.
    pub player: Player,
    /// The event emitted, if any.
    pub event: Option<(u32, Seq<u64>)>,
}

/// The record of a bet: transaction, player, side, stake, shares issued and
/// time.
pub open spec fn bet_event(
    player_id: [u64; 2],
    bet_type: u64,
    amount: u64,
    shares: u64,
    txid: u64,
    counter: u64,
) -> (u32, Seq<u64>) {
    (EVENT_BET_UPDATE, seq![txid, player_id[0], player_id[1], bet_type, amount, shares, counter])
}

/// The side of a sale as events carry it: the side plus ten (11 for YES,
/// 12 for NO where NO is written as 2), reduced modulo 2^64.
pub open spec fn sell_tag(sell_type: u64) -> u64 {
    if sell_type > u64::MAX - 10 {
        (sell_type - (u64::MAX - 9)) as u64
    } else {
        (sell_type + 10) as u64
    }
}

/// The record of a sale: transaction, player, tagged side, shares sold,
/// payout and time.
pub open spec fn sell_event(
    player_id: [u64; 2],
    sell_type: u64,
    shares: u64,
    payout: u64,
    txid: u64,
    counter: u64,
) -> (u32, Seq<u64>) {
    (
        EVENT_BET_UPDATE,
        seq![txid, player_id[0], player_id[1], sell_tag(sell_type), shares, payout, counter],
    )
}

impl Activity {
    /// A bet of `amount` on `bet_type`, where the engine answers `active`
    /// to the question whether the market trades and `placed` to the bet.
    ///
    /// A zero stake, a market that does not trade and a balance below the
    /// stake fail in this order and leave the account alone. The stake is
    /// taken before the engine sees the bet, so the engine's refusal leaves
    /// the in-memory record debited. On success the shares go to YES for
    /// side 1 and to NO for any other.
    pub open spec fn bet_step(
        player: Player,
        bet_type: u64,
        amount: u64,
        txid: u64,
        active: Result<u64, u32>,
        placed: Result<u64, u32>,
    ) -> Step {
        let staked = player.with_data(player.data.debited(amount));
        if amount == 0 {
            Step { result: Err(ERROR_INVALID_BET_AMOUNT), player, event: None }
        } else if active is Err {
            Step { result: Err(active->Err_0), player, event: None }
        } else if player.data.balance < amount {
            Step { result: Err(ERROR_INSUFFICIENT_BALANCE), player, event: None }
        } else if placed is Err {
            Step { result: Err(placed->Err_0), player: staked, event: None }
        } else {
            let shares = placed->Ok_0;
            Step {
                result: Ok(()),
                player: staked.with_data(
                    if bet_type == 1 {
                        staked.data.with_yes_added(shares)
                    } else {
                        staked.data.with_no_added(shares)
                    },
                ),
                event: Some(
                    bet_event(player.player_id, bet_type, amount, shares, txid, active->Ok_0),
                ),
            }
        }
    }

    /// The shares that a sale of side `sell_type` draws on.
    pub open spec fn held(player: Player, sell_type: u64) -> u64 {
        if sell_type == 1 {
            player.data.yes_shares
        } else {
            player.data.no_shares
        }
    }

    /// The account after `shares` of side `sell_type` were sold for
    /// `payout`.
    pub open spec fn sold(player: Player, sell_type: u64, shares: u64, payout: u64) -> Player
        recommends
            Self::held(player, sell_type) >= shares,
    {
        let balance = credit(player.data.balance, payout);
        if sell_type == 1 {
            player.with_data(
                PlayerData {
                    yes_shares: (player.data.yes_shares - shares) as u64,
                    balance,
                    ..player.data
                },
            )
        } else {
            player.with_data(
                PlayerData {
                    no_shares: (player.data.no_shares - shares) as u64,
                    balance,
                    ..player.data
                },
            )
        }
    }

    /// A sale of `shares` of side `sell_type`, where the engine answers
    /// `active` to the question whether the market trades and `sale` to
    /// the sale.
    ///
    /// Zero shares, a market that does not trade and a position smaller
    /// than the sale fail in this order; so does the engine's refusal. No
    /// failure touches the account.
    pub open spec fn sell_step(
        player: Player,
        sell_type: u64,
        shares: u64,
        txid: u64,
        active: Result<u64, u32>,
        sale: Result<u64, u32>,
    ) -> Step {
        if shares == 0 {
            Step { result: Err(ERROR_INVALID_BET_AMOUNT), player, event: None }
        } else if active is Err {
            Step { result: Err(active->Err_0), player, event: None }
        } else if Self::held(player, sell_type) < shares {
            Step { result: Err(ERROR_INSUFFICIENT_BALANCE), player, event: None }
        } else if sale is Err {
            Step { result: Err(sale->Err_0), player, event: None }
        } else {
            let payout = sale->Ok_0;
            Step {
                result: Ok(()),
                player: Self::sold(player, sell_type, shares, payout),
                event: Some(
                    sell_event(player.player_id, sell_type, shares, payout, txid, active->Ok_0),
                ),
            }
        }
    }

    /// What a resolution returns where the engine answers `allowed` to the
    /// question whether the market can be resolved now and `verdict` to the
    /// resolution itself. `gate` says whether `allowed` is heeded.
    pub open spec fn resolve_result(gate: bool, allowed: bool, verdict: Result<(), u32>) -> Result<
        (),
        u32,
    > {
        if !allowed && gate {
            Err(ERROR_MARKET_NOT_RESOLVED)
        } else if verdict is Err {
            Err(verdict->Err_0)
        } else {
            Ok(())
        }
    }

    /// A claim on a market that is `resolved` or not, where the engine
    /// answers `payout` to the question what the player's positions are
    /// owed.
    ///
    /// An unresolved market and an earlier claim fail in this order and
    /// leave the account alone. After that the claim flag is set in the
    /// in-memory record, whatever follows: the engine's refusal, a payout
    /// of zero (`ERROR_NO_WINNING_POSITION`), or the payout credited.
    pub open spec fn claim_step(player: Player, resolved: bool, payout: Result<u64, u32>) -> Step {
        let claimed = player.with_data(player.data.with_claim());
        if !resolved {
            Step { result: Err(ERROR_MARKET_NOT_RESOLVED), player, event: None }
        } else if player.data.claimed {
            Step { result: Err(ERROR_ALREADY_CLAIMED), player, event: None }
        } else if payout is Err {
            Step { result: Err(payout->Err_0), player: claimed, event: None }
        } else if payout->Ok_0 == 0 {
            Step { result: Err(ERROR_NO_WINNING_POSITION), player: claimed, event: None }
        } else {
            Step {
                result: Ok(()),
                player: claimed.with_data(claimed.data.credited(payout->Ok_0)),
                event: None,
            }
        }
    }

    /// The withdrawal of a fee pool of `fees`: an empty pool fails with
    /// `ERROR_NO_WINNING_POSITION`, any other is credited to the player in
    /// full.
    pub open spec fn withdraw_fees_step(player: Player, fees: u64) -> Step {
        if fees == 0 {
            Step { result: Err(ERROR_NO_WINNING_POSITION), player, event: None }
        } else {
            Step {
                result: Ok(()),
                player: player.with_data(player.data.credited(fees)),
                event: None,
            }
        }
    }

    /// Whether `post` is `pre` after `step`, the market aside: the player's
    /// record is filed if and only if the step succeeded, the step's event
    /// is emitted, and nothing is queued for settlement.
    pub open spec fn committed<E: PricingEngine>(
        pre: Context<E>,
        post: Context<E>,
        step: Step,
    ) -> bool {
        &&& post.players@ == if step.result is Ok {
            pre.players@.insert(step.player.key(), step.player)
        } else {
            pre.players@
        }
        &&& post.events@ == if step.event is Some {
            pre.events@.push(step.event->Some_0)
        } else {
            pre.events@
        }
        &&& post.settlement == pre.settlement
    }

    /// Emits the record of a bet.
    pub fn emit_bet_event(
        events: &mut EventLog,
        player_id: [u64; 2],
        bet_type: u64,
        amount: u64,
        shares: u64,
        txid: u64,
        counter: u64,
    )
        ensures
            final(events)@ == old(events)@.push(
                bet_event(player_id, bet_type, amount, shares, txid, counter),
            ),
    {
        let mut data: Vec<u64> = Vec::new();
        data.push(txid);
        data.push(player_id[0]);
        data.push(player_id[1]);
        data.push(bet_type);
        data.push(amount);
        data.push(shares);
        data.push(counter);
        assert(data@ =~= bet_event(player_id, bet_type, amount, shares, txid, counter).1);
        events.insert_event(EVENT_BET_UPDATE, &mut data);
    }

    /// Emits the record of a sale, on the channel of the bets.
    pub fn emit_sell_event(
        events: &mut EventLog,
        player_id: [u64; 2],
        sell_type: u64,
        shares: u64,
        payout: u64,
        txid: u64,
        counter: u64,
    )
        ensures
            final(events)@ == old(events)@.push(
                sell_event(player_id, sell_type, shares, payout, txid, counter),
            ),
    {
        let mut data: Vec<u64> = Vec::new();
        data.push(txid);
        data.push(player_id[0]);
        data.push(player_id[1]);
        data.push(sell_type.wrapping_add(10));
        data.push(shares);
        data.push(payout);
        data.push(counter);
        assert(data@ =~= sell_event(player_id, sell_type, shares, payout, txid, counter).1);
        events.insert_event(EVENT_BET_UPDATE, &mut data);
    }

    /// What a bet comes to on the market of `pre`: [`Activity::bet_step`]
    /// for the answers that the engine of `pre` gives, first to the
    /// question whether the market trades at the market's time, then, in
    /// the state that follows, to the bet.
    pub open spec fn bet_taken<E: PricingEngine>(
        pre: Context<E>,
        player: Player,
        bet_type: u64,
        amount: u64,
    ) -> Step {
        let time = pre.market.counter;
        Self::bet_step(
            player,
            bet_type,
            amount,
            pre.market.txcounter,
            pre.market.engine.active_answer(time),
            pre.market.engine.after_active(time).bet_answer(bet_type, amount),
        )
    }

    /// The engine of `pre` after a bet: untouched by a zero stake, asked
    /// whether the market trades by any other, and handed the bet if the
    /// market trades and the balance covers the stake.
    pub open spec fn bet_engine<E: PricingEngine>(
        pre: Context<E>,
        player: Player,
        bet_type: u64,
        amount: u64,
    ) -> E {
        let time = pre.market.counter;
        let asked = pre.market.engine.after_active(time);
        if amount == 0 {
            pre.market.engine
        } else if pre.market.engine.active_answer(time) is Err || player.data.balance < amount {
            asked
        } else {
            asked.after_bet(bet_type, amount)
        }
    }

    /// Whether a bet for `player` leads from `pre` to `post` and returns
    /// `r`: result, accounts and log are those of [`Activity::bet_taken`],
    /// the engine is [`Activity::bet_engine`], and the market record
    /// stays.
    pub open spec fn bet_outcome<E: PricingEngine>(
        pre: Context<E>,
        post: Context<E>,
        player: Player,
        bet_type: u64,
        amount: u64,
        r: Result<(), u32>,
    ) -> bool {
        let step = Self::bet_taken(pre, player, bet_type, amount);
        &&& r == step.result
        &&& Self::committed(pre, post, step)
        &&& post.market == pre.market.with_engine(Self::bet_engine(pre, player, bet_type, amount))
    }

    /// What a sale comes to on the market of `pre`:
    /// [`Activity::sell_step`] for the answers that the engine of `pre`
    /// gives, first to the question whether the market trades at the
    /// market's time, then, in the state that follows, to the sale.
    pub open spec fn sale_taken<E: PricingEngine>(
        pre: Context<E>,
        player: Player,
        sell_type: u64,
        shares: u64,
    ) -> Step {
        let time = pre.market.counter;
        Self::sell_step(
            player,
            sell_type,
            shares,
            pre.market.txcounter,
            pre.market.engine.active_answer(time),
            pre.market.engine.after_active(time).sale_answer(sell_type, shares),
        )
    }

    /// The engine of `pre` after a sale: untouched by a sale of nothing,
    /// asked whether the market trades by any other, and handed the sale if
    /// the market trades and the position covers it.
    pub open spec fn sale_engine<E: PricingEngine>(
        pre: Context<E>,
        player: Player,
        sell_type: u64,
        shares: u64,
    ) -> E {
        let time = pre.market.counter;
        let asked = pre.market.engine.after_active(time);
        if shares == 0 {
            pre.market.engine
        } else if pre.market.engine.active_answer(time) is Err || Self::held(player, sell_type)
            < shares {
            asked
        } else {
            asked.after_sale(sell_type, shares)
        }
    }

    /// Whether a sale for `player` leads from `pre` to `post` and returns
    /// `r`: result, accounts and log are those of
    /// [`Activity::sale_taken`], the engine is [`Activity::sale_engine`],
    /// and the market record stays.
    pub open spec fn sell_outcome<E: PricingEngine>(
        pre: Context<E>,
        post: Context<E>,
        player: Player,
        sell_type: u64,
        shares: u64,
        r: Result<(), u32>,
    ) -> bool {
        let step = Self::sale_taken(pre, player, sell_type, shares);
        &&& r == step.result
        &&& Self::committed(pre, post, step)
        &&& post.market == pre.market.with_engine(
            Self::sale_engine(pre, player, sell_type, shares),
        )
    }

    /// What a claim comes to on the market of `pre`:
    /// [`Activity::claim_step`] for the answer that the engine of `pre`
    /// gives to the player's YES and NO shares.
    pub open spec fn claim_taken<E: PricingEngine>(pre: Context<E>, player: Player) -> Step {
        Self::claim_step(
            player,
            pre.market.resolved,
            pre.market.engine.payout_answer(player.data.yes_shares, player.data.no_shares),
        )
    }

    /// Whether a claim for `player` leads from `pre` to `post` and returns
    /// `r`: result and accounts are those of [`Activity::claim_taken`];
    /// the market, its engine included, stays as it is.
    pub open spec fn claim_outcome<E: PricingEngine>(
        pre: Context<E>,
        post: Context<E>,
        player: Player,
        r: Result<(), u32>,
    ) -> bool {
        let step = Self::claim_taken(pre, player);
        &&& r == step.result
        &&& Self::committed(pre, post, step)
        &&& post.market == pre.market
    }

    /// Whether a withdrawal of the fees by `player` leads from `pre` to
    /// `post` and returns `r`: on success the pool is empty afterwards.
    pub open spec fn withdraw_fees_outcome<E: PricingEngine>(
        pre: Context<E>,
        post: Context<E>,
        player: Player,
        r: Result<(), u32>,
    ) -> bool {
        let step = Self::withdraw_fees_step(player, pre.market.total_fees_collected);
        &&& r == step.result
        &&& Self::committed(pre, post, step)
        &&& post.market == if r is Ok {
            pre.market.with_fees_drained()
        } else {
            pre.market
        }
    }

    /// What a resolution to `outcome` returns on the market of `pre`:
    /// [`Activity::resolve_result`] for the answers that the engine of
    /// `pre` gives, to the question whether the market can be resolved at
    /// the market's time and to the resolution to YES (for a nonzero
    /// `outcome`) or NO.
    pub open spec fn resolution_taken<E: PricingEngine>(pre: Context<E>, outcome: u64) -> Result<
        (),
        u32,
    > {
        Self::resolve_result(
            pre.market.enforce_resolution_time,
            pre.market.engine.resolvable_at(pre.market.counter),
            pre.market.engine.resolve_answer(outcome != 0),
        )
    }

    /// The market of `pre` after a resolution to `outcome`: as it was if
    /// the resolution was held back for its time; else with the engine
    /// handed the resolution, and with the outcome on record if the engine
    /// consented.
    pub open spec fn resolved_market<E: PricingEngine>(pre: Context<E>, outcome: u64) -> MarketState<
        E,
    > {
        let yes = outcome != 0;
        if !pre.market.engine.resolvable_at(pre.market.counter)
            && pre.market.enforce_resolution_time {
            pre.market
        } else if pre.market.engine.resolve_answer(yes) is Err {
            pre.market.with_engine(pre.market.engine.after_resolve(yes))
        } else {
            pre.market.with_outcome(yes).with_engine(pre.market.engine.after_resolve(yes))
        }
    }

    /// Whether a resolution to `outcome` leads from `pre` to `post` and
    /// returns `r`: the result is [`Activity::resolution_taken`], the
    /// market [`Activity::resolved_market`]; accounts, log and queue stay.
    pub open spec fn resolve_outcome<E: PricingEngine>(
        pre: Context<E>,
        post: Context<E>,
        outcome: u64,
        r: Result<(), u32>,
    ) -> bool {
        &&& r == Self::resolution_taken(pre, outcome)
        &&& post.players@ == pre.players@
        &&& post.events@ == pre.events@
        &&& post.settlement == pre.settlement
        &&& post.market == Self::resolved_market(pre, outcome)
    }

    /// Whether a resolution to `outcome` asked for by `player` leads from
    /// `pre` to `post` and returns `r`: as [`Activity::resolve_outcome`],
    /// and on success the record of `player` is filed.
    pub open spec fn resolution_filed<E: PricingEngine>(
        pre: Context<E>,
        post: Context<E>,
        player: Player,
        outcome: u64,
        r: Result<(), u32>,
    ) -> bool {
        &&& r == Self::resolution_taken(pre, outcome)
        &&& post.players@ == if r is Ok {
            pre.players@.insert(player.key(), player)
        } else {
            pre.players@
        }
        &&& post.events@ == pre.events@
        &&& post.settlement == pre.settlement
        &&& post.market == Self::resolved_market(pre, outcome)
    }

    /// Whether this activity, asked for by `player` (the record with its
    /// nonce advanced already), leads from `pre` to `post` and returns
    /// `r`.
    pub open spec fn applied<E: PricingEngine>(
        self,
        pre: Context<E>,
        post: Context<E>,
        player: Player,
        r: Result<(), u32>,
    ) -> bool {
        match self {
            Activity::Bet(bet_type, amount) => Self::bet_outcome(
                pre,
                post,
                player,
                bet_type,
                amount,
                r,
            ),
            Activity::Sell(sell_type, shares) => Self::sell_outcome(
                pre,
                post,
                player,
                sell_type,
                shares,
                r,
            ),
            Activity::Resolve(outcome) => Self::resolution_filed(pre, post, player, outcome, r),
            Activity::Claim => Self::claim_outcome(pre, post, player, r),
            Activity::WithdrawFees => Self::withdraw_fees_outcome(pre, post, player, r),
        }
    }

    /// Takes the stake of a bet from `player`, given the engine's answer
    /// `active` to the question whether the market trades.
    ///
    /// The engine's refusal is handed on and a balance below the stake
    /// fails with `ERROR_INSUFFICIENT_BALANCE`; neither touches the
    /// account. Otherwise the stake is taken and the time that the engine
    /// gave comes back.
    pub fn stake_bet(player: &mut Player, amount: u64, active: Result<u64, u32>) -> (r: Result<
        u64,
        u32,
    >)
        ensures
            active is Err ==> r == Err::<u64, u32>(active->Err_0) && *final(player) == *old(
                player,
            ),
            active is Ok && old(player).data.balance < amount ==> r == Err::<u64, u32>(
                ERROR_INSUFFICIENT_BALANCE,
            ) && *final(player) == *old(player),
            active is Ok && old(player).data.balance >= amount ==> r == Ok::<u64, u32>(
                active->Ok_0,
            ) && *final(player) == old(player).with_data(old(player).data.debited(amount)),
    {
        let time = match active {
            Ok(time) => time,
            Err(e) => {
                return Err(e);
            },
        };
        match player.data.spend_balance(amount) {
            Ok(()) => Ok(time),
            Err(e) => Err(e),
        }
    }

    /// Completes a bet whose stake has been taken, given the engine's
    /// answer `placed` to the bet.
    ///
    /// The engine's refusal is handed on and nothing changes. On its
    /// consent the shares it issued go to YES for side 1 and to NO for any
    /// other, the record is filed, and the event of the bet is emitted with
    /// `txid` and `time`.
    pub fn settle_bet<E: PricingEngine>(
        ctx: &mut Context<E>,
        player: &mut Player,
        bet_type: u64,
        amount: u64,
        txid: u64,
        time: u64,
        placed: Result<u64, u32>,
    ) -> (r: Result<(), u32>)
        ensures
            placed is Err ==> r == Err::<(), u32>(placed->Err_0) && *final(ctx) == *old(ctx)
                && *final(player) == *old(player),
            placed is Ok ==> {
                &&& r == Ok::<(), u32>(())
                &&& *final(player) == old(player).with_data(
                    if bet_type == 1 {
                        old(player).data.with_yes_added(placed->Ok_0)
                    } else {
                        old(player).data.with_no_added(placed->Ok_0)
                    },
                )
                &&& final(ctx).players@ == old(ctx).players@.insert(
                    final(player).key(),
                    *final(player),
                )
                &&& final(ctx).events@ == old(ctx).events@.push(
                    bet_event(old(player).player_id, bet_type, amount, placed->Ok_0, txid, time),
                )
                &&& final(ctx).settlement == old(ctx).settlement
                &&& final(ctx).market == old(ctx).market
            },
    {
        let shares = match placed {
            Ok(shares) => shares,
            Err(e) => {
                return Err(e);
            },
        };
        if bet_type == 1 {
            player.data.add_yes_shares(shares);
        } else {
            player.data.add_no_shares(shares);
        }
        ctx.players.store(player);
        Self::emit_bet_event(&mut ctx.events, player.player_id, bet_type, amount, shares, txid, time);
        Ok(())
    }

    /// Decides whether a sale may go to the engine, given the engine's
    /// answer `active` to the question whether the market trades.
    ///
    /// The engine's refusal is handed on; a position on side `sell_type`
    /// smaller than `shares` fails with `ERROR_INSUFFICIENT_BALANCE`;
    /// otherwise the time that the engine gave comes back.
    pub fn check_sale(player: &Player, sell_type: u64, shares: u64, active: Result<u64, u32>) -> (r:
        Result<u64, u32>)
        ensures
            active is Err ==> r == Err::<u64, u32>(active->Err_0),
            active is Ok && Self::held(*player, sell_type) < shares ==> r == Err::<u64, u32>(
                ERROR_INSUFFICIENT_BALANCE,
            ),
            active is Ok && Self::held(*player, sell_type) >= shares ==> r == Ok::<u64, u32>(
                active->Ok_0,
            ),
    {
        let time = match active {
            Ok(time) => time,
            Err(e) => {
                return Err(e);
            },
        };
        if sell_type == 1 && player.data.yes_shares < shares {
            return Err(ERROR_INSUFFICIENT_BALANCE);
        }
        if sell_type != 1 && player.data.no_shares < shares {
            return Err(ERROR_INSUFFICIENT_BALANCE);
        }
        Ok(time)
    }

    /// Completes a sale, given the engine's answer `sale` to it.
    ///
    /// A position smaller than the sale fails with
    /// `ERROR_INSUFFICIENT_BALANCE` whatever the engine answered; the
    /// engine's refusal is handed on; neither changes anything. On the
    /// engine's consent the shares leave the position sold from, the payout
    /// it granted is credited, the record is filed, and the event of the
    /// sale is emitted with `txid` and `time`.
    pub fn settle_sale<E: PricingEngine>(
        ctx: &mut Context<E>,
        player: &mut Player,
        sell_type: u64,
        shares: u64,
        txid: u64,
        time: u64,
        sale: Result<u64, u32>,
    ) -> (r: Result<(), u32>)
        ensures
            Self::held(*old(player), sell_type) < shares ==> r == Err::<(), u32>(
                ERROR_INSUFFICIENT_BALANCE,
            ) && *final(ctx) == *old(ctx) && *final(player) == *old(player),
            Self::held(*old(player), sell_type) >= shares && sale is Err ==> r == Err::<(), u32>(
                sale->Err_0,
            ) && *final(ctx) == *old(ctx) && *final(player) == *old(player),
            Self::held(*old(player), sell_type) >= shares && sale is Ok ==> {
                &&& r == Ok::<(), u32>(())
                &&& *final(player) == Self::sold(*old(player), sell_type, shares, sale->Ok_0)
                &&& final(ctx).players@ == old(ctx).players@.insert(
                    final(player).key(),
                    *final(player),
                )
                &&& final(ctx).events@ == old(ctx).events@.push(
                    sell_event(old(player).player_id, sell_type, shares, sale->Ok_0, txid, time),
                )
                &&& final(ctx).settlement == old(ctx).settlement
                &&& final(ctx).market == old(ctx).market
            },
    {
        if (sell_type == 1 && player.data.yes_shares < shares) || (sell_type != 1
            && player.data.no_shares < shares) {
            return Err(ERROR_INSUFFICIENT_BALANCE);
        }
        let payout = match sale {
            Ok(payout) => payout,
            Err(e) => {
                return Err(e);
            },
        };
        if sell_type == 1 {
            player.data.yes_shares = player.data.yes_shares - shares;
        } else {
            player.data.no_shares = player.data.no_shares - shares;
        }
        player.data.add_balance(payout);
        ctx.players.store(player);
        Self::emit_sell_event(
            &mut ctx.events,
            player.player_id,
            sell_type,
            shares,
            payout,
            txid,
            time,
        );
        Ok(())
    }

    /// Decides whether a resolution may go to the engine, given the
    /// engine's answer `allowed` to the question whether the market can be
    /// resolved now: a "no" fails with `ERROR_MARKET_NOT_RESOLVED` while
    /// `enforce_resolution_time` is set, and counts for nothing otherwise.
    pub fn gate_resolution<E: PricingEngine>(market: &MarketState<E>, allowed: bool) -> (r: Result<
        (),
        u32,
    >)
        ensures
            !allowed && market.enforce_resolution_time ==> r == Err::<(), u32>(
                ERROR_MARKET_NOT_RESOLVED,
            ),
            allowed || !market.enforce_resolution_time ==> r == Ok::<(), u32>(()),
    {
        if !allowed && market.enforce_resolution_time {
            return Err(ERROR_MARKET_NOT_RESOLVED);
        }
        Ok(())
    }

    /// Completes a resolution to `outcome`, given the engine's answer
    /// `verdict` to it: the engine's refusal is handed on and nothing
    /// changes; on its consent the market is on record as resolved, to YES
    /// for a nonzero `outcome` and to NO for zero.
    pub fn settle_resolution<E: PricingEngine>(
        ctx: &mut Context<E>,
        outcome: u64,
        verdict: Result<(), u32>,
    ) -> (r: Result<(), u32>)
        ensures
            verdict is Err ==> r == Err::<(), u32>(verdict->Err_0) && *final(ctx) == *old(ctx),
            verdict is Ok ==> {
                &&& r == Ok::<(), u32>(())
                &&& final(ctx).market == old(ctx).market.with_outcome(outcome != 0)
                &&& final(ctx).players == old(ctx).players
                &&& final(ctx).events == old(ctx).events
                &&& final(ctx).settlement == old(ctx).settlement
            },
    {
        match verdict {
            Ok(()) => {
                ctx.market.resolved = true;
                ctx.market.outcome = outcome != 0;
                Ok(())
            },
            Err(e) => Err(e),
        }
    }

    /// Opens a claim on a market that is `resolved` or not: an unresolved
    /// market fails with `ERROR_MARKET_NOT_RESOLVED`, an earlier claim with
    /// `ERROR_ALREADY_CLAIMED`, and neither touches the account; otherwise
    /// the claim flag is set.
    pub fn begin_claim(player: &mut Player, resolved: bool) -> (r: Result<(), u32>)
        ensures
            !resolved ==> r == Err::<(), u32>(ERROR_MARKET_NOT_RESOLVED) && *final(player) == *old(
                player,
            ),
            resolved && old(player).data.claimed ==> r == Err::<(), u32>(ERROR_ALREADY_CLAIMED)
                && *final(player) == *old(player),
            resolved && !old(player).data.claimed ==> r == Ok::<(), u32>(()) && *final(player)
                == old(player).with_data(old(player).data.with_claim()),
    {
        if !resolved {
            return Err(ERROR_MARKET_NOT_RESOLVED);
        }
        player.data.claim_winnings()
    }

    /// Completes a claim that has been opened, given the engine's answer
    /// `payout` to the question what the player's positions are owed.
    ///
    /// The engine's refusal is handed on and a payout of zero fails with
    /// `ERROR_NO_WINNING_POSITION`; neither changes anything. Any other
    /// payout is credited and the record is filed.
    pub fn settle_claim<E: PricingEngine>(
        ctx: &mut Context<E>,
        player: &mut Player,
        payout: Result<u64, u32>,
    ) -> (r: Result<(), u32>)
        ensures
            payout is Err ==> r == Err::<(), u32>(payout->Err_0) && *final(ctx) == *old(ctx)
                && *final(player) == *old(player),
            payout is Ok && payout->Ok_0 == 0 ==> r == Err::<(), u32>(ERROR_NO_WINNING_POSITION)
                && *final(ctx) == *old(ctx) && *final(player) == *old(player),
            payout is Ok && payout->Ok_0 != 0 ==> {
                &&& r == Ok::<(), u32>(())
                &&& *final(player) == old(player).with_data(
                    old(player).data.credited(payout->Ok_0),
                )
                &&& final(ctx).players@ == old(ctx).players@.insert(
                    final(player).key(),
                    *final(player),
                )
                &&& final(ctx).events == old(ctx).events
                &&& final(ctx).settlement == old(ctx).settlement
                &&& final(ctx).market == old(ctx).market
            },
    {
        let owed = match payout {
            Ok(owed) => owed,
            Err(e) => {
                return Err(e);
            },
        };
        if owed == 0 {
            return Err(ERROR_NO_WINNING_POSITION);
        }
        player.data.add_balance(owed);
        ctx.players.store(player);
        Ok(())
    }

    /// Places a bet for `player`, whose nonce has been advanced already.
    ///
    /// A zero stake fails at once. Otherwise the engine is asked whether
    /// the market trades at the market's time, [`Activity::stake_bet`]
    /// takes its answer, the engine is handed side and stake, and
    /// [`Activity::settle_bet`] takes its answer together with the market's
    /// transaction number.
    pub fn handle_bet<E: PricingEngine>(
        ctx: &mut Context<E>,
        player: &mut Player,
        bet_type: u64,
        amount: u64,
        counter: u64,
    ) -> (r: Result<(), u32>)
        ensures
            Self::bet_outcome(*old(ctx), *final(ctx), *old(player), bet_type, amount, r),
            *final(player) == Self::bet_taken(*old(ctx), *old(player), bet_type, amount).player,
    {
        if amount == 0 {
            return Err(ERROR_INVALID_BET_AMOUNT);
        }
        let active = ctx.market.ensure_active();
        let current_time = match Self::stake_bet(player, amount, active) {
            Ok(time) => time,
            Err(e) => {
                return Err(e);
            },
        };
        let txid = ctx.market.txcounter;
        let placed = ctx.market.engine.place_bet(bet_type, amount);
        Self::settle_bet(ctx, player, bet_type, amount, txid, current_time, placed)
    }

    /// Sells shares of `player`, whose nonce has been advanced already.
    ///
    /// A sale of no shares fails at once. Otherwise the engine is asked
    /// whether the market trades at the market's time,
    /// [`Activity::check_sale`] takes its answer, the engine is handed side
    /// and shares, and [`Activity::settle_sale`] takes its answer together
    /// with the market's transaction number.
    pub fn handle_sell<E: PricingEngine>(
        ctx: &mut Context<E>,
        player: &mut Player,
        sell_type: u64,
        shares: u64,
        counter: u64,
    ) -> (r: Result<(), u32>)
        ensures
            Self::sell_outcome(*old(ctx), *final(ctx), *old(player), sell_type, shares, r),
            *final(player) == Self::sale_taken(*old(ctx), *old(player), sell_type, shares).player,
    {
        if shares == 0 {
            return Err(ERROR_INVALID_BET_AMOUNT);
        }
        let active = ctx.market.ensure_active();
        let current_time = match Self::check_sale(player, sell_type, shares, active) {
            Ok(time) => time,
            Err(e) => {
                return Err(e);
            },
        };
        let txid = ctx.market.txcounter;
        let sale = ctx.market.engine.sell_shares(sell_type, shares);
        Self::settle_sale(ctx, player, sell_type, shares, txid, current_time, sale)
    }

    /// Fixes the outcome of the market: YES for a nonzero `outcome`.
    ///
    /// The engine is asked whether the market can be resolved at the
    /// market's time and [`Activity::gate_resolution`] takes its answer;
    /// then the engine is handed the outcome, YES or NO, and
    /// [`Activity::settle_resolution`] takes its answer.
    pub fn handle_resolve<E: PricingEngine>(ctx: &mut Context<E>, outcome: u64, counter: u64) -> (r:
        Result<(), u32>)
        ensures
            Self::resolve_outcome(*old(ctx), *final(ctx), outcome, r),
    {
        let current_time = ctx.market.counter;
        let allowed = ctx.market.engine.can_resolve(current_time);
        match Self::gate_resolution(&ctx.market, allowed) {
            Ok(()) => {},
            Err(e) => {
                return Err(e);
            },
        }
        let verdict = ctx.market.engine.resolve(outcome != 0);
        Self::settle_resolution(ctx, outcome, verdict)
    }

    /// Credits `player`, whose nonce has been advanced already, with what
    /// the resolved market owes for their positions.
    ///
    /// [`Activity::begin_claim`] opens the claim, the engine is handed the
    /// player's YES and NO shares, and [`Activity::settle_claim`] takes its
    /// answer.
    pub fn handle_claim<E: PricingEngine>(ctx: &mut Context<E>, player: &mut Player, counter: u64) -> (r:
        Result<(), u32>)
        ensures
            Self::claim_outcome(*old(ctx), *final(ctx), *old(player), r),
            *final(player) == Self::claim_taken(*old(ctx), *old(player)).player,
    {
        match Self::begin_claim(player, ctx.market.resolved) {
            Ok(()) => {},
            Err(e) => {
                return Err(e);
            },
        }
        let payout = ctx.market.engine.calculate_payout(
            player.data.yes_shares,
            player.data.no_shares,
        );
        Self::settle_claim(ctx, player, payout)
    }

    /// Moves the collected fees to `player`, whose nonce has been advanced
    /// already, and empties the pool; an empty pool fails with
    /// `ERROR_NO_WINNING_POSITION`.
    pub fn handle_withdraw_fees<E: PricingEngine>(
        ctx: &mut Context<E>,
        player: &mut Player,
        counter: u64,
    ) -> (r: Result<(), u32>)
        ensures
            Self::withdraw_fees_outcome(*old(ctx), *final(ctx), *old(player), r),
            *final(player) == Self::withdraw_fees_step(
                *old(player),
                old(ctx).market.total_fees_collected,
            ).player,
    {
        let fees_collected = ctx.market.total_fees_collected;
        if fees_collected == 0 {
            return Err(ERROR_NO_WINNING_POSITION);
        }
        player.data.add_balance(fees_collected);
        ctx.market.total_fees_collected = 0;
        ctx.players.store(player);
        Ok(())
    }
}

impl CommandHandler for Activity {
    /// An activity is admissible for a player without an account (it then
    /// fails), and for one whose next nonce it carries.
    open spec fn admissible(
        &self,
        players: Map<(u64, u64), Player>,
        pid: [u64; 2],
        nonce: u64,
    ) -> bool {
        players.dom().contains(pid_key(pid)) ==> players[pid_key(pid)].accepts_nonce(nonce)
    }

    fn admits<E: PricingEngine>(&self, ctx: &Context<E>, pid: &[u64; 2], nonce: u64) -> (ok:
        bool) {
        match ctx.players.get_from_pid(pid) {
            None => true,
            Some(player) => player.nonce_matches(nonce),
        }
    }

    /// Advances the player's nonce and hands the activity to its handler;
    /// what the handler returns is returned.
    ///
    /// The advanced nonce is filed together with the account whenever the
    /// activity succeeds. A resolution touches no account of its own, so
    /// after a successful one the player's record is filed here.
    fn handle<E: PricingEngine>(
        &self,
        ctx: &mut Context<E>,
        pid: &[u64; 2],
        nonce: u64,
        rand: &[u64; 4],
        counter: u64,
    ) -> (r: Result<(), u32>)
        ensures
            !old(ctx).players@.dom().contains(pid_key(*pid)) ==> *final(ctx) == *old(ctx),
            old(ctx).players@.dom().contains(pid_key(*pid)) ==> self.applied(
                *old(ctx),
                *final(ctx),
                old(ctx).players@[pid_key(*pid)].nonce_advanced(),
                r,
            ),
            r is Ok ==> nonce_consumed(final(ctx).players@, *pid, nonce),
    {
        let found = ctx.players.get_from_pid(pid);
        match found {
            None => Err(ERROR_PLAYER_NOT_EXIST),
            Some(mut player) => {
                proof {
                    ctx.players.lemma_filed_under_own_id(pid_key(*pid));
                }
                player.check_and_inc_nonce(nonce);
                match self {
                    Activity::Bet(bet_type, amount) => {
                        Self::handle_bet(ctx, &mut player, *bet_type, *amount, counter)
                    },
                    Activity::Sell(sell_type, shares) => {
                        Self::handle_sell(ctx, &mut player, *sell_type, *shares, counter)
                    },
                    Activity::Resolve(outcome) => {
                        let r = Self::handle_resolve(ctx, *outcome, counter);
                        match r {
                            Ok(()) => {
                                ctx.players.store(&player);
                            },
                            Err(_) => {},
                        }
                        r
                    },
                    Activity::Claim => { Self::handle_claim(ctx, &mut player, counter) },
                    Activity::WithdrawFees => {
                        Self::handle_withdraw_fees(ctx, &mut player, counter)
                    },
                }
            },
        }
    }
}

/// An activity is a function of the context it meets: two runs of one
/// activity for one player from one context return the same and end in the
/// same accounts, log, queue and market, whatever else they were handed.
pub proof fn lemma_activity_is_determined<E: PricingEngine>(
    activity: Activity,
    pre: Context<E>,
    player: Player,
    first: Context<E>,
    first_result: Result<(), u32>,
    second: Context<E>,
    second_result: Result<(), u32>,
)
    requires
        activity.applied(pre, first, player, first_result),
        activity.applied(pre, second, player, second_result),
    ensures
        first_result == second_result,
        first.players@ == second.players@,
        first.events@ == second.events@,
        first.settlement == second.settlement,
        first.market == second.market,
{
}

/// A nonce is good for one command: once the account of `pid` shows that
/// a command under `nonce` has been applied, no withdrawal, deposit or
/// activity under the same nonce is admissible for `pid`.
pub proof fn lemma_consumed_nonce_is_refused(
    after: Map<(u64, u64), Player>,
    pid: [u64; 2],
    nonce: u64,
    withdraw: Withdraw,
    deposit: Deposit,
    activity: Activity,
)
    requires
        nonce_consumed(after, pid, nonce),
    ensures
        !withdraw.admissible(after, pid, nonce),
        !deposit.admissible(after, pid, nonce),
        !activity.admissible(after, pid, nonce),
{
}

/// A bet that succeeds costs the player the stake and nothing else: the
/// balance falls by exactly `amount`, and only the position of the side
/// that was bet on moves.
pub proof fn lemma_bet_takes_the_stake(
    player: Player,
    bet_type: u64,
    amount: u64,
    txid: u64,
    active: Result<u64, u32>,
    placed: Result<u64, u32>,
)
    requires
        Activity::bet_step(player, bet_type, amount, txid, active, placed).result is Ok,
    ensures
        ({
            let after = Activity::bet_step(player, bet_type, amount, txid, active, placed).player;
            &&& player.data.balance - after.data.balance == amount
            &&& after.data.claimed == player.data.claimed
            &&& after.nonce == player.nonce
            &&& after.player_id == player.player_id
            &&& bet_type == 1 ==> after.data.no_shares == player.data.no_shares
                && after.data.yes_shares == credit(player.data.yes_shares, placed->Ok_0)
            &&& bet_type != 1 ==> after.data.yes_shares == player.data.yes_shares
                && after.data.no_shares == credit(player.data.no_shares, placed->Ok_0)
        }),
{
}

/// A sale that succeeds pays the player what the engine granted and takes
/// the shares sold: unless the balance would pass `u64::MAX`, it rises by
/// exactly the payout; the position sold from falls by exactly `shares`
/// and the other one stays.
pub proof fn lemma_sale_pays_the_payout(
    player: Player,
    sell_type: u64,
    shares: u64,
    txid: u64,
    active: Result<u64, u32>,
    sale: Result<u64, u32>,
)
    requires
        Activity::sell_step(player, sell_type, shares, txid, active, sale).result is Ok,
        player.data.balance + sale->Ok_0 <= u64::MAX,
    ensures
        ({
            let after = Activity::sell_step(player, sell_type, shares, txid, active, sale).player;
            &&& player.data.balance - after.data.balance == -(sale->Ok_0 as int)
            &&& after.data.claimed == player.data.claimed
            &&& after.nonce == player.nonce
            &&& after.player_id == player.player_id
            &&& sell_type == 1 ==> after.data.no_shares == player.data.no_shares
                && player.data.yes_shares - after.data.yes_shares == shares
            &&& sell_type != 1 ==> after.data.yes_shares == player.data.yes_shares
                && player.data.no_shares - after.data.no_shares == shares
        }),
{
}

/// A bet and a sale in a row leave the balance at what it was, less the
/// stake, plus the payout, unless the payout would take it past
/// `u64::MAX`.
pub proof fn lemma_bet_then_sale_balance(
    player: Player,
    bet_type: u64,
    amount: u64,
    placed: Result<u64, u32>,
    sell_type: u64,
    shares: u64,
    sale: Result<u64, u32>,
    txid: u64,
    active: Result<u64, u32>,
)
    requires
        Activity::bet_step(player, bet_type, amount, txid, active, placed).result is Ok,
        Activity::sell_step(
            Activity::bet_step(player, bet_type, amount, txid, active, placed).player,
            sell_type,
            shares,
            txid,
            active,
            sale,
        ).result is Ok,
        player.data.balance - amount + sale->Ok_0 <= u64::MAX,
    ensures
        Activity::sell_step(
            Activity::bet_step(player, bet_type, amount, txid, active, placed).player,
            sell_type,
            shares,
            txid,
            active,
            sale,
        ).player.data.balance == player.data.balance - amount + sale->Ok_0,
{
}

/// Positions move through bets and sales only: a claim, a withdrawal of
/// the fees, a withdrawal and a deposit leave the shares of every account
/// they touch as they were.
pub proof fn lemma_shares_move_by_trades_only(
    player: Player,
    resolved: bool,
    payout: Result<u64, u32>,
    fees: u64,
    withdraw: Withdraw,
    amount: u64,
)
    ensures
        Activity::claim_step(player, resolved, payout).player.data.yes_shares
            == player.data.yes_shares,
        Activity::claim_step(player, resolved, payout).player.data.no_shares
            == player.data.no_shares,
        Activity::withdraw_fees_step(player, fees).player.data.yes_shares
            == player.data.yes_shares,
        Activity::withdraw_fees_step(player, fees).player.data.no_shares
            == player.data.no_shares,
        withdraw.withdrawn(player).data.yes_shares == player.data.yes_shares,
        withdraw.withdrawn(player).data.no_shares == player.data.no_shares,
        player.data.credited(amount).yes_shares == player.data.yes_shares,
        player.data.credited(amount).no_shares == player.data.no_shares,
        player.nonce_advanced().data == player.data,
{
}

/// A claim succeeds once: it sets the claim flag on the record that is
/// filed, and on a resolved market a claim for a record with the flag set
/// fails with `ERROR_ALREADY_CLAIMED`, whatever the engine would pay.
pub proof fn lemma_claim_succeeds_once(
    player: Player,
    resolved: bool,
    first: Result<u64, u32>,
    second: Result<u64, u32>,
)
    requires
        Activity::claim_step(player, resolved, first).result is Ok,
    ensures
        ({
            let filed = Activity::claim_step(player, resolved, first).player;
            let again = Activity::claim_step(filed.nonce_advanced(), true, second);
            &&& filed.data.claimed
            &&& filed.data.balance == credit(player.data.balance, first->Ok_0)
            &&& again.result == Err::<(), u32>(ERROR_ALREADY_CLAIMED)
            &&& again.player == filed.nonce_advanced()
        }),
{
}

/// A bet of nothing and a sale of nothing fail with
/// `ERROR_INVALID_BET_AMOUNT` whatever the engine would answer, and leave
/// the account alone and the log without a new event.
pub proof fn lemma_zero_amount_is_rejected(
    player: Player,
    side: u64,
    txid: u64,
    active: Result<u64, u32>,
    answer: Result<u64, u32>,
)
    ensures
        Activity::bet_step(player, side, 0, txid, active, answer) == (Step {
            result: Err(ERROR_INVALID_BET_AMOUNT),
            player,
            event: None,
        }),
        Activity::sell_step(player, side, 0, txid, active, answer) == (Step {
            result: Err(ERROR_INVALID_BET_AMOUNT),
            player,
            event: None,
        }),
{
}

/// On a market that trades, a sale of more shares than the player holds
/// on that side fails with `ERROR_INSUFFICIENT_BALANCE` whatever the
/// engine would pay, and leaves the account alone.
pub proof fn lemma_short_sale_is_rejected(
    player: Player,
    sell_type: u64,
    shares: u64,
    txid: u64,
    time: u64,
    sale: Result<u64, u32>,
)
    requires
        Activity::held(player, sell_type) < shares,
    ensures
        Activity::sell_step(player, sell_type, shares, txid, Ok(time), sale) == (Step {
            result: Err(ERROR_INSUFFICIENT_BALANCE),
            player,
            event: None,
        }),
{
}

/// An activity that fails emits no event: together with the rule that a
/// record is filed only on success, a failed bet, sale, claim or
/// withdrawal of fees leaves accounts and log as they were.
pub proof fn lemma_failed_step_emits_nothing(
    player: Player,
    side: u64,
    amount: u64,
    txid: u64,
    active: Result<u64, u32>,
    answer: Result<u64, u32>,
    resolved: bool,
    fees: u64,
)
    ensures
        Activity::bet_step(player, side, amount, txid, active, answer).result is Err
            ==> Activity::bet_step(player, side, amount, txid, active, answer).event is None,
        Activity::sell_step(player, side, amount, txid, active, answer).result is Err
            ==> Activity::sell_step(player, side, amount, txid, active, answer).event is None,
        Activity::claim_step(player, resolved, answer).event is None,
        Activity::withdraw_fees_step(player, fees).event is None,
{
}

} // verus!
