//! Player accounts and the ledger that files them by identity.

use vstd::prelude::*;

use crate::error::ERROR_ALREADY_CLAIMED;
use crate::error::ERROR_INSUFFICIENT_BALANCE;

verus! {

/// What a holding of `held` becomes when `amount` is added to it: the sum,
/// capped at `u64::MAX`.
pub open spec fn credit(held: u64, amount: u64) -> u64 {
    if held + amount > u64::MAX {
        u64::MAX
    } else {
        (held + amount) as u64
    }
}

/// The map key of a two-word player identity.
pub open spec fn pid_key(pid: [u64; 2]) -> (u64, u64) {
    (pid[0], pid[1])
}

/// Balance and positions of one player.
#[derive(Clone, Copy, Debug, PartialEq, Eq, Structural)]
pub struct PlayerData {
    pub balance: u64,
    pub yes_shares: u64,
    pub no_shares: u64,
    pub claimed: bool,
}

impl PlayerData {
    /// The account with `amount` taken from its balance.
    pub open spec fn debited(self, amount: u64) -> Self
        recommends
            self.balance >= amount,
    {
        PlayerData { balance: (self.balance - amount) as u64, ..self }
    }

    /// The account with `amount` added to its balance.
    pub open spec fn credited(self, amount: u64) -> Self {
        PlayerData { balance: credit(self.balance, amount), ..self }
    }

    /// The account with `shares` added to its YES position.
    pub open spec fn with_yes_added(self, shares: u64) -> Self {
        PlayerData { yes_shares: credit(self.yes_shares, shares), ..self }
    }

    /// The account with `shares` added to its NO position.
    pub open spec fn with_no_added(self, shares: u64) -> Self {
        PlayerData { no_shares: credit(self.no_shares, shares), ..self }
    }

    /// The account with its claim flag set.
    pub open spec fn with_claim(self) -> Self {
        PlayerData { claimed: true, ..self }
    }

    /// An empty account: nothing held, nothing claimed.
    pub fn new() -> (data: Self)
        ensures
            data == (PlayerData { balance: 0, yes_shares: 0, no_shares: 0, claimed: false }),
    {
        PlayerData { balance: 0, yes_shares: 0, no_shares: 0, claimed: false }
    }

    /// Takes `amount` from the balance, or fails with
    /// `ERROR_INSUFFICIENT_BALANCE` and changes nothing when the balance is
    /// smaller.
    pub fn spend_balance(&mut self, amount: u64) -> (r: Result<(), u32>)
        ensures
            old(self).balance >= amount ==> r == Ok::<(), u32>(()) && *final(self) == old(
                self,
            ).debited(amount),
            old(self).balance < amount ==> r == Err::<(), u32>(ERROR_INSUFFICIENT_BALANCE)
                && *final(self) == *old(self),
    {
        if self.balance < amount {
            return Err(ERROR_INSUFFICIENT_BALANCE);
        }
        self.balance = self.balance - amount;
        Ok(())
    }

    /// Adds `amount` to the balance; a sum beyond `u64::MAX` stays at
    /// `u64::MAX`.
    pub fn add_balance(&mut self, amount: u64)
        ensures
            *final(self) == old(self).credited(amount),
    {
        self.balance = self.balance.saturating_add(amount);
    }

    /// Adds `shares` to the YES position, capped like the balance.
    pub fn add_yes_shares(&mut self, shares: u64)
        ensures
            *final(self) == old(self).with_yes_added(shares),
    {
        self.yes_shares = self.yes_shares.saturating_add(shares);
    }

    /// Adds `shares` to the NO position, capped like the balance.
    pub fn add_no_shares(&mut self, shares: u64)
        ensures
            *final(self) == old(self).with_no_added(shares),
    {
        self.no_shares = self.no_shares.saturating_add(shares);
    }

    /// Sets the claim flag, or fails with `ERROR_ALREADY_CLAIMED` and
    /// changes nothing when it was set before.
    pub fn claim_winnings(&mut self) -> (r: Result<(), u32>)
        ensures
            !old(self).claimed ==> r == Ok::<(), u32>(()) && *final(self) == old(
                self,
            ).with_claim(),
            old(self).claimed ==> r == Err::<(), u32>(ERROR_ALREADY_CLAIMED) && *final(self)
                == *old(self),
    {
        if self.claimed {
            return Err(ERROR_ALREADY_CLAIMED);
        }
        self.claimed = true;
        Ok(())
    }
}

/// One account record: identity, replay counter and holdings.
#[derive(Clone, Copy, Debug, PartialEq, Eq)]
pub struct Player {
    pub player_id: [u64; 2],
    pub nonce: u64,
    pub data: PlayerData,
}

impl Player {
    /// The key under which the ledger files this record.
    pub open spec fn key(self) -> (u64, u64) {
        pid_key(self.player_id)
    }

    /// Whether a command that carries `nonce` is the next one this player
    /// may issue.
    pub open spec fn accepts_nonce(self, nonce: u64) -> bool {
        self.nonce == nonce && nonce < u64::MAX
    }

    /// The record after one accepted command.
    pub open spec fn nonce_advanced(self) -> Self
        recommends
            self.nonce < u64::MAX,
    {
        Player { nonce: (self.nonce + 1) as u64, ..self }
    }

    /// The record with other holdings.
    pub open spec fn with_data(self, data: PlayerData) -> Self {
        Player { data, ..self }
    }

    /// A fresh record for `player_id`: nonce zero, empty account.
    pub fn new(player_id: [u64; 2]) -> (player: Self)
        ensures
            player == (Player {
                player_id,
                nonce: 0,
                data: PlayerData { balance: 0, yes_shares: 0, no_shares: 0, claimed: false },
            }),
    {
        Player { player_id, nonce: 0, data: PlayerData::new() }
    }

    /// Runtime form of [`Player::accepts_nonce`].
    pub fn nonce_matches(&self, nonce: u64) -> (ok: bool)
        ensures
            ok == self.accepts_nonce(nonce),
    {
        self.nonce == nonce && nonce < u64::MAX
    }

    /// Consumes the expected nonce: the counter moves on by one and nothing
    /// else changes.
    pub fn check_and_inc_nonce(&mut self, nonce: u64)
        requires
            old(self).accepts_nonce(nonce),
        ensures
            *final(self) == old(self).nonce_advanced(),
    {
        self.nonce = self.nonce + 1;
    }
}

/// The accounts, at most one per identity.
pub struct PlayerLedger {
    players: Vec<Player>,
}

impl View for PlayerLedger {
    type V = Map<(u64, u64), Player>;

    /// The ledger as a map from identity to record.
    closed spec fn view(&self) -> Map<(u64, u64), Player> {
        Map::new(
            |k: (u64, u64)| exists|i: int| self.holds_at(i, k),
            |k: (u64, u64)| self.players@[choose|i: int| self.holds_at(i, k)],
        )
    }
}

impl PlayerLedger {
    spec fn holds_at(self, i: int, k: (u64, u64)) -> bool {
        0 <= i < self.players@.len() && self.players@[i].key() == k
    }

    #[verifier::type_invariant]
    spec fn one_record_per_identity(self) -> bool {
        forall|i: int, j: int|
            0 <= i < self.players@.len() && 0 <= j < self.players@.len()
                && #[trigger] self.players@[i].key() == #[trigger] self.players@[j].key() ==> i
                == j
    }

    /// Every record is filed under its own identity.
    pub proof fn lemma_filed_under_own_id(self, k: (u64, u64))
        requires
            self@.dom().contains(k),
        ensures
            self@[k].key() == k,
    {
        let i = choose|i: int| self.holds_at(i, k);
        assert(self.holds_at(i, k));
    }

    /// A ledger without accounts.
    pub fn new() -> (ledger: Self)
        ensures
            ledger@ == Map::<(u64, u64), Player>::empty(),
    {
        let ledger = PlayerLedger { players: Vec::new() };
        assert(ledger@ =~= Map::<(u64, u64), Player>::empty()) by {
            assert forall|k: (u64, u64)| !ledger@.dom().contains(k) by {
                assert(forall|i: int| !ledger.holds_at(i, k));
            }
        }
        ledger
    }

    /// The record filed under `pid`, if there is one.
    pub fn get_from_pid(&self, pid: &[u64; 2]) -> (found: Option<Player>)
        ensures
            found == (if self@.dom().contains(pid_key(*pid)) {
                Some(self@[pid_key(*pid)])
            } else {
                None
            }),
            found matches Some(p) ==> p.player_id[0] == pid[0] && p.player_id[1] == pid[1],
    {
        proof {
            use_type_invariant(self);
        }
        let ghost k = pid_key(*pid);
        let mut i: usize = 0;
        while i < self.players.len()
            invariant
                i <= self.players@.len(),
                k == pid_key(*pid),
                self.one_record_per_identity(),
                forall|j: int| 0 <= j < i ==> !self.holds_at(j, k),
            decreases self.players@.len() - i,
        {
            let p = self.players[i];
            if p.player_id[0] == pid[0] && p.player_id[1] == pid[1] {
                proof {
                    assert(self.holds_at(i as int, k));
                    let c = choose|c: int| self.holds_at(c, k);
                    assert(self.holds_at(c, k));
                    assert(c == i);
                }
                return Some(p);
            }
            i = i + 1;
        }
        assert(forall|j: int| !self.holds_at(j, k));
        None
    }

    /// Files `player` under its identity, in place of any record that was
    /// there.
    pub fn store(&mut self, player: &Player)
        ensures
            final(self)@ == old(self)@.insert(player.key(), *player),
    {
        proof {
            use_type_invariant(&*self);
        }
        let ghost k = player.key();
        let ghost before = *self;
        let mut players: Vec<Player> = Vec::new();
        std::mem::swap(&mut players, &mut self.players);
        let mut i: usize = 0;
        let mut at: Option<usize> = None;
        while i < players.len()
            invariant_except_break
                at is None,
            invariant
                i <= players@.len(),
                players@ == before.players@,
                k == player.key(),
                forall|j: int| 0 <= j < i ==> !before.holds_at(j, k),
            ensures
                players@ == before.players@,
                at matches Some(n) ==> before.holds_at(n as int, k),
                at is None ==> forall|j: int| !before.holds_at(j, k),
            decreases players@.len() - i,
        {
            let p = &players[i];
            if p.player_id[0] == player.player_id[0] && p.player_id[1] == player.player_id[1] {
                at = Some(i);
                assert(before.holds_at(i as int, k));
                break ;
            }
            i = i + 1;
        }
        match at {
            Some(n) => {
                players.set(n, *player);
            },
            None => {
                players.push(*player);
            },
        }
        proof {
            assert forall|i: int, j: int|
                0 <= i < players@.len() && 0 <= j < players@.len()
                    && #[trigger] players@[i].key() == #[trigger] players@[j].key() implies i
                == j by {
                let ki = players@[i].key();
                if ki == k {
                    match at {
                        Some(n) => {
                            assert(i != n ==> before.holds_at(i, before.players@[n as int].key()));
                            assert(j != n ==> before.holds_at(j, before.players@[n as int].key()));
                        },
                        None => {
                            assert(i < before.players@.len() ==> before.holds_at(i, k));
                            assert(j < before.players@.len() ==> before.holds_at(j, k));
                        },
                    }
                } else {
                    assert(before.holds_at(i, before.players@[j].key()));
                }
            }
        }
        self.players = players;
        proof {
            let after = *self;
            assert forall|q: (u64, u64)|
                after@.dom().contains(q) == before@.insert(k, *player).dom().contains(
                    q,
                ) by {
                if after@.dom().contains(q) {
                    let j = choose|j: int| after.holds_at(j, q);
                    assert(after.holds_at(j, q));
                    if q != k {
                        assert(before.holds_at(j, q));
                    }
                }
                if before@.dom().contains(q) && q != k {
                    let j = choose|j: int| before.holds_at(j, q);
                    assert(before.holds_at(j, q));
                    assert(after.holds_at(j, q));
                }
                if q == k {
                    match at {
                        Some(n) => {
                            assert(after.holds_at(n as int, k));
                        },
                        None => {
                            assert(after.holds_at(before.players@.len() as int, k));
                        },
                    }
                }
            }
            assert forall|q: (u64, u64)| after@.dom().contains(q) implies after@[q]
                == before@.insert(k, *player)[q] by {
                let j = choose|j: int| after.holds_at(j, q);
                assert(after.holds_at(j, q));
                if q == k {
                    match at {
                        Some(n) => {
                            assert(after.holds_at(n as int, k));
                            assert(j == n);
                        },
                        None => {
                            assert(after.holds_at(before.players@.len() as int, k));
                            assert(j == before.players@.len());
                        },
                    }
                } else {
                    assert(before.holds_at(j, q));
                    let c = choose|c: int| before.holds_at(c, q);
                    assert(before.holds_at(c, q));
                    assert(c == j);
                }
            }
            assert(after@ =~= before@.insert(k, *player));
        }
    }
}

} // verus!
