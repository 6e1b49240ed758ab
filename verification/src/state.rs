use vstd::prelude::*;

use crate::errors::CustomError;

verus! {

/// Identity of a ledger account: an arbiter, a principal or a bettor.
/// The engine only ever compares identities for equality, so one opaque
/// numeric value stands for an account's address.
#[derive(Clone, Copy, PartialEq, Eq, Structural, Debug, Hash)]
pub struct AccountId(pub u64);

/// Lifecycle status of a match.
///
/// `InProgress` and `Cancelled` are structurally present but dead: no
/// operation ever enters them, and no operation leaves them once a record
/// somehow held them. They are kept as explicitly unreachable variants.
#[derive(Clone, Copy, PartialEq, Eq, Structural, Debug)]
pub enum MatchStatus {
    /// Created, still waiting for the principals' deposits.
    Created,
    /// Both principals have deposited their stake.
    Funded,
    /// Declared but never entered by any operation.
    InProgress,
    /// The arbiter has declared a winner; terminal.
    Resolved,
    /// Declared but never entered by any operation.
    Cancelled,
}

/// The side a principal plays on, and the side a spectator backs.
#[derive(Clone, Copy, PartialEq, Eq, Structural, Debug)]
pub enum Side {
    PlayerA,
    PlayerB,
}

/// The escrow record of one match. Its `vault_lamports` balance is the
/// vault custodying every deposited and wagered value of the match.
#[derive(Clone, Copy, Debug)]
pub struct Match {
    /// The only identity authorized to declare the winner.
    pub arbiter: AccountId,
    /// The principal playing side A.
    pub player_a: AccountId,
    /// The principal playing side B.
    pub player_b: AccountId,
    /// What each principal must deposit to fund the match; always positive.
    pub stake_lamports: u64,
    /// Pooled spectator bets backing side A; never decreases.
    pub total_side_a: u64,
    /// Pooled spectator bets backing side B; never decreases.
    pub total_side_b: u64,
    /// Earliest instant a winner may be declared, and the instant at which
    /// bets stop being accepted.
    pub deadline: i64,
    /// Lifecycle status.
    pub status: MatchStatus,
    /// The winning side, set at most once, only after the deadline.
    pub winner: Option<Side>,
    /// Caller-chosen match identifier.
    pub id: u64,
    /// Whether the side-A principal has deposited its stake.
    pub player_a_deposited: bool,
    /// Whether the side-B principal has deposited its stake.
    pub player_b_deposited: bool,
    /// Whether the winning principal has withdrawn the combined stakes.
    pub stakes_withdrawn: bool,
    /// The balance the record itself holds: the escrow vault.
    pub vault_lamports: u64,
}

impl Match {
    /// Total value ever credited to the vault: every deposited stake plus
    /// every pooled bet. Deposit flags and pools only ever grow, and each
    /// growth step matches one credit of the same size.
    pub open spec fn vault_inflow(self) -> int {
        (if self.player_a_deposited {
            self.stake_lamports as int
        } else {
            0int
        }) + (if self.player_b_deposited {
            self.stake_lamports as int
        } else {
            0int
        }) + self.total_side_a + self.total_side_b
    }

    /// Total value ever debited from the vault.
    pub open spec fn vault_outflow(self) -> int {
        self.vault_inflow() - self.vault_lamports
    }

    /// What the stake withdrawal has paid out so far: both stakes once the
    /// winning principal has withdrawn them, nothing before.
    pub open spec fn stake_payout_made(self) -> int {
        if self.stakes_withdrawn {
            2 * self.stake_lamports
        } else {
            0
        }
    }

    /// Whether the match still accepts deposits and bets.
    pub open spec fn accepting(self) -> bool {
        self.status is Created || self.status is Funded
    }

    /// The pooled amount backing the declared winner.
    pub open spec fn winning_side_total(self) -> u64 {
        if self.winner == Some(Side::PlayerA) {
            self.total_side_a
        } else {
            self.total_side_b
        }
    }

    /// Whether `caller` is the principal on the declared winning side.
    pub open spec fn is_winning_principal(self, caller: AccountId) -> bool {
        ||| self.winner == Some(Side::PlayerA) && caller == self.player_a
        ||| self.winner == Some(Side::PlayerB) && caller == self.player_b
    }

    /// Well-formedness of a reachable match record: creation establishes it
    /// and every operation preserves it.
    ///
    /// The last clause is the conservation invariant: the balance still in
    /// the vault plus the stake payout already made never exceeds the value
    /// that ever entered the vault.
    pub open spec fn wf(self) -> bool {
        &&& self.stake_lamports > 0
        &&& self.status is Created ==> !(self.player_a_deposited && self.player_b_deposited)
        &&& self.status is Funded ==> self.player_a_deposited && self.player_b_deposited
        &&& self.winner is Some <==> self.status is Resolved
        &&& !(self.status is InProgress)
        &&& !(self.status is Cancelled)
        &&& self.stakes_withdrawn ==> self.status is Resolved
        &&& self.vault_lamports + self.stake_payout_made() <= self.vault_inflow()
    }

    /// Runtime check of [`Match::wf`], for unverified callers that rebuild
    /// a record from storage before handing it to an operation.
    pub fn is_wf(&self) -> (b: bool)
        ensures
            b == self.wf(),
    {
        let created_ok = !(self.status == MatchStatus::Created && self.player_a_deposited
            && self.player_b_deposited);
        let funded_ok = !(self.status == MatchStatus::Funded) || (self.player_a_deposited
            && self.player_b_deposited);
        let winner_ok = self.winner.is_some() == (self.status == MatchStatus::Resolved);
        let dead_ok = !(self.status == MatchStatus::InProgress) && !(self.status
            == MatchStatus::Cancelled);
        let withdrawn_ok = !self.stakes_withdrawn || self.status == MatchStatus::Resolved;
        let inflow: u128 = (if self.player_a_deposited {
            self.stake_lamports as u128
        } else {
            0
        }) + (if self.player_b_deposited {
            self.stake_lamports as u128
        } else {
            0
        }) + self.total_side_a as u128 + self.total_side_b as u128;
        let committed: u128 = self.vault_lamports as u128 + (if self.stakes_withdrawn {
            2 * (self.stake_lamports as u128)
        } else {
            0
        });
        self.stake_lamports > 0 && created_ok && funded_ok && winner_ok && dead_ok && withdrawn_ok
            && committed <= inflow
    }
}

/// The record of one spectator's wager on one match. There is at most one
/// per (match, bettor) pair; a second bet by the same bettor is rejected
/// rather than merged.
#[derive(Clone, Copy, PartialEq, Eq, Structural, Debug)]
pub struct Participant {
    /// Identifier of the match the bet belongs to.
    pub match_id: u64,
    /// The wallet that placed the bet and may claim its payout.
    pub bettor: AccountId,
    /// The side the bet backs; fixed at placement.
    pub side: Side,
    /// The wagered amount; always positive.
    pub amount: u64,
    /// Whether the payout has already been claimed.
    pub claimed: bool,
}

impl Participant {
    /// Well-formedness of a bet record: placement establishes it.
    pub open spec fn wf(self) -> bool {
        self.amount > 0
    }
}

/// Credits the vault balance, the single checked path by which value enters
/// it. Rejects the credit, changing nothing, if the balance would overflow.
pub fn vault_credit(balance: &mut u64, amount: u64) -> (r: Result<(), CustomError>)
    ensures
        r is Ok <==> *old(balance) + amount <= u64::MAX,
        r is Ok ==> *final(balance) == *old(balance) + amount,
        r is Err ==> *final(balance) == *old(balance) && r == Err::<(), CustomError>(
            CustomError::MathOverflow,
        ),
{
    if *balance > u64::MAX - amount {
        Err(CustomError::MathOverflow)
    } else {
        *balance = *balance + amount;
        Ok(())
    }
}

/// Debits the vault balance, the single checked path by which value leaves
/// it. Rejects the debit, changing nothing, if the balance cannot cover it.
pub fn vault_debit(balance: &mut u64, amount: u64) -> (r: Result<(), CustomError>)
    ensures
        r is Ok <==> amount <= *old(balance),
        r is Ok ==> *final(balance) == *old(balance) - amount,
        r is Err ==> *final(balance) == *old(balance) && r == Err::<(), CustomError>(
            CustomError::MathOverflow,
        ),
{
    if amount > *balance {
        Err(CustomError::MathOverflow)
    } else {
        *balance = *balance - amount;
        Ok(())
    }
}

} // verus!
