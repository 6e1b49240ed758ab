use vstd::prelude::*;

use crate::errors::CustomError;
use crate::lifecycle::{
    claim_err, claim_ok_match, claimed_bet, declare_err, declare_ok_match, join_err,
    join_ok_state, withdraw_err, withdraw_ok_match,
};
use crate::payout::{amount_sum, lemma_share_sum_le_pool, share_sum};
use crate::state::{AccountId, Match, Participant, Side};

verus! {

/// Law: a principal can deposit at most once. After any successful deposit,
/// a second attempt by the same caller is refused as already deposited,
/// whatever the match's overall status became.
pub proof fn lemma_no_second_deposit(m: Match, caller: AccountId)
    requires
        m.wf(),
        join_err(m, caller) is None,
    ensures
        join_err(join_ok_state(m, caller), caller) == Some(CustomError::AlreadyDeposited),
{
}

/// Law: in every reachable state in which the calling principal's deposit
/// flag is already set, a deposit attempt by that principal is refused,
/// whatever the match's overall status.
pub proof fn lemma_deposit_blocked_once_flagged(m: Match, caller: AccountId)
    requires
        m.wf(),
        (caller == m.player_a && m.player_a_deposited) || (caller != m.player_a && caller
            == m.player_b && m.player_b_deposited),
    ensures
        join_err(m, caller) is Some,
{
}

/// Law: the order of the two principals' deposits is irrelevant. If the
/// two distinct callers can deposit one after the other, they can deposit
/// in the opposite order as well, and both orders end in the same state —
/// in particular the same `Funded` status.
pub proof fn lemma_deposit_order_irrelevant(m: Match, x: AccountId, y: AccountId)
    requires
        m.wf(),
        x != y,
        join_err(m, x) is None,
        join_err(join_ok_state(m, x), y) is None,
    ensures
        join_err(m, y) is None,
        join_err(join_ok_state(m, y), x) is None,
        join_ok_state(join_ok_state(m, x), y) == join_ok_state(join_ok_state(m, y), x),
{
}

/// Law: resolution happens at most once. After a successful declaration the
/// match is `Resolved`, and every further declaration attempt is refused,
/// whoever calls, whatever side they name and whenever they call.
pub proof fn lemma_declare_winner_once(
    m: Match,
    caller: AccountId,
    winner: Side,
    now: i64,
    later_caller: AccountId,
    later_now: i64,
)
    requires
        m.wf(),
        declare_err(m, caller, now) is None,
    ensures
        declare_ok_match(m, winner).status is Resolved,
        declare_err(declare_ok_match(m, winner), later_caller, later_now) is Some,
{
}

/// Law: the combined stakes leave the vault at most once. After a
/// successful withdrawal every further withdrawal attempt is refused,
/// whoever calls.
pub proof fn lemma_withdraw_stake_once(m: Match, caller: AccountId, later_caller: AccountId)
    requires
        m.wf(),
        withdraw_err(m, caller) is None,
    ensures
        withdraw_err(withdraw_ok_match(m), later_caller) is Some,
{
}

/// Law: a bet's payout is claimed at most once. After a successful claim
/// every further claim attempt on the same bet record is refused, whoever
/// calls.
pub proof fn lemma_claim_once(m: Match, p: Participant, caller: AccountId, later_caller: AccountId)
    requires
        m.wf(),
        claim_err(m, p, caller) is None,
    ensures
        claim_err(claim_ok_match(m, p), claimed_bet(p), later_caller) is Some,
{
}

/// Law: conservation. In every reachable match state the value that has
/// left the vault — everything ever credited minus the balance still held —
/// is non-negative, never exceeds what was ever credited, and already
/// covers the stake payout once that has been made.
pub proof fn lemma_conservation(m: Match)
    requires
        m.wf(),
    ensures
        0 <= m.vault_outflow() <= m.vault_inflow(),
        m.stake_payout_made() <= m.vault_outflow(),
{
}

/// Law: across a match's lifetime the payouts stay within the deposits.
/// With both stakes deposited and a winning side that holds bets, the
/// stake payout plus the floor shares of winning bets whose amounts sum to
/// at most the winning side's recorded total never exceed the two stakes
/// plus all pooled bets; the non-negative difference is rounding dust that
/// stays in the vault.
pub proof fn lemma_lifetime_payouts_bounded(m: Match, winning_amounts: Seq<u64>)
    requires
        m.wf(),
        m.player_a_deposited,
        m.player_b_deposited,
        m.winning_side_total() > 0,
        amount_sum(winning_amounts) <= m.winning_side_total(),
    ensures
        2 * m.stake_lamports + share_sum(
            winning_amounts,
            m.total_side_a + m.total_side_b,
            m.winning_side_total() as int,
        ) <= m.vault_inflow(),
{
    lemma_share_sum_le_pool(
        winning_amounts,
        m.total_side_a + m.total_side_b,
        m.winning_side_total() as int,
    );
}

} // verus!
