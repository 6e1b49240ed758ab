use vstd::prelude::*;

use crate::errors::CustomError;
use crate::payout::{compute_share, share};
use crate::state::{vault_credit, vault_debit, AccountId, Match, MatchStatus, Participant, Side};

verus! {

/// No-op initialization, part of the operation set for compatibility; it
/// decides and changes nothing.
pub fn initialize() -> (r: Result<(), CustomError>)
    ensures
        r is Ok,
{
    Ok(())
}

/// Why creating a match with these parameters is refused, or `None` if it
/// succeeds: the deadline must lie strictly in the future and the stake
/// must be positive.
pub open spec fn create_err(stake_lamports: u64, deadline: i64, now: i64) -> Option<CustomError> {
    if deadline <= now {
        Some(CustomError::InvalidDeadline)
    } else if stake_lamports == 0 {
        Some(CustomError::InvalidStake)
    } else {
        None
    }
}

/// The freshly allocated match record: status `Created`, both pools zero,
/// both deposit flags false, no winner, stakes not withdrawn, empty vault.
pub open spec fn created_match(
    arbiter: AccountId,
    player_a: AccountId,
    player_b: AccountId,
    id: u64,
    stake_lamports: u64,
    deadline: i64,
) -> Match {
    Match {
        arbiter,
        player_a,
        player_b,
        stake_lamports,
        total_side_a: 0,
        total_side_b: 0,
        deadline,
        status: MatchStatus::Created,
        winner: None,
        id,
        player_a_deposited: false,
        player_b_deposited: false,
        stakes_withdrawn: false,
        vault_lamports: 0,
    }
}

/// Creates a new match whose record will custody all subsequent value.
/// `now` is the current instant as the time oracle reports it.
pub fn create_match(
    arbiter: AccountId,
    player_a: AccountId,
    player_b: AccountId,
    id: u64,
    stake_lamports: u64,
    deadline: i64,
    now: i64,
) -> (r: Result<Match, CustomError>)
    ensures
        r is Ok <==> create_err(stake_lamports, deadline, now) is None,
        r is Ok <==> now < deadline && stake_lamports > 0,
        r matches Err(e) ==> Some(e) == create_err(stake_lamports, deadline, now),
        r matches Ok(m) ==> m == created_match(
            arbiter,
            player_a,
            player_b,
            id,
            stake_lamports,
            deadline,
        ),
        r matches Ok(m) ==> m.wf() && m.status is Created && m.total_side_a == 0
            && m.total_side_b == 0 && !m.player_a_deposited && !m.player_b_deposited
            && m.winner is None && !m.stakes_withdrawn && m.vault_lamports == 0,
{
    if deadline <= now {
        return Err(CustomError::InvalidDeadline);
    }
    if stake_lamports == 0 {
        return Err(CustomError::InvalidStake);
    }
    Ok(
        Match {
            arbiter,
            player_a,
            player_b,
            stake_lamports,
            total_side_a: 0,
            total_side_b: 0,
            deadline,
            status: MatchStatus::Created,
            winner: None,
            id,
            player_a_deposited: false,
            player_b_deposited: false,
            stakes_withdrawn: false,
            vault_lamports: 0,
        },
    )
}

/// Why `caller` depositing its stake into `m` is refused, or `None` if it
/// succeeds: the match must still accept deposits, the caller must be a
/// configured principal that has not deposited yet, and the vault must be
/// able to hold the stake.
pub open spec fn join_err(m: Match, caller: AccountId) -> Option<CustomError> {
    if !m.accepting() {
        Some(CustomError::InvalidStatus)
    } else if caller == m.player_a {
        if m.player_a_deposited {
            Some(CustomError::AlreadyDeposited)
        } else if m.vault_lamports + m.stake_lamports > u64::MAX {
            Some(CustomError::MathOverflow)
        } else {
            None
        }
    } else if caller == m.player_b {
        if m.player_b_deposited {
            Some(CustomError::AlreadyDeposited)
        } else if m.vault_lamports + m.stake_lamports > u64::MAX {
            Some(CustomError::MathOverflow)
        } else {
            None
        }
    } else {
        Some(CustomError::NotAPlayer)
    }
}

/// The match after a successful deposit by `caller`: the stake has moved
/// into the vault, the caller's flag is set, and the status advances to
/// `Funded` exactly when both flags are now set.
pub open spec fn join_ok_state(m: Match, caller: AccountId) -> Match {
    let a = m.player_a_deposited || caller == m.player_a;
    let b = m.player_b_deposited || (caller != m.player_a && caller == m.player_b);
    Match {
        vault_lamports: (m.vault_lamports + m.stake_lamports) as u64,
        player_a_deposited: a,
        player_b_deposited: b,
        status: if a && b {
            MatchStatus::Funded
        } else {
            m.status
        },
        ..m
    }
}

/// A configured principal deposits its stake into the vault. The deposit
/// is atomic: if anything is refused, nothing changes.
pub fn join_as_player(m: &mut Match, caller: AccountId) -> (r: Result<(), CustomError>)
    requires
        old(m).wf(),
    ensures
        final(m).wf(),
        r is Ok <==> join_err(*old(m), caller) is None,
        r matches Err(e) ==> Some(e) == join_err(*old(m), caller) && *final(m) == *old(m),
        r is Ok ==> *final(m) == join_ok_state(*old(m), caller),
        r is Ok ==> (final(m).status is Funded <==> final(m).player_a_deposited
            && final(m).player_b_deposited),
        r is Ok ==> final(m).vault_lamports == old(m).vault_lamports + old(m).stake_lamports,
{
    if !(m.status == MatchStatus::Created || m.status == MatchStatus::Funded) {
        return Err(CustomError::InvalidStatus);
    }
    let is_player_a: bool;
    if caller == m.player_a {
        if m.player_a_deposited {
            return Err(CustomError::AlreadyDeposited);
        }
        is_player_a = true;
    } else if caller == m.player_b {
        if m.player_b_deposited {
            return Err(CustomError::AlreadyDeposited);
        }
        is_player_a = false;
    } else {
        return Err(CustomError::NotAPlayer);
    }
    let stake = m.stake_lamports;
    match vault_credit(&mut m.vault_lamports, stake) {
        Ok(_) => {},
        Err(e) => {
            return Err(e);
        },
    }
    if is_player_a {
        m.player_a_deposited = true;
    } else {
        m.player_b_deposited = true;
    }
    if m.player_a_deposited && m.player_b_deposited {
        m.status = MatchStatus::Funded;
    }
    Ok(())
}

/// The pooled total backing `side`.
pub open spec fn side_total(m: Match, side: Side) -> u64 {
    if side == Side::PlayerA {
        m.total_side_a
    } else {
        m.total_side_b
    }
}

/// Why a bet of `amount` on `side` at instant `now` is refused, or `None`
/// if it succeeds: the amount must be positive, the match must still
/// accept bets, the deadline must not have been reached, and neither the
/// side's pool nor the vault may overflow.
pub open spec fn place_bet_err(m: Match, side: Side, amount: u64, now: i64) -> Option<
    CustomError,
> {
    if amount == 0 {
        Some(CustomError::InvalidAmount)
    } else if !m.accepting() {
        Some(CustomError::InvalidStatus)
    } else if now >= m.deadline {
        Some(CustomError::BetsClosed)
    } else if side_total(m, side) + amount > u64::MAX {
        Some(CustomError::MathOverflow)
    } else if m.vault_lamports + amount > u64::MAX {
        Some(CustomError::MathOverflow)
    } else {
        None
    }
}

/// The match after a successful bet: the wagered amount has moved into the
/// vault and exactly the chosen side's pool has grown by it.
pub open spec fn place_bet_ok_match(m: Match, side: Side, amount: u64) -> Match {
    if side == Side::PlayerA {
        Match {
            total_side_a: (m.total_side_a + amount) as u64,
            vault_lamports: (m.vault_lamports + amount) as u64,
            ..m
        }
    } else {
        Match {
            total_side_b: (m.total_side_b + amount) as u64,
            vault_lamports: (m.vault_lamports + amount) as u64,
            ..m
        }
    }
}

/// The freshly allocated bet record of a successful bet.
pub open spec fn new_bet(m: Match, bettor: AccountId, side: Side, amount: u64) -> Participant {
    Participant { match_id: m.id, bettor, side, amount, claimed: false }
}

/// A spectator wagers `amount` on `side`, strictly before the deadline.
/// On success the amount moves into the vault, the chosen side's pool
/// grows by exactly `amount`, and the new bet record is returned. One
/// record exists per (match, bettor) pair; the keyed store that rejects a
/// second record for the same pair is [`crate::book::BetBook`].
pub fn place_bet(m: &mut Match, bettor: AccountId, side: Side, amount: u64, now: i64) -> (r:
    Result<Participant, CustomError>)
    requires
        old(m).wf(),
    ensures
        final(m).wf(),
        r is Ok <==> place_bet_err(*old(m), side, amount, now) is None,
        r matches Err(e) ==> Some(e) == place_bet_err(*old(m), side, amount, now) && *final(m)
            == *old(m),
        r is Ok ==> *final(m) == place_bet_ok_match(*old(m), side, amount),
        r matches Ok(p) ==> p == new_bet(*old(m), bettor, side, amount) && p.wf(),
        final(m).total_side_a >= old(m).total_side_a,
        final(m).total_side_b >= old(m).total_side_b,
        r is Ok && side == Side::PlayerA ==> final(m).total_side_a == old(m).total_side_a
            + amount && final(m).total_side_b == old(m).total_side_b,
        r is Ok && side == Side::PlayerB ==> final(m).total_side_b == old(m).total_side_b
            + amount && final(m).total_side_a == old(m).total_side_a,
{
    if amount == 0 {
        return Err(CustomError::InvalidAmount);
    }
    if !(m.status == MatchStatus::Created || m.status == MatchStatus::Funded) {
        return Err(CustomError::InvalidStatus);
    }
    if now >= m.deadline {
        return Err(CustomError::BetsClosed);
    }
    let current_side_total = if side == Side::PlayerA {
        m.total_side_a
    } else {
        m.total_side_b
    };
    if current_side_total > u64::MAX - amount {
        return Err(CustomError::MathOverflow);
    }
    match vault_credit(&mut m.vault_lamports, amount) {
        Ok(_) => {},
        Err(e) => {
            return Err(e);
        },
    }
    if side == Side::PlayerA {
        m.total_side_a = m.total_side_a + amount;
    } else {
        m.total_side_b = m.total_side_b + amount;
    }
    Ok(Participant { match_id: m.id, bettor, side, amount, claimed: false })
}

/// Why declaring `winner` at instant `now` is refused, or `None` if it
/// succeeds: only the arbiter may declare, only from an unresolved status,
/// at most once, and never before the deadline.
pub open spec fn declare_err(m: Match, caller: AccountId, now: i64) -> Option<CustomError> {
    if caller != m.arbiter {
        Some(CustomError::NotArbiter)
    } else if !(m.status is Created || m.status is Funded || m.status is InProgress) {
        Some(CustomError::InvalidStatus)
    } else if m.winner is Some {
        Some(CustomError::AlreadyResolved)
    } else if now < m.deadline {
        Some(CustomError::TooEarly)
    } else {
        None
    }
}

/// The match after a successful declaration: the winner is set and the
/// status is `Resolved`, the only path that ever reaches it.
pub open spec fn declare_ok_match(m: Match, winner: Side) -> Match {
    Match { winner: Some(winner), status: MatchStatus::Resolved, ..m }
}

/// The arbiter declares the winning side once the deadline has passed.
/// No value moves; the match becomes `Resolved`, terminally.
pub fn declare_winner(m: &mut Match, caller: AccountId, winner: Side, now: i64) -> (r: Result<
    (),
    CustomError,
>)
    requires
        old(m).wf(),
    ensures
        final(m).wf(),
        r is Ok <==> declare_err(*old(m), caller, now) is None,
        r matches Err(e) ==> Some(e) == declare_err(*old(m), caller, now) && *final(m) == *old(m),
        r is Ok ==> *final(m) == declare_ok_match(*old(m), winner),
        r is Ok ==> final(m).status is Resolved && final(m).winner == Some(winner),
        now < old(m).deadline ==> r is Err,
{
    if !(caller == m.arbiter) {
        return Err(CustomError::NotArbiter);
    }
    if !(m.status == MatchStatus::Created || m.status == MatchStatus::Funded || m.status
        == MatchStatus::InProgress) {
        return Err(CustomError::InvalidStatus);
    }
    if m.winner.is_some() {
        return Err(CustomError::AlreadyResolved);
    }
    if now < m.deadline {
        return Err(CustomError::TooEarly);
    }
    m.winner = Some(winner);
    m.status = MatchStatus::Resolved;
    Ok(())
}

/// Why `caller` withdrawing the combined stakes is refused, or `None` if
/// it succeeds: the match must be resolved, the caller must be the winning
/// principal, the stakes must not have been withdrawn yet, the doubled
/// stake must fit the stored width, and the vault must cover it.
pub open spec fn withdraw_err(m: Match, caller: AccountId) -> Option<CustomError> {
    if !(m.status is Resolved) {
        Some(CustomError::InvalidStatus)
    } else if m.winner is None {
        Some(CustomError::NoWinner)
    } else if !m.is_winning_principal(caller) {
        Some(CustomError::NotWinnerPlayer)
    } else if m.stakes_withdrawn {
        Some(CustomError::StakesAlreadyWithdrawn)
    } else if 2 * m.stake_lamports > u64::MAX {
        Some(CustomError::MathOverflow)
    } else if m.vault_lamports < 2 * m.stake_lamports {
        Some(CustomError::MathOverflow)
    } else {
        None
    }
}

/// The match after the winning principal withdrew both stakes.
pub open spec fn withdraw_ok_match(m: Match) -> Match {
    Match {
        vault_lamports: (m.vault_lamports - 2 * m.stake_lamports) as u64,
        stakes_withdrawn: true,
        ..m
    }
}

/// The winning principal withdraws exactly twice the stake from the vault:
/// its own deposit plus the forfeited deposit of the losing principal.
/// Possible exactly once per match.
pub fn withdraw_winner_stake(m: &mut Match, caller: AccountId) -> (r: Result<u64, CustomError>)
    requires
        old(m).wf(),
    ensures
        final(m).wf(),
        r is Ok <==> withdraw_err(*old(m), caller) is None,
        r matches Err(e) ==> Some(e) == withdraw_err(*old(m), caller) && *final(m) == *old(m),
        r is Ok ==> *final(m) == withdraw_ok_match(*old(m)),
        r matches Ok(paid) ==> paid == 2 * old(m).stake_lamports && final(m).vault_lamports
            == old(m).vault_lamports - paid && final(m).stakes_withdrawn,
{
    if !(m.status == MatchStatus::Resolved) {
        return Err(CustomError::InvalidStatus);
    }
    let winner_side = match m.winner {
        Some(s) => s,
        None => {
            return Err(CustomError::NoWinner);
        },
    };
    let is_player_a_winner = winner_side == Side::PlayerA && caller == m.player_a;
    let is_player_b_winner = winner_side == Side::PlayerB && caller == m.player_b;
    if !(is_player_a_winner || is_player_b_winner) {
        return Err(CustomError::NotWinnerPlayer);
    }
    if m.stakes_withdrawn {
        return Err(CustomError::StakesAlreadyWithdrawn);
    }
    if m.stake_lamports > u64::MAX / 2 {
        return Err(CustomError::MathOverflow);
    }
    let stakes_total = 2 * m.stake_lamports;
    match vault_debit(&mut m.vault_lamports, stakes_total) {
        Ok(_) => {},
        Err(e) => {
            return Err(e);
        },
    }
    m.stakes_withdrawn = true;
    Ok(stakes_total)
}

/// The share a successful claim on bet `p` pays out of match `m`.
pub open spec fn claim_share(m: Match, p: Participant) -> int {
    share(p.amount as int, m.total_side_a + m.total_side_b, m.winning_side_total() as int)
}

/// Why `caller` claiming the payout of bet `p` is refused, or `None` if it
/// succeeds: the match must be resolved, the bet must back the winning
/// side and belong to the caller, the payout must not have been claimed
/// yet, the winning side must hold bets at all, the combined pool and the
/// narrowed share must fit the stored width, and the vault must cover the
/// share.
pub open spec fn claim_err(m: Match, p: Participant, caller: AccountId) -> Option<CustomError> {
    if !(m.status is Resolved) {
        Some(CustomError::InvalidStatus)
    } else if m.winner is None {
        Some(CustomError::NoWinner)
    } else if m.winner != Some(p.side) {
        Some(CustomError::WrongSide)
    } else if p.bettor != caller {
        Some(CustomError::NotBettor)
    } else if p.claimed {
        Some(CustomError::AlreadyClaimed)
    } else if m.winning_side_total() == 0 {
        Some(CustomError::NoBetsOnWinnerSide)
    } else if m.total_side_a + m.total_side_b > u64::MAX {
        Some(CustomError::MathOverflow)
    } else if claim_share(m, p) > u64::MAX {
        Some(CustomError::MathOverflow)
    } else if claim_share(m, p) > m.vault_lamports {
        Some(CustomError::MathOverflow)
    } else {
        None
    }
}

/// The match after a successful claim: only the vault shrank by the share.
pub open spec fn claim_ok_match(m: Match, p: Participant) -> Match {
    Match { vault_lamports: (m.vault_lamports - claim_share(m, p)) as u64, ..m }
}

/// The bet record after its payout was claimed.
pub open spec fn claimed_bet(p: Participant) -> Participant {
    Participant { claimed: true, ..p }
}

/// A bettor on the winning side claims the proportional floor share of the
/// combined pool: `floor(amount * (total_side_a + total_side_b) /
/// winning_side_total)`. Possible exactly once per bet; because the
/// division floors, rounding dust stays in the vault for good.
pub fn claim_bet_payout(m: &mut Match, p: &mut Participant, caller: AccountId) -> (r: Result<
    u64,
    CustomError,
>)
    requires
        old(m).wf(),
    ensures
        final(m).wf(),
        r is Ok <==> claim_err(*old(m), *old(p), caller) is None,
        r matches Err(e) ==> Some(e) == claim_err(*old(m), *old(p), caller)
            && *final(m) == *old(m) && *final(p) == *old(p),
        r is Ok ==> *final(m) == claim_ok_match(*old(m), *old(p)) && *final(p) == claimed_bet(
            *old(p),
        ),
        r matches Ok(paid) ==> paid == claim_share(*old(m), *old(p)) && final(p).claimed
            && final(m).vault_lamports == old(m).vault_lamports - paid,
{
    if !(m.status == MatchStatus::Resolved) {
        return Err(CustomError::InvalidStatus);
    }
    let winner_side = match m.winner {
        Some(s) => s,
        None => {
            return Err(CustomError::NoWinner);
        },
    };
    if !(p.side == winner_side) {
        return Err(CustomError::WrongSide);
    }
    if !(p.bettor == caller) {
        return Err(CustomError::NotBettor);
    }
    if p.claimed {
        return Err(CustomError::AlreadyClaimed);
    }
    let winning_total = if winner_side == Side::PlayerA {
        m.total_side_a
    } else {
        m.total_side_b
    };
    if winning_total == 0 {
        return Err(CustomError::NoBetsOnWinnerSide);
    }
    if m.total_side_a > u64::MAX - m.total_side_b {
        return Err(CustomError::MathOverflow);
    }
    let pool = m.total_side_a + m.total_side_b;
    let payout = match compute_share(p.amount, pool, winning_total) {
        Ok(v) => v,
        Err(e) => {
            return Err(e);
        },
    };
    match vault_debit(&mut m.vault_lamports, payout) {
        Ok(_) => {},
        Err(e) => {
            return Err(e);
        },
    }
    p.claimed = true;
    Ok(payout)
}

} // verus!
