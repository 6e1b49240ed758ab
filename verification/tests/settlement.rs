use snake_betting::book::{BetBook, BetBookError};
use snake_betting::errors::CustomError;
use snake_betting::lifecycle::{
    claim_bet_payout, create_match, declare_winner, join_as_player, place_bet,
    withdraw_winner_stake,
};
use snake_betting::payout::compute_share;
use snake_betting::state::{AccountId, Match, MatchStatus, Side};

const ARBITER: AccountId = AccountId(1);
const PLAYER_A: AccountId = AccountId(2);
const PLAYER_B: AccountId = AccountId(3);

fn fresh_match() -> Match {
    create_match(ARBITER, PLAYER_A, PLAYER_B, 7, 100, 1_000, 5).unwrap()
}

fn funded_match() -> Match {
    let mut m = fresh_match();
    join_as_player(&mut m, PLAYER_A).unwrap();
    join_as_player(&mut m, PLAYER_B).unwrap();
    m
}

#[test]
fn a_bet_grows_exactly_its_side_of_the_pool() {
    let mut m = funded_match();
    let p = place_bet(&mut m, AccountId(10), Side::PlayerA, 150, 20).unwrap();
    assert_eq!(m.total_side_a, 150);
    assert_eq!(m.total_side_b, 0);
    assert_eq!(m.vault_lamports, 350);
    assert_eq!(p.bettor, AccountId(10));
    assert_eq!(p.side, Side::PlayerA);
    assert_eq!(p.amount, 150);
    assert!(!p.claimed);
    assert_eq!(p.match_id, 7);
    let _ = place_bet(&mut m, AccountId(11), Side::PlayerB, 700, 20).unwrap();
    assert_eq!(m.total_side_a, 150);
    assert_eq!(m.total_side_b, 700);
}

#[test]
fn bets_are_accepted_before_a_deposit_too() {
    let mut m = fresh_match();
    assert!(place_bet(&mut m, AccountId(10), Side::PlayerB, 5, 20).is_ok());
    assert_eq!(m.total_side_b, 5);
}

#[test]
fn a_zero_bet_fails() {
    let mut m = funded_match();
    let r = place_bet(&mut m, AccountId(10), Side::PlayerA, 0, 20);
    assert_eq!(r.unwrap_err(), CustomError::InvalidAmount);
}

#[test]
fn bets_at_or_after_the_deadline_fail() {
    let mut m = funded_match();
    let r = place_bet(&mut m, AccountId(10), Side::PlayerA, 150, 1_000);
    assert_eq!(r.unwrap_err(), CustomError::BetsClosed);
    let r = place_bet(&mut m, AccountId(10), Side::PlayerA, 150, 2_000);
    assert_eq!(r.unwrap_err(), CustomError::BetsClosed);
    assert_eq!(m.total_side_a, 0);
}

#[test]
fn bets_after_resolution_fail() {
    let mut m = funded_match();
    declare_winner(&mut m, ARBITER, Side::PlayerA, 1_000).unwrap();
    let r = place_bet(&mut m, AccountId(10), Side::PlayerA, 150, 2_000);
    assert_eq!(r.unwrap_err(), CustomError::InvalidStatus);
}

#[test]
fn a_pool_that_would_overflow_rejects_the_bet() {
    let mut m = funded_match();
    assert!(place_bet(&mut m, AccountId(10), Side::PlayerA, u64::MAX - 250, 20).is_ok());
    let r = place_bet(&mut m, AccountId(11), Side::PlayerA, 300, 20);
    assert_eq!(r.unwrap_err(), CustomError::MathOverflow);
}

#[test]
fn the_book_rejects_a_second_bet_by_the_same_bettor() {
    let mut m = funded_match();
    let mut book = BetBook::new();
    assert!(book.place_bet(&mut m, AccountId(10), Side::PlayerA, 150, 20).is_ok());
    let r = book.place_bet(&mut m, AccountId(10), Side::PlayerB, 9, 20);
    assert_eq!(r.unwrap_err(), BetBookError::DuplicateBet);
    assert_eq!(book.len(), 1);
    assert_eq!(m.total_side_a, 150);
    assert_eq!(m.total_side_b, 0);
    // a different bettor is still welcome
    assert!(book.place_bet(&mut m, AccountId(11), Side::PlayerB, 9, 20).is_ok());
    assert_eq!(book.len(), 2);
}

#[test]
fn the_book_passes_engine_refusals_through() {
    let mut m = funded_match();
    let mut book = BetBook::new();
    let r = book.place_bet(&mut m, AccountId(10), Side::PlayerA, 0, 20);
    assert_eq!(r.unwrap_err(), BetBookError::Rejected(CustomError::InvalidAmount));
    assert_eq!(book.len(), 0);
}

#[test]
fn winner_stake_withdrawal_pays_exactly_twice_the_stake_once() {
    let mut m = funded_match();
    declare_winner(&mut m, ARBITER, Side::PlayerA, 1_000).unwrap();
    assert_eq!(withdraw_winner_stake(&mut m, PLAYER_A).unwrap(), 200);
    assert!(m.stakes_withdrawn);
    assert_eq!(m.vault_lamports, 0);
    let r = withdraw_winner_stake(&mut m, PLAYER_A);
    assert_eq!(r.unwrap_err(), CustomError::StakesAlreadyWithdrawn);
}

#[test]
fn the_losing_principal_cannot_withdraw() {
    let mut m = funded_match();
    declare_winner(&mut m, ARBITER, Side::PlayerA, 1_000).unwrap();
    let r = withdraw_winner_stake(&mut m, PLAYER_B);
    assert_eq!(r.unwrap_err(), CustomError::NotWinnerPlayer);
    let r = withdraw_winner_stake(&mut m, AccountId(99));
    assert_eq!(r.unwrap_err(), CustomError::NotWinnerPlayer);
}

#[test]
fn withdrawal_needs_a_resolved_match() {
    let mut m = funded_match();
    let r = withdraw_winner_stake(&mut m, PLAYER_A);
    assert_eq!(r.unwrap_err(), CustomError::InvalidStatus);
}

#[test]
fn an_empty_vault_cannot_cover_the_stakes() {
    // resolution is possible with no deposits at all; the withdrawal then
    // fails because the vault cannot cover two stakes
    let mut m = fresh_match();
    declare_winner(&mut m, ARBITER, Side::PlayerA, 1_000).unwrap();
    let r = withdraw_winner_stake(&mut m, PLAYER_A);
    assert_eq!(r.unwrap_err(), CustomError::MathOverflow);
    assert!(!m.stakes_withdrawn);
}

#[test]
fn a_doubled_stake_that_overflows_is_rejected() {
    let mut m = create_match(ARBITER, PLAYER_A, PLAYER_B, 7, u64::MAX, 1_000, 5).unwrap();
    declare_winner(&mut m, ARBITER, Side::PlayerA, 1_000).unwrap();
    let r = withdraw_winner_stake(&mut m, PLAYER_A);
    assert_eq!(r.unwrap_err(), CustomError::MathOverflow);
}

#[test]
fn a_missing_winner_on_a_tampered_record_is_caught() {
    // no operation ever reaches a resolved match without a winner; a
    // hand-built record shows the defensive refusal
    let mut m = funded_match();
    m.status = MatchStatus::Resolved;
    let r = withdraw_winner_stake(&mut m, PLAYER_A);
    assert_eq!(r.unwrap_err(), CustomError::NoWinner);
}

#[test]
fn the_worked_payout_example() {
    // stake 100, side A holds 300, side B holds 700, side A wins: a side-A
    // bettor with amount 150 receives floor(150 * 1000 / 300) = 500
    let mut m = funded_match();
    let mut bet1 = place_bet(&mut m, AccountId(10), Side::PlayerA, 150, 20).unwrap();
    let mut bet2 = place_bet(&mut m, AccountId(11), Side::PlayerA, 150, 20).unwrap();
    place_bet(&mut m, AccountId(12), Side::PlayerB, 700, 20).unwrap();
    assert_eq!(m.total_side_a, 300);
    assert_eq!(m.total_side_b, 700);
    declare_winner(&mut m, ARBITER, Side::PlayerA, 1_000).unwrap();
    assert_eq!(claim_bet_payout(&mut m, &mut bet1, AccountId(10)).unwrap(), 500);
    assert!(bet1.claimed);
    // the second winning bettor gets the same share; together they drain
    // exactly the pool of 1000
    assert_eq!(claim_bet_payout(&mut m, &mut bet2, AccountId(11)).unwrap(), 500);
    assert_eq!(m.vault_lamports, 200);
}

#[test]
fn compute_share_floors() {
    assert_eq!(compute_share(150, 1_000, 300).unwrap(), 500);
    assert_eq!(compute_share(3, 17, 7).unwrap(), 7);
    assert_eq!(compute_share(4, 17, 7).unwrap(), 9);
    // the widened product avoids intermediate overflow
    assert_eq!(compute_share(u64::MAX, 2, u64::MAX).unwrap(), 2);
    // a share beyond the stored width is refused
    assert_eq!(
        compute_share(u64::MAX, u64::MAX, 1).unwrap_err(),
        CustomError::MathOverflow
    );
}

#[test]
fn losing_side_and_strangers_cannot_claim() {
    let mut m = funded_match();
    let mut win = place_bet(&mut m, AccountId(10), Side::PlayerA, 150, 20).unwrap();
    let mut lose = place_bet(&mut m, AccountId(11), Side::PlayerB, 700, 20).unwrap();
    declare_winner(&mut m, ARBITER, Side::PlayerA, 1_000).unwrap();
    let r = claim_bet_payout(&mut m, &mut lose, AccountId(11));
    assert_eq!(r.unwrap_err(), CustomError::WrongSide);
    let r = claim_bet_payout(&mut m, &mut win, AccountId(12));
    assert_eq!(r.unwrap_err(), CustomError::NotBettor);
    // and a claim before resolution fails by status
    let mut early = funded_match();
    let mut bet = place_bet(&mut early, AccountId(10), Side::PlayerA, 150, 20).unwrap();
    let r = claim_bet_payout(&mut early, &mut bet, AccountId(10));
    assert_eq!(r.unwrap_err(), CustomError::InvalidStatus);
}

#[test]
fn a_claim_happens_at_most_once() {
    let mut m = funded_match();
    let mut bet = place_bet(&mut m, AccountId(10), Side::PlayerA, 150, 20).unwrap();
    place_bet(&mut m, AccountId(11), Side::PlayerB, 700, 20).unwrap();
    declare_winner(&mut m, ARBITER, Side::PlayerA, 1_000).unwrap();
    assert_eq!(claim_bet_payout(&mut m, &mut bet, AccountId(10)).unwrap(), 850);
    let r = claim_bet_payout(&mut m, &mut bet, AccountId(10));
    assert_eq!(r.unwrap_err(), CustomError::AlreadyClaimed);
}

#[test]
fn an_unbacked_winning_side_blocks_claims() {
    let mut m = funded_match();
    let mut bet = place_bet(&mut m, AccountId(10), Side::PlayerB, 700, 20).unwrap();
    declare_winner(&mut m, ARBITER, Side::PlayerA, 1_000).unwrap();
    // the only bet backs the losing side; force its side to show the zero
    // division refusal on a tampered record
    bet.side = Side::PlayerA;
    let r = claim_bet_payout(&mut m, &mut bet, AccountId(10));
    assert_eq!(r.unwrap_err(), CustomError::NoBetsOnWinnerSide);
}

#[test]
fn claims_through_the_book() {
    let mut m = funded_match();
    let mut book = BetBook::new();
    book.place_bet(&mut m, AccountId(10), Side::PlayerA, 3, 20).unwrap();
    book.place_bet(&mut m, AccountId(11), Side::PlayerA, 4, 20).unwrap();
    book.place_bet(&mut m, AccountId(12), Side::PlayerB, 10, 20).unwrap();
    declare_winner(&mut m, ARBITER, Side::PlayerA, 1_000).unwrap();
    let i = book.find_bet(AccountId(10)).unwrap();
    assert_eq!(book.claim_bet_at(&mut m, i, AccountId(10)).unwrap(), 7);
    let r = book.claim_bet_at(&mut m, i, AccountId(10));
    assert_eq!(r.unwrap_err(), CustomError::AlreadyClaimed);
    let j = book.find_bet(AccountId(11)).unwrap();
    assert_eq!(book.claim_bet_at(&mut m, j, AccountId(11)).unwrap(), 9);
    assert!(book.find_bet(AccountId(99)).is_none());
}

#[test]
fn rounding_dust_stays_in_the_vault() {
    // deposits: two stakes of 100 and bets 3 + 4 against 10; the winners'
    // floor shares 7 and 9 leave one unit of dust behind for good
    let mut m = funded_match();
    let mut bet1 = place_bet(&mut m, AccountId(10), Side::PlayerA, 3, 20).unwrap();
    let mut bet2 = place_bet(&mut m, AccountId(11), Side::PlayerA, 4, 20).unwrap();
    place_bet(&mut m, AccountId(12), Side::PlayerB, 10, 20).unwrap();
    declare_winner(&mut m, ARBITER, Side::PlayerA, 1_000).unwrap();
    assert_eq!(m.vault_lamports, 217);
    assert_eq!(withdraw_winner_stake(&mut m, PLAYER_A).unwrap(), 200);
    assert_eq!(claim_bet_payout(&mut m, &mut bet1, AccountId(10)).unwrap(), 7);
    assert_eq!(claim_bet_payout(&mut m, &mut bet2, AccountId(11)).unwrap(), 9);
    // everything paid out never exceeded what was deposited
    assert_eq!(m.vault_lamports, 1);
}
