use vstd::prelude::*;

use crate::errors::CustomError;
use crate::lifecycle::{
    claim_bet_payout, claim_err, claim_ok_match, claim_share, claimed_bet, new_bet, place_bet,
    place_bet_err, place_bet_ok_match,
};
use crate::state::{AccountId, Match, Participant, Side};

verus! {

/// How the keyed bet store refuses a bet.
#[derive(Clone, Copy, PartialEq, Eq, Structural, Debug)]
pub enum BetBookError {
    /// A bet record for this (match, bettor) pair already exists; a second
    /// bet by the same bettor is rejected rather than merged.
    DuplicateBet,
    /// The engine refused the bet itself.
    Rejected(CustomError),
}

/// The store of one match's bet records. The host ledger derives one record
/// address per (match, bettor) pair; this store reproduces that uniqueness
/// guarantee: it never holds two records of the same bettor.
pub struct BetBook {
    bets: Vec<Participant>,
}

impl View for BetBook {
    type V = Seq<Participant>;

    closed spec fn view(&self) -> Seq<Participant> {
        self.bets@
    }
}

impl BetBook {
    /// Uniqueness: no two records share a bettor.
    pub open spec fn wf(self) -> bool {
        forall|i: int, j: int|
            0 <= i < j < self@.len() ==> (#[trigger] self@[i]).bettor != (#[trigger] self@[j]).bettor
    }

    /// Whether some record belongs to `bettor`.
    pub open spec fn has_bet(self, bettor: AccountId) -> bool {
        exists|i: int| 0 <= i < self@.len() && (#[trigger] self@[i]).bettor == bettor
    }

    /// An empty store for a new match.
    pub fn new() -> (r: BetBook)
        ensures
            r@ == Seq::<Participant>::empty(),
            r.wf(),
    {
        BetBook { bets: Vec::new() }
    }

    /// How many bet records the store holds.
    pub fn len(&self) -> (n: usize)
        ensures
            n == self@.len(),
    {
        self.bets.len()
    }

    /// The bet record at index `i`.
    pub fn bet_at(&self, i: usize) -> (p: Participant)
        requires
            i < self@.len(),
        ensures
            p == self@[i as int],
    {
        self.bets[i]
    }

    /// The index of `bettor`'s record, if one exists.
    pub fn find_bet(&self, bettor: AccountId) -> (r: Option<usize>)
        ensures
            r matches Some(i) ==> i < self@.len() && self@[i as int].bettor == bettor,
            r is None <==> !self.has_bet(bettor),
    {
        let mut i: usize = 0;
        while i < self.bets.len()
            invariant
                i <= self@.len(),
                forall|j: int| 0 <= j < i ==> (#[trigger] self@[j]).bettor != bettor,
            decreases self@.len() - i,
        {
            if self.bets[i].bettor == bettor {
                return Some(i);
            }
            i = i + 1;
        }
        None
    }

    /// Places a bet through the store: refused outright as a duplicate if
    /// this bettor already holds a record, otherwise handed to the engine,
    /// whose new record is kept under this bettor's key.
    pub fn place_bet(
        &mut self,
        m: &mut Match,
        bettor: AccountId,
        side: Side,
        amount: u64,
        now: i64,
    ) -> (r: Result<(), BetBookError>)
        requires
            old(self).wf(),
            old(m).wf(),
        ensures
            final(self).wf(),
            final(m).wf(),
            r is Ok <==> !old(self).has_bet(bettor) && place_bet_err(*old(m), side, amount, now)
                is None,
            old(self).has_bet(bettor) ==> r == Err::<(), BetBookError>(BetBookError::DuplicateBet)
                && *final(m) == *old(m) && final(self)@ == old(self)@,
            !old(self).has_bet(bettor) ==> (match place_bet_err(*old(m), side, amount, now) {
                Some(e) => r == Err::<(), BetBookError>(BetBookError::Rejected(e)) && *final(m)
                    == *old(m) && final(self)@ == old(self)@,
                None => r is Ok && *final(m) == place_bet_ok_match(*old(m), side, amount)
                    && final(self)@ == old(self)@.push(new_bet(*old(m), bettor, side, amount)),
            }),
    {
        match self.find_bet(bettor) {
            Some(_) => Err(BetBookError::DuplicateBet),
            None => {
                match place_bet(m, bettor, side, amount, now) {
                    Ok(p) => {
                        self.bets.push(p);
                        proof {
                            let s = self.bets@;
                            assert forall|i: int, j: int| 0 <= i < j < s.len() implies (
                            #[trigger] s[i]).bettor != (#[trigger] s[j]).bettor by {
                                if j < s.len() - 1 {
                                    assert(old(self)@[i].bettor != old(self)@[j].bettor);
                                } else {
                                    assert(s[i] == old(self)@[i]);
                                }
                            }
                        }
                        Ok(())
                    },
                    Err(e) => Err(BetBookError::Rejected(e)),
                }
            },
        }
    }

    /// Claims the payout of the bet record at index `i` on behalf of
    /// `caller`, handing the record to the engine and storing it back.
    pub fn claim_bet_at(&mut self, m: &mut Match, i: usize, caller: AccountId) -> (r: Result<
        u64,
        CustomError,
    >)
        requires
            old(self).wf(),
            old(m).wf(),
            i < old(self)@.len(),
        ensures
            final(self).wf(),
            final(m).wf(),
            r is Ok <==> claim_err(*old(m), old(self)@[i as int], caller) is None,
            r matches Err(e) ==> Some(e) == claim_err(*old(m), old(self)@[i as int], caller)
                && *final(m) == *old(m) && final(self)@ == old(self)@,
            r is Ok ==> *final(m) == claim_ok_match(*old(m), old(self)@[i as int]) && final(self)@
                == old(self)@.update(i as int, claimed_bet(old(self)@[i as int])),
            r matches Ok(paid) ==> paid == claim_share(*old(m), old(self)@[i as int]),
    {
        let mut p = self.bets[i];
        let r = claim_bet_payout(m, &mut p, caller);
        match r {
            Ok(v) => {
                self.bets.remove(i);
                self.bets.insert(i, p);
                proof {
                    assert(self.bets@ =~= old(self)@.update(i as int, p));
                    let s = self.bets@;
                    assert forall|a: int, b: int| 0 <= a < b < s.len() implies (
                    #[trigger] s[a]).bettor != (#[trigger] s[b]).bettor by {
                        assert(s[a].bettor == old(self)@[a].bettor);
                        assert(s[b].bettor == old(self)@[b].bettor);
                    }
                }
                Ok(v)
            },
            Err(e) => Err(e),
        }
    }
}

} // verus!
