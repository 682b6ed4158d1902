//! The dice hand: a fixed multiset of five dice, with full and selective
//! rerolling. Order is insignificant for scoring but gives each die a stable
//! position 0..=4 that a reroll can address.

use vstd::prelude::*;
use rand::Rng;

use crate::errors::GameError;
use crate::score::valid_dice;
use crate::score::valid_die;

verus! {

/// Relies on rand::thread_rng and rand::Rng::gen_range: sampling the
/// non-empty inclusive range 1..=6 returns a value inside that range.
#[verifier::external_body]
fn random_die() -> (r: u8)
    ensures
        valid_die(r),
{
    let mut rng = rand::thread_rng();
    rng.gen_range(1..=6)
}

/// A hand of exactly five dice, each showing a face from 1 to 6.
pub struct DiceHand {
    dice: Vec<u8>,
}

impl View for DiceHand {
    type V = Seq<u8>;

    closed spec fn view(&self) -> Seq<u8> {
        self.dice@
    }
}

impl DiceHand {
    /// The hand always holds five valid dice.
    pub open spec fn wf(&self) -> bool {
        valid_dice(self@)
    }

    /// A fresh hand; every die starts at face 1 until the first roll.
    pub fn new_hand() -> (h: DiceHand)
        ensures
            h.wf(),
            forall|i: int| 0 <= i < 5 ==> h@[i] == 1,
    {
        let mut dice: Vec<u8> = Vec::new();
        dice.push(1);
        dice.push(1);
        dice.push(1);
        dice.push(1);
        dice.push(1);
        DiceHand { dice }
    }

    /// A hand with the given faces, or `None` when the values are not
    /// exactly five faces in 1..=6.
    pub fn from_values(values: &Vec<u8>) -> (r: Option<DiceHand>)
        ensures
            r is Some <==> valid_dice(values@),
            r matches Some(h) ==> h.wf() && h@ == values@,
    {
        if values.len() != 5 {
            return None;
        }
        let mut i: usize = 0;
        while i < 5
            invariant
                i <= 5,
                values@.len() == 5,
                forall|j: int| 0 <= j < i ==> valid_die(values@[j]),
            decreases 5 - i,
        {
            let d = values[i];
            if d < 1 || d > 6 {
                return None;
            }
            i = i + 1;
        }
        let mut dice: Vec<u8> = Vec::new();
        let mut k: usize = 0;
        while k < 5
            invariant
                k <= 5,
                values@.len() == 5,
                dice@ == values@.take(k as int),
            decreases 5 - k,
        {
            dice.push(values[k]);
            proof {
                assert(dice@ =~= values@.take(k as int + 1));
            }
            k = k + 1;
        }
        proof {
            assert(dice@ =~= values@);
        }
        Some(DiceHand { dice })
    }

    /// The face at position `i`.
    pub fn get(&self, i: usize) -> (d: u8)
        requires
            self.wf(),
            i < 5,
        ensures
            d == self@[i as int],
    {
        self.dice[i]
    }

    /// All five faces, in position order.
    pub fn values(&self) -> (r: Vec<u8>)
        requires
            self.wf(),
        ensures
            r@ == self@,
    {
        let mut r: Vec<u8> = Vec::new();
        let mut i: usize = 0;
        while i < 5
            invariant
                self.wf(),
                i <= 5,
                r@ == self@.take(i as int),
            decreases 5 - i,
        {
            r.push(self.dice[i]);
            proof {
                assert(r@ =~= self@.take(i as int + 1));
            }
            i = i + 1;
        }
        proof {
            assert(r@ =~= self@);
        }
        r
    }

    /// Assigns every position an independent random face in 1..=6.
    pub fn roll_all(&mut self)
        requires
            old(self).wf(),
        ensures
            final(self).wf(),
    {
        let mut i: usize = 0;
        while i < 5
            invariant
                self.wf(),
                i <= 5,
            decreases 5 - i,
        {
            let d = random_die();
            self.dice[i] = d;
            i = i + 1;
        }
    }

    /// Rerolls exactly the named positions; every position outside 0..=4 is
    /// rejected and then no die changes.
    pub fn reroll(&mut self, positions: &Vec<usize>) -> (r: Result<(), GameError>)
        requires
            old(self).wf(),
        ensures
            final(self).wf(),
            r is Err <==> exists|i: int| 0 <= i < positions@.len() && positions@[i] >= 5,
            r is Err ==> r == Err::<(), GameError>(GameError::InvalidDieIndex) && *final(self)
                == *old(self),
            r is Ok ==> forall|j: int|
                0 <= j < 5 && !positions@.contains(j as usize) ==> final(self)@[j] == old(self)@[j],
    {
        let mut i: usize = 0;
        while i < positions.len()
            invariant
                *self == *old(self),
                self.wf(),
                i <= positions@.len(),
                forall|k: int| 0 <= k < i ==> positions@[k] < 5,
            decreases positions@.len() - i,
        {
            if positions[i] >= 5 {
                return Err(GameError::InvalidDieIndex);
            }
            i = i + 1;
        }
        let mut k: usize = 0;
        while k < positions.len()
            invariant
                self@.len() == 5,
                old(self)@.len() == 5,
                k <= positions@.len(),
                forall|m: int| 0 <= m < positions@.len() ==> positions@[m] < 5,
                forall|i2: int| 0 <= i2 < 5 ==> valid_die(self@[i2]),
                forall|j: int|
                    0 <= j < 5 && !positions@.contains(j as usize) ==> self@[j] == old(self)@[j],
            decreases positions@.len() - k,
        {
            let p = positions[k];
            let d = random_die();
            self.dice[p] = d;
            proof {
                assert(positions@.contains(p));
            }
            k = k + 1;
        }
        Ok(())
    }
}

} // verus!
