//! The player ledger: the claims a player has made, the running total, and
//! the end-of-game bonus accounting. The total always equals the sum of the
//! claimed awards, and no category is ever claimed twice.

use vstd::prelude::*;

use crate::dice::DiceHand;
use crate::errors::GameError;
use crate::score::Category;
use crate::score::Score;
use crate::score::claimed_has;
use crate::score::contains_category;
use crate::score::distinct_categories;
use crate::score::is_offer_list;
use crate::score::lemma_distinct_claims_len;
use crate::score::lemma_sum_awards_bounds;
use crate::score::make_score;
use crate::score::mk_score;
use crate::score::offered_categories;
use crate::score::sum_awards;
use crate::score::upper_total;

verus! {

/// One player's standing: name, running total, and the claims made so far.
/// `finalized` records whether the end-of-game bonus was already evaluated.
#[derive(Debug)]
pub struct Player {
    pub name: String,
    pub score: u64,
    pub scores: Vec<Score>,
    pub finalized: bool,
}

impl Player {
    /// The ledger invariant: the running total is exactly the sum of the
    /// claimed awards, and no category appears twice.
    pub open spec fn wf(&self) -> bool {
        &&& self.score == sum_awards(self.scores@)
        &&& distinct_categories(self.scores@)
    }

    /// A fresh player: no claims, zero total, bonus not yet evaluated.
    pub fn new(name: String) -> (p: Player)
        ensures
            p.wf(),
            p.name == name,
            p.score == 0,
            p.scores@.len() == 0,
            !p.finalized,
    {
        Player { name, score: 0, scores: Vec::new(), finalized: false }
    }

    /// Claims `category` for `award` points: the claim is recorded and the
    /// total grows by the award, unless the category is already claimed, in
    /// which case nothing changes and the commit fails.
    pub fn commit(&mut self, category: Category, award: u32) -> (r: Result<(), GameError>)
        requires
            old(self).wf(),
        ensures
            final(self).wf(),
            claimed_has(old(self).scores@, category) ==> {
                &&& r == Err::<(), GameError>(GameError::CategoryAlreadyClaimed)
                &&& *final(self) == *old(self)
            },
            !claimed_has(old(self).scores@, category) ==> {
                &&& r == Ok::<(), GameError>(())
                &&& final(self).scores@ == old(self).scores@.push(mk_score(category, award))
                &&& final(self).score == old(self).score + award
                &&& final(self).name == old(self).name
                &&& final(self).finalized == old(self).finalized
            },
    {
        if contains_category(&self.scores, category) {
            return Err(GameError::CategoryAlreadyClaimed);
        }
        proof {
            lemma_distinct_claims_len(self.scores@);
            lemma_sum_awards_bounds(self.scores@);
        }
        let sc = make_score(category, award);
        self.scores.push(sc);
        self.score = self.score + award as u64;
        proof {
            assert(self.scores@.drop_last() =~= old(self).scores@);
        }
        Ok(())
    }

    /// Claims a ready-made score value; the category and award travel
    /// together. Fails like `commit` when the category is already claimed.
    pub fn update_score(&mut self, sc: Score) -> (r: Result<(), GameError>)
        requires
            old(self).wf(),
        ensures
            final(self).wf(),
            claimed_has(old(self).scores@, sc.spec_category()) ==> {
                &&& r == Err::<(), GameError>(GameError::CategoryAlreadyClaimed)
                &&& *final(self) == *old(self)
            },
            !claimed_has(old(self).scores@, sc.spec_category()) ==> {
                &&& r == Ok::<(), GameError>(())
                &&& final(self).scores@ == old(self).scores@.push(sc)
                &&& final(self).score == old(self).score + sc.spec_award()
                &&& final(self).name == old(self).name
                &&& final(self).finalized == old(self).finalized
            },
    {
        proof {
            assert(mk_score(sc.spec_category(), sc.spec_award()) == sc);
        }
        let c = sc.category();
        let v = sc.award();
        self.commit(c, v)
    }

    /// Every category the player may still claim for `hand`, in the fixed
    /// presentation order, each with the award the rules give it.
    pub fn possible_scores(&self, hand: &DiceHand) -> (r: Vec<Score>)
        requires
            hand.wf(),
        ensures
            is_offer_list(r@, hand@, self.scores@),
    {
        offered_categories(hand, &self.scores)
    }

    /// The player earns the upper-section bonus: the upper claims total at
    /// least 63 and no bonus claim is on record yet.
    pub open spec fn earns_upper_bonus(&self) -> bool {
        upper_total(self.scores@) >= 63 && !claimed_has(self.scores@, Category::UpperSectionBonus)
    }

    /// What end-of-game bonus accounting does: fails once finalized; else
    /// marks the player finalized and, exactly when the bonus is earned,
    /// records it as a synthetic 35-point claim.
    pub open spec fn finalize_post(pre: Player, post: Player, r: Result<
        Option<Score>,
        GameError,
    >) -> bool {
        &&& post.wf()
        &&& pre.finalized ==> {
            &&& r == Err::<Option<Score>, GameError>(GameError::AlreadyFinalized)
            &&& post == pre
        }
        &&& !pre.finalized ==> {
            &&& post.finalized
            &&& post.name == pre.name
        }
        &&& !pre.finalized && pre.earns_upper_bonus() ==> {
            &&& r == Ok::<Option<Score>, GameError>(Some(Score::UpperSectionBonus(35)))
            &&& post.scores@ == pre.scores@.push(Score::UpperSectionBonus(35))
            &&& post.score == pre.score + 35
        }
        &&& !pre.finalized && !pre.earns_upper_bonus() ==> {
            &&& r == Ok::<Option<Score>, GameError>(None)
            &&& post.scores@ == pre.scores@
            &&& post.score == pre.score
        }
    }

    /// End-of-game bonus accounting, evaluated exactly once: when the
    /// upper-section claims total at least 63, a 35-point bonus is recorded
    /// as a synthetic claim; asking a second time fails.
    pub fn finalize(&mut self) -> (r: Result<Option<Score>, GameError>)
        requires
            old(self).wf(),
        ensures
            Player::finalize_post(*old(self), *final(self), r),
    {
        if self.finalized {
            return Err(GameError::AlreadyFinalized);
        }
        self.finalized = true;
        match Score::upper_score_bonus(&self.scores) {
            Some(b) => {
                if contains_category(&self.scores, Category::UpperSectionBonus) {
                    Ok(None)
                } else {
                    let res = self.commit(Category::UpperSectionBonus, 35);
                    match res {
                        Ok(_) => Ok(Some(b)),
                        Err(e) => Err(e),
                    }
                }
            },
            None => Ok(None),
        }
    }

    /// End-of-game accounting under its historical name.
    pub fn endgame(&mut self) -> (r: Result<Option<Score>, GameError>)
        requires
            old(self).wf(),
        ensures
            Player::finalize_post(*old(self), *final(self), r),
    {
        self.finalize()
    }
}

/// Committing a claim marks its category as claimed, so a second commit of
/// the same category must fail and leave the ledger unchanged: exclusivity
/// of claims, stated over the ledger model that `Player::commit` ensures.
pub proof fn lemma_commit_is_exclusive(prior: Seq<Score>, sc: Score)
    ensures
        claimed_has(prior.push(sc), sc.spec_category()),
{
    assert(prior.push(sc)[prior.len() as int] == sc);
}

} // verus!
