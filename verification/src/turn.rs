//! The per-turn state machine: one initial roll, up to two selective
//! rerolls, then exactly one category selection, which commits the award to
//! the player's ledger and ends the turn.

use vstd::prelude::*;

use crate::dice::DiceHand;
use crate::errors::GameError;
use crate::player::Player;
use crate::score::Category;
use crate::score::Score;
use crate::score::awards_repeat_bonus;
use crate::score::category_award;
use crate::score::claimed_has;
use crate::score::contains_category;
use crate::score::contains_nonzero_yahtzee;
use crate::score::has_kind;
use crate::score::is_selectable;
use crate::score::lemma_category_award_bounds;
use crate::score::mk_score;
use crate::score::score_for_category;

verus! {

/// Where a turn stands: still waiting for a reroll or a selection, or
/// already scored (terminal).
#[derive(Clone, Copy, Debug, PartialEq, Eq, Structural)]
pub enum TurnPhase {
    AwaitingDecision,
    Scored,
}

/// What the caller may submit while a turn awaits a decision: a set of die
/// positions to reroll (an empty set declines all further rerolls), or the
/// category that ends the turn.
#[derive(Debug)]
pub enum TurnInput {
    Reroll(Vec<usize>),
    Select(Category),
}

impl TurnInput {
    /// The positions named by a reroll request; empty for a selection.
    pub open spec fn spec_positions(&self) -> Seq<usize> {
        match self {
            TurnInput::Reroll(v) => v@,
            TurnInput::Select(_) => Seq::empty(),
        }
    }

    /// The category named by a selection; immaterial for a reroll.
    pub open spec fn spec_selection(&self) -> Category {
        match self {
            TurnInput::Select(c) => *c,
            TurnInput::Reroll(_) => Category::Aces,
        }
    }
}

/// One turn in progress: the hand being rolled, how many of the two
/// allowed rerolls are spent, and whether the turn has been scored.
pub struct Turn {
    pub hand: DiceHand,
    pub rerolls_used: u8,
    pub phase: TurnPhase,
}

impl Turn {
    /// A turn always holds a well-formed hand and at most two spent
    /// rerolls.
    pub open spec fn wf(&self) -> bool {
        &&& self.hand.wf()
        &&& self.rerolls_used <= 2
    }

    /// Starts a turn by rolling all five dice.
    pub fn begin() -> (t: Turn)
        ensures
            t.wf(),
            t.rerolls_used == 0,
            t.phase is AwaitingDecision,
    {
        let mut hand = DiceHand::new_hand();
        hand.roll_all();
        Turn { hand, rerolls_used: 0, phase: TurnPhase::AwaitingDecision }
    }

    /// Starts a turn from an already-rolled hand, so that a caller in
    /// charge of its own dice (or a test) can drive the machine
    /// deterministically.
    pub fn from_hand(hand: DiceHand) -> (t: Turn)
        requires
            hand.wf(),
        ensures
            t.wf(),
            t.hand == hand,
            t.rerolls_used == 0,
            t.phase is AwaitingDecision,
    {
        Turn { hand, rerolls_used: 0, phase: TurnPhase::AwaitingDecision }
    }
}

/// Drives one turn one step forward. A reroll request names die positions
/// and costs one of the two rerolls (an empty request declines the rest);
/// a selection must name a selectable, unclaimed category and then commits
/// that category's award to the player and ends the turn. Scoring a hand
/// of five equal dice while a non-zero Yahtzee claim is on record also
/// awards the automatic 150-point repeat bonus, once, under the bonus
/// category. Every invalid input leaves both the turn and the player
/// exactly as they were.
pub fn advance_turn(turn: &mut Turn, player: &mut Player, input: TurnInput) -> (r: Result<
    (),
    GameError,
>)
    requires
        old(turn).wf(),
        old(player).wf(),
    ensures
        final(turn).wf(),
        final(player).wf(),
        old(turn).phase is Scored ==> {
            &&& r == Err::<(), GameError>(GameError::InvalidSelection)
            &&& *final(turn) == *old(turn)
            &&& *final(player) == *old(player)
        },
        old(turn).phase is AwaitingDecision && input is Reroll ==> {
            &&& *final(player) == *old(player)
            &&& final(turn).phase is AwaitingDecision
        },
        old(turn).phase is AwaitingDecision && input is Reroll && input.spec_positions().len()
            == 0 ==> {
            &&& r == Ok::<(), GameError>(())
            &&& final(turn).hand == old(turn).hand
            &&& final(turn).rerolls_used == 2
        },
        old(turn).phase is AwaitingDecision && input is Reroll && input.spec_positions().len() > 0
            && old(turn).rerolls_used >= 2 ==> {
            &&& r == Err::<(), GameError>(GameError::InvalidSelection)
            &&& *final(turn) == *old(turn)
        },
        old(turn).phase is AwaitingDecision && input is Reroll && input.spec_positions().len() > 0
            && old(turn).rerolls_used < 2 ==> {
            &&& (r is Err <==> exists|i: int|
                0 <= i < input.spec_positions().len() && input.spec_positions()[i] >= 5)
            &&& r is Err ==> r == Err::<(), GameError>(GameError::InvalidDieIndex) && *final(turn)
                == *old(turn)
            &&& r is Ok ==> {
                &&& final(turn).rerolls_used == old(turn).rerolls_used + 1
                &&& forall|j: int|
                    0 <= j < 5 && !input.spec_positions().contains(j as usize)
                        ==> final(turn).hand@[j] == old(turn).hand@[j]
            }
        },
        old(turn).phase is AwaitingDecision && input is Select ==> {
            &&& final(turn).hand == old(turn).hand
            &&& final(turn).rerolls_used == old(turn).rerolls_used
        },
        old(turn).phase is AwaitingDecision && input is Select && !(is_selectable(
            input.spec_selection(),
        ) && !claimed_has(old(player).scores@, input.spec_selection())) ==> {
            &&& r == Err::<(), GameError>(GameError::InvalidSelection)
            &&& *final(turn) == *old(turn)
            &&& *final(player) == *old(player)
        },
        old(turn).phase is AwaitingDecision && input is Select && is_selectable(
            input.spec_selection(),
        ) && !claimed_has(old(player).scores@, input.spec_selection()) ==> {
            &&& r == Ok::<(), GameError>(())
            &&& final(turn).phase is Scored
            &&& final(player).name == old(player).name
            &&& final(player).finalized == old(player).finalized
            &&& !awards_repeat_bonus(old(turn).hand@, old(player).scores@) ==> {
                &&& final(player).scores@ == old(player).scores@.push(
                    mk_score(
                        input.spec_selection(),
                        category_award(
                            input.spec_selection(),
                            old(turn).hand@,
                            old(player).scores@,
                        ) as u32,
                    ),
                )
                &&& final(player).score == old(player).score + category_award(
                    input.spec_selection(),
                    old(turn).hand@,
                    old(player).scores@,
                )
            }
            &&& awards_repeat_bonus(old(turn).hand@, old(player).scores@) ==> {
                &&& final(player).scores@ == old(player).scores@.push(
                    mk_score(
                        input.spec_selection(),
                        category_award(
                            input.spec_selection(),
                            old(turn).hand@,
                            old(player).scores@,
                        ) as u32,
                    ),
                ).push(Score::YahtzeeBonus(150))
                &&& final(player).score == old(player).score + category_award(
                    input.spec_selection(),
                    old(turn).hand@,
                    old(player).scores@,
                ) + 150
            }
        },
{
    match turn.phase {
        TurnPhase::Scored => Err(GameError::InvalidSelection),
        TurnPhase::AwaitingDecision => match input {
            TurnInput::Reroll(positions) => {
                if positions.len() == 0 {
                    turn.rerolls_used = 2;
                    Ok(())
                } else if turn.rerolls_used >= 2 {
                    Err(GameError::InvalidSelection)
                } else {
                    let res = turn.hand.reroll(&positions);
                    match res {
                        Ok(_) => {
                            turn.rerolls_used = turn.rerolls_used + 1;
                            Ok(())
                        },
                        Err(e) => Err(e),
                    }
                }
            },
            TurnInput::Select(c) => {
                let entry = score_for_category(&turn.hand, &player.scores, c);
                match entry {
                    None => Err(GameError::InvalidSelection),
                    Some(sc) => {
                        proof {
                            lemma_category_award_bounds(c, turn.hand@, player.scores@);
                        }
                        let bonus_due = has_kind(&turn.hand, 5) && contains_nonzero_yahtzee(
                            &player.scores,
                        ) && !contains_category(&player.scores, Category::YahtzeeBonus);
                        let award = sc.award();
                        let res = player.commit(c, award);
                        match res {
                            Ok(_) => {
                                if bonus_due {
                                    proof {
                                        assert(mk_score(c, award).spec_category() == c);
                                    }
                                    let res2 = player.commit(Category::YahtzeeBonus, 150);
                                    match res2 {
                                        Ok(_) => {
                                            turn.phase = TurnPhase::Scored;
                                            Ok(())
                                        },
                                        Err(e) => Err(e),
                                    }
                                } else {
                                    turn.phase = TurnPhase::Scored;
                                    Ok(())
                                }
                            },
                            Err(e) => Err(e),
                        }
                    },
                }
            },
        },
    }
}

} // verus!
