use yahtzee::dice::DiceHand;
use yahtzee::errors::GameError;
use yahtzee::player::Player;
use yahtzee::score::Category;
use yahtzee::score::Score;
use yahtzee::turn::Turn;
use yahtzee::turn::TurnInput;
use yahtzee::turn::TurnPhase;

fn hand_of(values: [u8; 5]) -> DiceHand {
    let v: Vec<u8> = vec![values[0], values[1], values[2], values[3], values[4]];
    DiceHand::from_values(&v).unwrap()
}

#[test]
fn from_values_enforces_the_hand_invariant() {
    let short: Vec<u8> = vec![1, 2, 3, 4];
    assert!(DiceHand::from_values(&short).is_none());
    let long: Vec<u8> = vec![1, 2, 3, 4, 5, 6];
    assert!(DiceHand::from_values(&long).is_none());
    let zero: Vec<u8> = vec![0, 2, 3, 4, 5];
    assert!(DiceHand::from_values(&zero).is_none());
    let seven: Vec<u8> = vec![1, 2, 3, 4, 7];
    assert!(DiceHand::from_values(&seven).is_none());
    let good: Vec<u8> = vec![1, 2, 3, 4, 5];
    let hand = DiceHand::from_values(&good).unwrap();
    assert_eq!(hand.values(), good);
}

#[test]
fn rolled_dice_always_show_real_faces() {
    let mut hand = DiceHand::new_hand();
    let mut seen = [false; 7];
    for _ in 0..100 {
        hand.roll_all();
        for d in hand.values() {
            assert!((1..=6).contains(&d));
            seen[d as usize] = true;
        }
    }
    let distinct = seen.iter().filter(|s| **s).count();
    assert!(distinct >= 2);
}

#[test]
fn reroll_changes_only_the_named_positions() {
    let mut hand = hand_of([1, 2, 3, 4, 5]);
    let positions: Vec<usize> = vec![0];
    assert!(hand.reroll(&positions).is_ok());
    let values = hand.values();
    assert!((1..=6).contains(&values[0]));
    assert_eq!(&values[1..], &[2, 3, 4, 5]);
}

#[test]
fn reroll_rejects_out_of_range_positions() {
    let mut hand = hand_of([1, 2, 3, 4, 5]);
    let positions: Vec<usize> = vec![1, 7];
    assert_eq!(hand.reroll(&positions), Err(GameError::InvalidDieIndex));
    assert_eq!(hand.values(), vec![1, 2, 3, 4, 5]);
}

#[test]
fn a_turn_allows_at_most_two_rerolls() {
    let mut turn = Turn::from_hand(hand_of([1, 2, 3, 4, 5]));
    let mut player = Player::new("test".to_owned());
    assert!(advance(&mut turn, &mut player, TurnInput::Reroll(vec![0])).is_ok());
    assert_eq!(turn.rerolls_used, 1);
    assert!(advance(&mut turn, &mut player, TurnInput::Reroll(vec![0, 1])).is_ok());
    assert_eq!(turn.rerolls_used, 2);
    assert_eq!(
        advance(&mut turn, &mut player, TurnInput::Reroll(vec![0])),
        Err(GameError::InvalidSelection)
    );
    assert_eq!(player.score, 0);
}

fn advance(
    turn: &mut Turn,
    player: &mut Player,
    input: TurnInput,
) -> Result<(), GameError> {
    yahtzee::turn::advance_turn(turn, player, input)
}

#[test]
fn an_empty_reroll_request_declines_the_rest() {
    let mut turn = Turn::from_hand(hand_of([1, 2, 3, 4, 5]));
    let mut player = Player::new("test".to_owned());
    assert!(advance(&mut turn, &mut player, TurnInput::Reroll(vec![])).is_ok());
    assert_eq!(turn.rerolls_used, 2);
    assert_eq!(turn.hand.values(), vec![1, 2, 3, 4, 5]);
    assert_eq!(
        advance(&mut turn, &mut player, TurnInput::Reroll(vec![0])),
        Err(GameError::InvalidSelection)
    );
}

#[test]
fn a_bad_die_position_is_its_own_error() {
    let mut turn = Turn::from_hand(hand_of([1, 2, 3, 4, 5]));
    let mut player = Player::new("test".to_owned());
    assert_eq!(
        advance(&mut turn, &mut player, TurnInput::Reroll(vec![5])),
        Err(GameError::InvalidDieIndex)
    );
    assert_eq!(turn.rerolls_used, 0);
    assert_eq!(turn.hand.values(), vec![1, 2, 3, 4, 5]);
}

#[test]
fn selecting_commits_the_award_and_ends_the_turn() {
    let mut turn = Turn::from_hand(hand_of([2, 2, 3, 4, 5]));
    let mut player = Player::new("test".to_owned());
    assert!(advance(&mut turn, &mut player, TurnInput::Select(Category::Chance)).is_ok());
    assert_eq!(turn.phase, TurnPhase::Scored);
    assert_eq!(player.score, 16);
    assert_eq!(player.scores, vec![Score::Chance(16)]);
    assert_eq!(
        advance(&mut turn, &mut player, TurnInput::Select(Category::Aces)),
        Err(GameError::InvalidSelection)
    );
    assert_eq!(player.score, 16);
}

#[test]
fn selecting_a_claimed_category_is_rejected() {
    let mut player = Player::new("test".to_owned());
    assert!(player.commit(Category::Chance, 10).is_ok());
    let mut turn = Turn::from_hand(hand_of([2, 2, 3, 4, 5]));
    assert_eq!(
        advance(&mut turn, &mut player, TurnInput::Select(Category::Chance)),
        Err(GameError::InvalidSelection)
    );
    assert_eq!(turn.phase, TurnPhase::AwaitingDecision);
    assert_eq!(player.score, 10);
    assert_eq!(player.scores.len(), 1);
}

#[test]
fn bonus_categories_are_never_selectable() {
    let mut turn = Turn::from_hand(hand_of([2, 2, 3, 4, 5]));
    let mut player = Player::new("test".to_owned());
    assert_eq!(
        advance(&mut turn, &mut player, TurnInput::Select(Category::UpperSectionBonus)),
        Err(GameError::InvalidSelection)
    );
    assert_eq!(
        advance(&mut turn, &mut player, TurnInput::Select(Category::YahtzeeBonus)),
        Err(GameError::InvalidSelection)
    );
    assert_eq!(player.score, 0);
}

#[test]
fn a_forced_zero_claims_the_category_for_good() {
    let mut turn = Turn::from_hand(hand_of([1, 1, 2, 2, 6]));
    let mut player = Player::new("test".to_owned());
    assert!(advance(&mut turn, &mut player, TurnInput::Select(Category::LargeStraight)).is_ok());
    assert_eq!(player.score, 0);
    assert_eq!(player.scores, vec![Score::LargeStraight(0)]);
    let mut next = Turn::from_hand(hand_of([1, 2, 3, 4, 5]));
    assert_eq!(
        advance(&mut next, &mut player, TurnInput::Select(Category::LargeStraight)),
        Err(GameError::InvalidSelection)
    );
}

#[test]
fn a_repeat_yahtzee_awards_the_bonus_automatically() {
    let mut player = Player::new("test".to_owned());
    assert!(player.commit(Category::Yahtzee, 50).is_ok());
    let mut turn = Turn::from_hand(hand_of([6, 6, 6, 6, 6]));
    assert!(advance(&mut turn, &mut player, TurnInput::Select(Category::Sixes)).is_ok());
    assert_eq!(turn.phase, TurnPhase::Scored);
    assert_eq!(
        player.scores,
        vec![Score::Yahtzee(50), Score::Sixes(30), Score::YahtzeeBonus(150)]
    );
    assert_eq!(player.score, 230);
}

#[test]
fn a_zero_valued_yahtzee_claim_earns_no_repeat_bonus() {
    let mut player = Player::new("test".to_owned());
    assert!(player.commit(Category::Yahtzee, 0).is_ok());
    let mut turn = Turn::from_hand(hand_of([6, 6, 6, 6, 6]));
    assert!(advance(&mut turn, &mut player, TurnInput::Select(Category::Sixes)).is_ok());
    assert_eq!(player.scores, vec![Score::Yahtzee(0), Score::Sixes(30)]);
    assert_eq!(player.score, 30);
}

#[test]
fn the_repeat_bonus_is_awarded_only_once() {
    let mut player = Player::new("test".to_owned());
    assert!(player.commit(Category::Yahtzee, 50).is_ok());
    let mut first = Turn::from_hand(hand_of([6, 6, 6, 6, 6]));
    assert!(advance(&mut first, &mut player, TurnInput::Select(Category::Sixes)).is_ok());
    assert_eq!(player.score, 230);
    let mut second = Turn::from_hand(hand_of([5, 5, 5, 5, 5]));
    assert!(advance(&mut second, &mut player, TurnInput::Select(Category::Fives)).is_ok());
    assert_eq!(
        player.scores,
        vec![
            Score::Yahtzee(50),
            Score::Sixes(30),
            Score::YahtzeeBonus(150),
            Score::Fives(25),
        ]
    );
    assert_eq!(player.score, 255);
}

#[test]
fn an_ordinary_hand_after_a_yahtzee_claim_earns_no_bonus() {
    let mut player = Player::new("test".to_owned());
    assert!(player.commit(Category::Yahtzee, 50).is_ok());
    let mut turn = Turn::from_hand(hand_of([1, 2, 3, 4, 5]));
    assert!(advance(&mut turn, &mut player, TurnInput::Select(Category::Chance)).is_ok());
    assert_eq!(player.scores, vec![Score::Yahtzee(50), Score::Chance(15)]);
    assert_eq!(player.score, 65);
}

#[test]
fn a_full_game_keeps_the_running_total_invariant() {
    let mut player = Player::new("test".to_owned());
    let picks: [Category; 13] = [
        Category::Aces,
        Category::Twos,
        Category::Threes,
        Category::Fours,
        Category::Fives,
        Category::Sixes,
        Category::ThreeOfAKind,
        Category::FourOfAKind,
        Category::FullHouse,
        Category::SmallStraight,
        Category::LargeStraight,
        Category::Chance,
        Category::Yahtzee,
    ];
    let awards: [u64; 13] = [1, 2, 3, 4, 5, 0, 0, 0, 0, 30, 40, 15, 0];
    let mut expected: u64 = 0;
    for round in 0..13 {
        let mut turn = Turn::from_hand(hand_of([1, 2, 3, 4, 5]));
        assert!(advance(&mut turn, &mut player, TurnInput::Select(picks[round])).is_ok());
        assert_eq!(turn.phase, TurnPhase::Scored);
        expected += awards[round];
        assert_eq!(player.score, expected);
        let mut recomputed: u64 = 0;
        for sc in player.scores.iter() {
            recomputed += sc.award() as u64;
        }
        assert_eq!(player.score, recomputed);
    }
    assert_eq!(player.scores.len(), 13);
    assert_eq!(player.score, 100);
    assert!(player.possible_scores(&hand_of([1, 2, 3, 4, 5])).is_empty());
    assert_eq!(player.finalize(), Ok(None));
    assert_eq!(player.score, 100);
}
