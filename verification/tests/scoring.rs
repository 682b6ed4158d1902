use yahtzee::dice::DiceHand;
use yahtzee::score::Category;
use yahtzee::score::Score;
use yahtzee::score::offered_categories;

fn hand_of(values: [u8; 5]) -> DiceHand {
    let v: Vec<u8> = vec![values[0], values[1], values[2], values[3], values[4]];
    DiceHand::from_values(&v).unwrap()
}

#[test]
fn upper_award_is_face_times_count() {
    let hand = hand_of([1, 1, 2, 2, 2]);
    let prior: Vec<Score> = vec![];
    assert_eq!(Score::upper_score(&hand, &prior, 1), Some(Score::Aces(2)));
    assert_eq!(Score::upper_score(&hand, &prior, 2), Some(Score::Twos(6)));
    assert_eq!(Score::upper_score(&hand, &prior, 3), Some(Score::Threes(0)));
    assert_eq!(Score::upper_score(&hand, &prior, 6), Some(Score::Sixes(0)));
}

#[test]
fn upper_score_rejects_non_faces() {
    let hand = hand_of([1, 1, 2, 2, 2]);
    let prior: Vec<Score> = vec![];
    assert_eq!(Score::upper_score(&hand, &prior, 0), None);
    assert_eq!(Score::upper_score(&hand, &prior, 7), None);
}

#[test]
fn upper_score_withheld_once_claimed() {
    let hand = hand_of([1, 1, 2, 2, 2]);
    let prior: Vec<Score> = vec![Score::Aces(2)];
    assert_eq!(Score::upper_score(&hand, &prior, 1), None);
    assert_eq!(Score::upper_score(&hand, &prior, 2), Some(Score::Twos(6)));
}

#[test]
fn full_house_needs_exactly_three_and_two() {
    let prior: Vec<Score> = vec![];
    let full = hand_of([1, 1, 2, 2, 2]);
    assert_eq!(Score::full_house(&full, &prior), Some(Score::FullHouse(25)));
    let quad = hand_of([1, 1, 1, 1, 2]);
    assert_eq!(Score::full_house(&quad, &prior), Some(Score::FullHouse(0)));
    let yahtzee = hand_of([3, 3, 3, 3, 3]);
    assert_eq!(Score::full_house(&yahtzee, &prior), Some(Score::FullHouse(0)));
}

#[test]
fn small_straight_ignores_duplicates_and_gaps_break_it() {
    let prior: Vec<Score> = vec![];
    let run = hand_of([3, 2, 4, 1, 6]);
    assert_eq!(Score::small_straight(&run, &prior), Some(Score::SmallStraight(30)));
    let no_run = hand_of([1, 2, 2, 3, 3]);
    assert_eq!(Score::small_straight(&no_run, &prior), Some(Score::SmallStraight(0)));
    let dup_run = hand_of([1, 2, 2, 3, 4]);
    assert_eq!(Score::small_straight(&dup_run, &prior), Some(Score::SmallStraight(30)));
    let high_run = hand_of([6, 5, 4, 3, 1]);
    assert_eq!(Score::small_straight(&high_run, &prior), Some(Score::SmallStraight(30)));
}

#[test]
fn large_straight_needs_five_distinct_consecutive() {
    let prior: Vec<Score> = vec![];
    let low = hand_of([1, 2, 3, 4, 5]);
    assert_eq!(Score::large_straight(&low, &prior), Some(Score::LargeStraight(40)));
    let high = hand_of([6, 3, 4, 5, 2]);
    assert_eq!(Score::large_straight(&high, &prior), Some(Score::LargeStraight(40)));
    let dup = hand_of([1, 2, 3, 4, 4]);
    assert_eq!(Score::large_straight(&dup, &prior), Some(Score::LargeStraight(0)));
}

#[test]
fn yahtzee_scores_fifty_then_one_fifty() {
    let hand = hand_of([6, 6, 6, 6, 6]);
    let fresh: Vec<Score> = vec![];
    assert_eq!(Score::yahtzee(&hand, &fresh), Some(Score::Yahtzee(50)));
    let after_scoring: Vec<Score> = vec![Score::Yahtzee(50)];
    assert_eq!(Score::yahtzee(&hand, &after_scoring), Some(Score::YahtzeeBonus(150)));
    let mixed = hand_of([6, 6, 6, 6, 5]);
    assert_eq!(Score::yahtzee(&mixed, &fresh), Some(Score::Yahtzee(0)));
}

#[test]
fn claimed_yahtzee_is_withheld_and_a_zero_claim_unlocks_nothing() {
    let hand = hand_of([4, 4, 4, 4, 4]);
    let after_zero: Vec<Score> = vec![Score::Yahtzee(0)];
    assert_eq!(Score::yahtzee(&hand, &after_zero), None);
    let mixed = hand_of([6, 6, 6, 6, 5]);
    let after_scoring: Vec<Score> = vec![Score::Yahtzee(50)];
    assert_eq!(Score::yahtzee(&mixed, &after_scoring), None);
    assert_eq!(Score::yahtzee(&mixed, &after_zero), None);
}

#[test]
fn three_of_a_kind_takes_whole_sum() {
    let prior: Vec<Score> = vec![];
    let triple = hand_of([1, 1, 1, 3, 6]);
    assert_eq!(Score::three_of_a_kind(&triple, &prior), Some(Score::ThreeOfAKind(12)));
    let pairs = hand_of([1, 1, 2, 2, 3]);
    assert_eq!(Score::three_of_a_kind(&pairs, &prior), Some(Score::ThreeOfAKind(0)));
}

#[test]
fn four_of_a_kind_takes_whole_sum() {
    let prior: Vec<Score> = vec![];
    let quad = hand_of([1, 1, 1, 1, 6]);
    assert_eq!(Score::four_of_a_kind(&quad, &prior), Some(Score::FourOfAKind(10)));
    let triple = hand_of([1, 1, 1, 2, 2]);
    assert_eq!(Score::four_of_a_kind(&triple, &prior), Some(Score::FourOfAKind(0)));
}

#[test]
fn chance_is_the_plain_sum() {
    let prior: Vec<Score> = vec![];
    let hand = hand_of([1, 2, 4, 2, 3]);
    assert_eq!(Score::chance(&hand, &prior), Some(Score::Chance(12)));
}

#[test]
fn offer_list_is_complete_ordered_and_excludes_claims() {
    let hand = hand_of([1, 2, 2, 3, 4]);
    let fresh: Vec<Score> = vec![];
    let offers = offered_categories(&hand, &fresh);
    assert_eq!(
        offers,
        vec![
            Score::Aces(1),
            Score::Twos(4),
            Score::Threes(3),
            Score::Fours(4),
            Score::Fives(0),
            Score::Sixes(0),
            Score::ThreeOfAKind(0),
            Score::FourOfAKind(0),
            Score::FullHouse(0),
            Score::SmallStraight(30),
            Score::LargeStraight(0),
            Score::Chance(12),
            Score::Yahtzee(0),
        ]
    );

    let claimed: Vec<Score> = vec![Score::Twos(4), Score::Yahtzee(0)];
    let offers = offered_categories(&hand, &claimed);
    assert_eq!(offers.len(), 11);
    for offer in offers.iter() {
        assert_ne!(offer.category(), Category::Twos);
        assert_ne!(offer.category(), Category::Yahtzee);
    }
}

#[test]
fn upper_bonus_granted_at_sixty_three() {
    let at_63: Vec<Score> = vec![
        Score::Aces(3),
        Score::Twos(6),
        Score::Threes(9),
        Score::Fours(12),
        Score::Fives(15),
        Score::Sixes(18),
    ];
    assert_eq!(Score::upper_score_bonus(&at_63), Some(Score::UpperSectionBonus(35)));
    let at_62: Vec<Score> = vec![
        Score::Aces(2),
        Score::Twos(6),
        Score::Threes(9),
        Score::Fours(12),
        Score::Fives(15),
        Score::Sixes(18),
    ];
    assert_eq!(Score::upper_score_bonus(&at_62), None);
}

#[test]
fn lower_awards_do_not_feed_the_upper_bonus() {
    let prior: Vec<Score> = vec![Score::Chance(30), Score::LargeStraight(40)];
    assert_eq!(Score::upper_score_bonus(&prior), None);
}
