//! The category rule set: which categories exist, what each one awards for a
//! given hand of dice, and the mathematical model those awards are stated in.

use vstd::prelude::*;

use crate::dice::DiceHand;

verus! {

/// The scoring categories of the game: thirteen that a player may select to
/// end a turn, plus two bonus categories that are never offered for selection
/// and are awarded automatically.
#[derive(Clone, Copy, Debug, PartialEq, Eq, Structural)]
pub enum Category {
    Aces,
    Twos,
    Threes,
    Fours,
    Fives,
    Sixes,
    ThreeOfAKind,
    FourOfAKind,
    FullHouse,
    SmallStraight,
    LargeStraight,
    Chance,
    Yahtzee,
    UpperSectionBonus,
    YahtzeeBonus,
}

/// A claimed (or claimable) score: a category together with the award it
/// carries. An award of 0 is a legitimate value, distinct from a category
/// not being offered at all.
#[derive(Clone, Copy, Debug, PartialEq, Eq, Structural)]
pub enum Score {
    Aces(u32),
    Twos(u32),
    Threes(u32),
    Fours(u32),
    Fives(u32),
    Sixes(u32),
    ThreeOfAKind(u32),
    FourOfAKind(u32),
    FullHouse(u32),
    SmallStraight(u32),
    LargeStraight(u32),
    Chance(u32),
    Yahtzee(u32),
    UpperSectionBonus(u32),
    YahtzeeBonus(u32),
}

impl Score {
    /// The category this score belongs to.
    pub open spec fn spec_category(self) -> Category {
        match self {
            Score::Aces(_) => Category::Aces,
            Score::Twos(_) => Category::Twos,
            Score::Threes(_) => Category::Threes,
            Score::Fours(_) => Category::Fours,
            Score::Fives(_) => Category::Fives,
            Score::Sixes(_) => Category::Sixes,
            Score::ThreeOfAKind(_) => Category::ThreeOfAKind,
            Score::FourOfAKind(_) => Category::FourOfAKind,
            Score::FullHouse(_) => Category::FullHouse,
            Score::SmallStraight(_) => Category::SmallStraight,
            Score::LargeStraight(_) => Category::LargeStraight,
            Score::Chance(_) => Category::Chance,
            Score::Yahtzee(_) => Category::Yahtzee,
            Score::UpperSectionBonus(_) => Category::UpperSectionBonus,
            Score::YahtzeeBonus(_) => Category::YahtzeeBonus,
        }
    }

    /// The award value this score carries.
    pub open spec fn spec_award(self) -> u32 {
        match self {
            Score::Aces(v) => v,
            Score::Twos(v) => v,
            Score::Threes(v) => v,
            Score::Fours(v) => v,
            Score::Fives(v) => v,
            Score::Sixes(v) => v,
            Score::ThreeOfAKind(v) => v,
            Score::FourOfAKind(v) => v,
            Score::FullHouse(v) => v,
            Score::SmallStraight(v) => v,
            Score::LargeStraight(v) => v,
            Score::Chance(v) => v,
            Score::Yahtzee(v) => v,
            Score::UpperSectionBonus(v) => v,
            Score::YahtzeeBonus(v) => v,
        }
    }

    /// The category this score belongs to.
    pub fn category(&self) -> (c: Category)
        ensures
            c == self.spec_category(),
    {
        match self {
            Score::Aces(_) => Category::Aces,
            Score::Twos(_) => Category::Twos,
            Score::Threes(_) => Category::Threes,
            Score::Fours(_) => Category::Fours,
            Score::Fives(_) => Category::Fives,
            Score::Sixes(_) => Category::Sixes,
            Score::ThreeOfAKind(_) => Category::ThreeOfAKind,
            Score::FourOfAKind(_) => Category::FourOfAKind,
            Score::FullHouse(_) => Category::FullHouse,
            Score::SmallStraight(_) => Category::SmallStraight,
            Score::LargeStraight(_) => Category::LargeStraight,
            Score::Chance(_) => Category::Chance,
            Score::Yahtzee(_) => Category::Yahtzee,
            Score::UpperSectionBonus(_) => Category::UpperSectionBonus,
            Score::YahtzeeBonus(_) => Category::YahtzeeBonus,
        }
    }

    /// The award value this score carries.
    pub fn award(&self) -> (v: u32)
        ensures
            v == self.spec_award(),
    {
        match self {
            Score::Aces(v) => *v,
            Score::Twos(v) => *v,
            Score::Threes(v) => *v,
            Score::Fours(v) => *v,
            Score::Fives(v) => *v,
            Score::Sixes(v) => *v,
            Score::ThreeOfAKind(v) => *v,
            Score::FourOfAKind(v) => *v,
            Score::FullHouse(v) => *v,
            Score::SmallStraight(v) => *v,
            Score::LargeStraight(v) => *v,
            Score::Chance(v) => *v,
            Score::Yahtzee(v) => *v,
            Score::UpperSectionBonus(v) => *v,
            Score::YahtzeeBonus(v) => *v,
        }
    }
}

/// The score value that pairs `c` with the award `v`.
pub open spec fn mk_score(c: Category, v: u32) -> Score {
    match c {
        Category::Aces => Score::Aces(v),
        Category::Twos => Score::Twos(v),
        Category::Threes => Score::Threes(v),
        Category::Fours => Score::Fours(v),
        Category::Fives => Score::Fives(v),
        Category::Sixes => Score::Sixes(v),
        Category::ThreeOfAKind => Score::ThreeOfAKind(v),
        Category::FourOfAKind => Score::FourOfAKind(v),
        Category::FullHouse => Score::FullHouse(v),
        Category::SmallStraight => Score::SmallStraight(v),
        Category::LargeStraight => Score::LargeStraight(v),
        Category::Chance => Score::Chance(v),
        Category::Yahtzee => Score::Yahtzee(v),
        Category::UpperSectionBonus => Score::UpperSectionBonus(v),
        Category::YahtzeeBonus => Score::YahtzeeBonus(v),
    }
}

/// The executable pairing of a category with an award value.
pub fn make_score(c: Category, v: u32) -> (s: Score)
    ensures
        s == mk_score(c, v),
{
    match c {
        Category::Aces => Score::Aces(v),
        Category::Twos => Score::Twos(v),
        Category::Threes => Score::Threes(v),
        Category::Fours => Score::Fours(v),
        Category::Fives => Score::Fives(v),
        Category::Sixes => Score::Sixes(v),
        Category::ThreeOfAKind => Score::ThreeOfAKind(v),
        Category::FourOfAKind => Score::FourOfAKind(v),
        Category::FullHouse => Score::FullHouse(v),
        Category::SmallStraight => Score::SmallStraight(v),
        Category::LargeStraight => Score::LargeStraight(v),
        Category::Chance => Score::Chance(v),
        Category::Yahtzee => Score::Yahtzee(v),
        Category::UpperSectionBonus => Score::UpperSectionBonus(v),
        Category::YahtzeeBonus => Score::YahtzeeBonus(v),
    }
}

/// A die shows a face from 1 to 6.
pub open spec fn valid_die(d: u8) -> bool {
    1 <= d <= 6
}

/// A hand holds exactly five dice, each showing a valid face.
pub open spec fn valid_dice(s: Seq<u8>) -> bool {
    &&& s.len() == 5
    &&& forall|i: int| 0 <= i < s.len() ==> valid_die(s[i])
}

/// How many dice of `s` show the face `f`.
pub open spec fn count_face(s: Seq<u8>, f: u8) -> int
    decreases s.len(),
{
    if s.len() == 0 {
        0
    } else {
        count_face(s.drop_last(), f) + if s.last() == f { 1int } else { 0int }
    }
}

/// The sum of all dice in `s`.
pub open spec fn dice_sum(s: Seq<u8>) -> int
    decreases s.len(),
{
    if s.len() == 0 {
        0
    } else {
        dice_sum(s.drop_last()) + s.last()
    }
}

/// Some face appears on at least `n` of the dice.
pub open spec fn has_count_at_least(s: Seq<u8>, n: int) -> bool {
    exists|f: u8| valid_die(f) && count_face(s, f) >= n
}

/// All five dice show one face.
pub open spec fn is_yahtzee_dice(s: Seq<u8>) -> bool {
    has_count_at_least(s, 5)
}

/// Exactly one face appears three times and a different face twice.
pub open spec fn is_full_house(s: Seq<u8>) -> bool {
    exists|f3: u8, f2: u8|
        valid_die(f3) && valid_die(f2) && f3 != f2 && count_face(s, f3) == 3 && count_face(
            s,
            f2,
        ) == 2
}

/// Every face from `lo` to `lo + len - 1` appears on at least one die.
pub open spec fn has_run(s: Seq<u8>, lo: u8, len: int) -> bool {
    forall|f: u8| lo <= f < lo + len ==> count_face(s, f) >= 1
}

/// Four distinct consecutive faces are present among the dice.
pub open spec fn is_small_straight(s: Seq<u8>) -> bool {
    has_run(s, 1, 4) || has_run(s, 2, 4) || has_run(s, 3, 4)
}

/// All five dice show distinct consecutive faces.
pub open spec fn is_large_straight(s: Seq<u8>) -> bool {
    has_run(s, 1, 5) || has_run(s, 2, 5)
}

/// A face's upper-section award: the face value times the number of dice
/// showing it.
pub open spec fn upper_award(s: Seq<u8>, face: u8) -> int {
    face * count_face(s, face)
}

/// The player's earlier claims include a Yahtzee whose award was not zero.
pub open spec fn has_nonzero_yahtzee(prior: Seq<Score>) -> bool {
    exists|i: int|
        0 <= i < prior.len() && #[trigger] prior[i].spec_category() == Category::Yahtzee
            && prior[i].spec_award() != 0
}

/// The Yahtzee award: 50 for a first all-equal hand, 150 when an earlier
/// non-zero Yahtzee claim is on record, 0 when the dice do not qualify.
pub open spec fn yahtzee_award(s: Seq<u8>, prior: Seq<Score>) -> int {
    if is_yahtzee_dice(s) {
        if has_nonzero_yahtzee(prior) {
            150
        } else {
            50
        }
    } else {
        0
    }
}

/// A repeat Yahtzee: the hand shows five of a kind while a non-zero
/// Yahtzee claim is already on record. The category itself is single-claim,
/// so this earns the 150-point bonus under the bonus category instead.
pub open spec fn repeat_yahtzee(dice: Seq<u8>, prior: Seq<Score>) -> bool {
    is_yahtzee_dice(dice) && has_nonzero_yahtzee(prior)
}

/// The repeat bonus is actually due on scoring this hand: the hand is a
/// repeat Yahtzee and the bonus category itself is still unclaimed.
pub open spec fn awards_repeat_bonus(dice: Seq<u8>, prior: Seq<Score>) -> bool {
    repeat_yahtzee(dice, prior) && !claimed_has(prior, Category::YahtzeeBonus)
}

/// A category of `c` is already among the claims `prior`.
pub open spec fn claimed_has(prior: Seq<Score>, c: Category) -> bool {
    exists|i: int| 0 <= i < prior.len() && prior[i].spec_category() == c
}

/// The position of `c` in the fixed presentation order of categories.
pub open spec fn cat_index(c: Category) -> int {
    match c {
        Category::Aces => 0,
        Category::Twos => 1,
        Category::Threes => 2,
        Category::Fours => 3,
        Category::Fives => 4,
        Category::Sixes => 5,
        Category::ThreeOfAKind => 6,
        Category::FourOfAKind => 7,
        Category::FullHouse => 8,
        Category::SmallStraight => 9,
        Category::LargeStraight => 10,
        Category::Chance => 11,
        Category::Yahtzee => 12,
        Category::UpperSectionBonus => 13,
        Category::YahtzeeBonus => 14,
    }
}

/// Whether a player may select `c` to end a turn. The two bonus categories
/// are awarded automatically and never selected.
pub open spec fn is_selectable(c: Category) -> bool {
    c != Category::UpperSectionBonus && c != Category::YahtzeeBonus
}

/// The upper-section category of a face, for faces 1..=6.
pub open spec fn upper_category(face: u8) -> Category {
    match face {
        1u8 => Category::Aces,
        2u8 => Category::Twos,
        3u8 => Category::Threes,
        4u8 => Category::Fours,
        5u8 => Category::Fives,
        _ => Category::Sixes,
    }
}

/// The six upper-section categories, whose claims count toward the
/// upper-section bonus.
pub open spec fn is_upper_category(c: Category) -> bool {
    ||| c == Category::Aces
    ||| c == Category::Twos
    ||| c == Category::Threes
    ||| c == Category::Fours
    ||| c == Category::Fives
    ||| c == Category::Sixes
}

/// The canonical rule table: what selecting `c` awards for the dice `dice`,
/// given the earlier claims `prior` (which only the Yahtzee rule consults).
/// The two bonus categories are not awarded from a hand and get 0 here.
pub open spec fn category_award(c: Category, dice: Seq<u8>, prior: Seq<Score>) -> int {
    match c {
        Category::Aces => upper_award(dice, 1),
        Category::Twos => upper_award(dice, 2),
        Category::Threes => upper_award(dice, 3),
        Category::Fours => upper_award(dice, 4),
        Category::Fives => upper_award(dice, 5),
        Category::Sixes => upper_award(dice, 6),
        Category::ThreeOfAKind => if has_count_at_least(dice, 3) {
            dice_sum(dice)
        } else {
            0
        },
        Category::FourOfAKind => if has_count_at_least(dice, 4) {
            dice_sum(dice)
        } else {
            0
        },
        Category::FullHouse => if is_full_house(dice) {
            25
        } else {
            0
        },
        Category::SmallStraight => if is_small_straight(dice) {
            30
        } else {
            0
        },
        Category::LargeStraight => if is_large_straight(dice) {
            40
        } else {
            0
        },
        Category::Chance => dice_sum(dice),
        Category::Yahtzee => yahtzee_award(dice, prior),
        Category::UpperSectionBonus => 0,
        Category::YahtzeeBonus => 0,
    }
}

/// A face occurs between 0 and `s.len()` times.
pub proof fn lemma_count_face_bounds(s: Seq<u8>, f: u8)
    ensures
        0 <= count_face(s, f) <= s.len(),
    decreases s.len(),
{
    if s.len() > 0 {
        lemma_count_face_bounds(s.drop_last(), f);
    }
}

/// A face shown at some position is counted at least once.
pub proof fn lemma_count_face_present(s: Seq<u8>, i: int)
    requires
        0 <= i < s.len(),
    ensures
        count_face(s, s[i]) >= 1,
    decreases s.len(),
{
    if i < s.len() - 1 {
        lemma_count_face_present(s.drop_last(), i);
        assert(s.drop_last()[i] == s[i]);
        lemma_count_face_bounds(s, s[i]);
    } else {
        assert(s.last() == s[i]);
        lemma_count_face_bounds(s.drop_last(), s[i]);
    }
}

/// Two positions showing the same face are counted at least twice.
proof fn lemma_count_face_pair(s: Seq<u8>, i: int, j: int)
    requires
        0 <= i < j < s.len(),
        s[i] == s[j],
    ensures
        count_face(s, s[i]) >= 2,
    decreases s.len(),
{
    if j == s.len() - 1 {
        lemma_count_face_present(s.drop_last(), i);
    } else {
        lemma_count_face_pair(s.drop_last(), i, j);
    }
}

/// The six per-face counts partition the dice: they sum to the hand size.
pub proof fn lemma_counts_partition(s: Seq<u8>)
    requires
        forall|i: int| 0 <= i < s.len() ==> valid_die(s[i]),
    ensures
        count_face(s, 1) + count_face(s, 2) + count_face(s, 3) + count_face(s, 4) + count_face(
            s,
            5,
        ) + count_face(s, 6) == s.len(),
    decreases s.len(),
{
    if s.len() > 0 {
        lemma_counts_partition(s.drop_last());
    }
}

/// A large straight really is five distinct consecutive faces: the five
/// run faces each claim a die, and there are only five dice, so no face
/// can appear twice.
pub proof fn lemma_large_straight_distinct(s: Seq<u8>)
    requires
        valid_dice(s),
        is_large_straight(s),
    ensures
        forall|i: int, j: int| 0 <= i < j < s.len() ==> s[i] != s[j],
{
    lemma_counts_partition(s);
    assert forall|i: int, j: int| 0 <= i < j < s.len() implies s[i] != s[j] by {
        if s[i] == s[j] {
            lemma_count_face_pair(s, i, j);
            lemma_count_face_bounds(s, 1);
            lemma_count_face_bounds(s, 2);
            lemma_count_face_bounds(s, 3);
            lemma_count_face_bounds(s, 4);
            lemma_count_face_bounds(s, 5);
            lemma_count_face_bounds(s, 6);
            if has_run(s, 1, 5) {
                assert(count_face(s, 1) >= 1 && count_face(s, 2) >= 1 && count_face(s, 3) >= 1
                    && count_face(s, 4) >= 1 && count_face(s, 5) >= 1);
            } else {
                assert(count_face(s, 2) >= 1 && count_face(s, 3) >= 1 && count_face(s, 4) >= 1
                    && count_face(s, 5) >= 1 && count_face(s, 6) >= 1);
            }
        }
    }
}

/// Five valid dice sum to something between 5 and 30.
pub proof fn lemma_dice_sum_bounds(s: Seq<u8>)
    requires
        forall|i: int| 0 <= i < s.len() ==> valid_die(s[i]),
    ensures
        s.len() <= dice_sum(s) <= 6 * s.len(),
    decreases s.len(),
{
    if s.len() > 0 {
        lemma_dice_sum_bounds(s.drop_last());
    }
}

/// How many of the first five dice of `hand` show `face`.
pub fn count_die(hand: &DiceHand, face: u8) -> (n: u8)
    requires
        hand.wf(),
    ensures
        n as int == count_face(hand@, face),
        n <= 5,
{
    let mut n: u8 = 0;
    let mut i: usize = 0;
    while i < 5
        invariant
            hand.wf(),
            i <= 5,
            n as int == count_face(hand@.take(i as int), face),
            n <= i,
        decreases 5 - i,
    {
        let d = hand.get(i);
        if d == face {
            n = n + 1;
        }
        proof {
            assert(hand@.take(i as int + 1).drop_last() =~= hand@.take(i as int));
            assert(hand@.take(i as int + 1).last() == hand@[i as int]);
        }
        i = i + 1;
    }
    proof {
        assert(hand@.take(5) =~= hand@);
    }
    n
}

/// The sum of all five dice of `hand`.
pub fn sum_dice(hand: &DiceHand) -> (total: u32)
    requires
        hand.wf(),
    ensures
        total as int == dice_sum(hand@),
        total <= 30,
{
    let mut total: u32 = 0;
    let mut i: usize = 0;
    while i < 5
        invariant
            hand.wf(),
            i <= 5,
            total as int == dice_sum(hand@.take(i as int)),
            total <= 6 * i,
        decreases 5 - i,
    {
        let d = hand.get(i);
        total = total + d as u32;
        proof {
            assert(hand@.take(i as int + 1).drop_last() =~= hand@.take(i as int));
            assert(hand@.take(i as int + 1).last() == hand@[i as int]);
        }
        i = i + 1;
    }
    proof {
        assert(hand@.take(5) =~= hand@);
    }
    total
}

/// Whether some face appears on at least `n` of the dice.
pub fn has_kind(hand: &DiceHand, n: u8) -> (r: bool)
    requires
        hand.wf(),
    ensures
        r == has_count_at_least(hand@, n as int),
{
    let mut found = false;
    let mut f: u8 = 1;
    while f <= 6
        invariant
            hand.wf(),
            1 <= f <= 7,
            found == exists|g: u8| 1 <= g < f && count_face(hand@, g) >= n,
        decreases 7 - f,
    {
        let c = count_die(hand, f);
        if c >= n {
            found = true;
            proof {
                assert(1 <= f < f + 1 && count_face(hand@, f) >= n);
            }
        }
        f = f + 1;
    }
    proof {
        if found {
            let g = choose|g: u8| 1 <= g < 7 && count_face(hand@, g) >= n;
            assert(valid_die(g) && count_face(hand@, g) >= n);
        }
        if has_count_at_least(hand@, n as int) {
            let g = choose|g: u8| valid_die(g) && count_face(hand@, g) >= n;
            assert(1 <= g < 7 && count_face(hand@, g) >= n);
        }
    }
    found
}

/// No category appears twice among the claims.
pub open spec fn distinct_categories(s: Seq<Score>) -> bool {
    forall|i: int, j: int|
        0 <= i < j < s.len() ==> #[trigger] s[i].spec_category() != #[trigger] s[j].spec_category()
}

/// The sum of all award values among the claims.
pub open spec fn sum_awards(s: Seq<Score>) -> int
    decreases s.len(),
{
    if s.len() == 0 {
        0
    } else {
        sum_awards(s.drop_last()) + s.last().spec_award()
    }
}

/// The sum of the award values of the upper-section claims alone.
pub open spec fn upper_total(s: Seq<Score>) -> int
    decreases s.len(),
{
    if s.len() == 0 {
        0
    } else {
        upper_total(s.drop_last()) + if is_upper_category(s.last().spec_category()) {
            s.last().spec_award() as int
        } else {
            0
        }
    }
}

/// The total award never exceeds one maximal award per claim.
pub proof fn lemma_sum_awards_bounds(s: Seq<Score>)
    ensures
        0 <= sum_awards(s) <= s.len() * (u32::MAX as int),
    decreases s.len(),
{
    if s.len() > 0 {
        lemma_sum_awards_bounds(s.drop_last());
    }
}

/// A claim list without repeated categories holds at most one claim per
/// category, and there are only fifteen categories.
pub proof fn lemma_distinct_claims_len(s: Seq<Score>)
    requires
        distinct_categories(s),
    ensures
        s.len() <= 15,
{
    let idxs = s.map_values(|sc: Score| cat_index(sc.spec_category()));
    assert forall|c1: Category, c2: Category| cat_index(c1) == cat_index(c2) implies c1
        == c2 by {}
    assert(idxs.no_duplicates());
    idxs.unique_seq_to_set();
    assert forall|x: int| idxs.to_set().contains(x) implies vstd::set_lib::set_int_range(
        0,
        15,
    ).contains(x) by {
        let i = choose|i: int| 0 <= i < idxs.len() && idxs[i] == x;
        assert(0 <= cat_index(s[i].spec_category()) < 15);
    }
    vstd::set_lib::lemma_int_range(0, 15);
    vstd::set_lib::lemma_len_subset(idxs.to_set(), vstd::set_lib::set_int_range(0, 15));
}

/// Whether the claims already include a score for `c`.
pub fn contains_category(prior: &Vec<Score>, c: Category) -> (r: bool)
    ensures
        r == claimed_has(prior@, c),
{
    let mut found = false;
    let mut i: usize = 0;
    while i < prior.len()
        invariant
            i <= prior@.len(),
            found == exists|j: int| 0 <= j < i && prior@[j].spec_category() == c,
        decreases prior@.len() - i,
    {
        let sc = prior[i];
        if sc.category() == c {
            found = true;
        }
        i = i + 1;
    }
    found
}

/// Whether the claims include a Yahtzee whose award was not zero.
pub fn contains_nonzero_yahtzee(prior: &Vec<Score>) -> (r: bool)
    ensures
        r == has_nonzero_yahtzee(prior@),
{
    let mut found = false;
    let mut i: usize = 0;
    while i < prior.len()
        invariant
            i <= prior@.len(),
            found == exists|j: int|
                0 <= j < i && #[trigger] prior@[j].spec_category() == Category::Yahtzee
                    && prior@[j].spec_award() != 0,
        decreases prior@.len() - i,
    {
        let sc = prior[i];
        let is_nz = match sc {
            Score::Yahtzee(v) => v != 0,
            _ => false,
        };
        proof {
            assert(is_nz == (prior@[i as int].spec_category() == Category::Yahtzee
                && prior@[i as int].spec_award() != 0));
        }
        if is_nz {
            found = true;
        }
        i = i + 1;
    }
    found
}

impl Score {
    /// The Yahtzee rule. While the category is open: 50 for an all-equal
    /// hand, else 0. Once claimed, the category is withheld (`None`) and a
    /// zero-valued earlier claim does not reopen it; the one exception is
    /// an all-equal hand over a non-zero Yahtzee claim, which is worth the
    /// 150-point repeat bonus, surfaced under the bonus category.
    pub fn yahtzee(hand: &DiceHand, prior: &Vec<Score>) -> (r: Option<Score>)
        requires
            hand.wf(),
        ensures
            !claimed_has(prior@, Category::Yahtzee) ==> r == Some(
                mk_score(Category::Yahtzee, yahtzee_award(hand@, prior@) as u32),
            ),
            claimed_has(prior@, Category::Yahtzee) && repeat_yahtzee(hand@, prior@) ==> r == Some(
                Score::YahtzeeBonus(150),
            ),
            claimed_has(prior@, Category::Yahtzee) && !repeat_yahtzee(hand@, prior@) ==> r is None,
    {
        let five = has_kind(hand, 5);
        if !contains_category(prior, Category::Yahtzee) {
            proof {
                if has_nonzero_yahtzee(prior@) {
                    let i = choose|i: int|
                        0 <= i < prior@.len() && #[trigger] prior@[i].spec_category()
                            == Category::Yahtzee && prior@[i].spec_award() != 0;
                    assert(claimed_has(prior@, Category::Yahtzee));
                }
            }
            if five {
                Some(Score::Yahtzee(50))
            } else {
                Some(Score::Yahtzee(0))
            }
        } else if five && contains_nonzero_yahtzee(prior) {
            Some(Score::YahtzeeBonus(150))
        } else {
            None
        }
    }

    /// The upper-section rule for one face: the face value times the count
    /// of dice showing it. `None` when the face is not a die face, or when
    /// its category is already claimed.
    pub fn upper_score(hand: &DiceHand, prior: &Vec<Score>, die_face: u8) -> (r: Option<Score>)
        requires
            hand.wf(),
        ensures
            !valid_die(die_face) ==> r is None,
            valid_die(die_face) && claimed_has(prior@, upper_category(die_face)) ==> r is None,
            valid_die(die_face) && !claimed_has(prior@, upper_category(die_face)) ==> r == Some(
                mk_score(upper_category(die_face), upper_award(hand@, die_face) as u32),
            ),
            r matches Some(s) ==> s.spec_category() == upper_category(die_face) && s.spec_award()
                == die_face * count_face(hand@, die_face),
    {
        if die_face < 1 || die_face > 6 {
            return None;
        }
        let cat = match die_face {
            1 => Category::Aces,
            2 => Category::Twos,
            3 => Category::Threes,
            4 => Category::Fours,
            5 => Category::Fives,
            _ => Category::Sixes,
        };
        if contains_category(prior, cat) {
            return None;
        }
        let count = count_die(hand, die_face);
        proof {
            assert(die_face as int * count as int <= 30) by (nonlinear_arith)
                requires
                    die_face <= 6,
                    count <= 5,
            ;
        }
        let award: u32 = (die_face as u32) * (count as u32);
        Some(
            match die_face {
                1 => Score::Aces(award),
                2 => Score::Twos(award),
                3 => Score::Threes(award),
                4 => Score::Fours(award),
                5 => Score::Fives(award),
                _ => Score::Sixes(award),
            },
        )
    }

    /// Three of a kind: the sum of all five dice when some face appears at
    /// least three times, else 0. `None` when already claimed.
    pub fn three_of_a_kind(hand: &DiceHand, prior: &Vec<Score>) -> (r: Option<Score>)
        requires
            hand.wf(),
        ensures
            r is None <==> claimed_has(prior@, Category::ThreeOfAKind),
            r matches Some(s) ==> s == mk_score(
                Category::ThreeOfAKind,
                category_award(Category::ThreeOfAKind, hand@, prior@) as u32,
            ),
    {
        if contains_category(prior, Category::ThreeOfAKind) {
            return None;
        }
        let award: u32 = if has_kind(hand, 3) {
            sum_dice(hand)
        } else {
            0
        };
        Some(Score::ThreeOfAKind(award))
    }

    /// Four of a kind: the sum of all five dice when some face appears at
    /// least four times, else 0. `None` when already claimed.
    pub fn four_of_a_kind(hand: &DiceHand, prior: &Vec<Score>) -> (r: Option<Score>)
        requires
            hand.wf(),
        ensures
            r is None <==> claimed_has(prior@, Category::FourOfAKind),
            r matches Some(s) ==> s == mk_score(
                Category::FourOfAKind,
                category_award(Category::FourOfAKind, hand@, prior@) as u32,
            ),
    {
        if contains_category(prior, Category::FourOfAKind) {
            return None;
        }
        let award: u32 = if has_kind(hand, 4) {
            sum_dice(hand)
        } else {
            0
        };
        Some(Score::FourOfAKind(award))
    }

    /// Full house: 25 when exactly one face appears three times and a
    /// different face twice, else 0. `None` when already claimed.
    pub fn full_house(hand: &DiceHand, prior: &Vec<Score>) -> (r: Option<Score>)
        requires
            hand.wf(),
        ensures
            r is None <==> claimed_has(prior@, Category::FullHouse),
            r matches Some(s) ==> s == mk_score(
                Category::FullHouse,
                if is_full_house(hand@) {
                    25u32
                } else {
                    0u32
                },
            ),
    {
        if contains_category(prior, Category::FullHouse) {
            return None;
        }
        let mut has3 = false;
        let mut has2 = false;
        let mut f: u8 = 1;
        while f <= 6
            invariant
                hand.wf(),
                1 <= f <= 7,
                has3 == exists|g: u8| 1 <= g < f && count_face(hand@, g) == 3,
                has2 == exists|g: u8| 1 <= g < f && count_face(hand@, g) == 2,
            decreases 7 - f,
        {
            let c = count_die(hand, f);
            if c == 3 {
                has3 = true;
                proof {
                    assert(1 <= f < f + 1 && count_face(hand@, f) == 3);
                }
            }
            if c == 2 {
                has2 = true;
                proof {
                    assert(1 <= f < f + 1 && count_face(hand@, f) == 2);
                }
            }
            f = f + 1;
        }
        proof {
            if has3 && has2 {
                let f3 = choose|g: u8| 1 <= g < 7 && count_face(hand@, g) == 3;
                let f2 = choose|g: u8| 1 <= g < 7 && count_face(hand@, g) == 2;
                assert(valid_die(f3) && valid_die(f2) && f3 != f2 && count_face(hand@, f3) == 3
                    && count_face(hand@, f2) == 2);
            }
            if is_full_house(hand@) {
                let (f3, f2) = choose|f3: u8, f2: u8|
                    valid_die(f3) && valid_die(f2) && f3 != f2 && count_face(hand@, f3) == 3
                        && count_face(hand@, f2) == 2;
                assert(1 <= f3 < 7 && count_face(hand@, f3) == 3);
                assert(1 <= f2 < 7 && count_face(hand@, f2) == 2);
            }
        }
        if has3 && has2 {
            Some(Score::FullHouse(25))
        } else {
            Some(Score::FullHouse(0))
        }
    }

    /// Small straight: 30 when four consecutive faces are all present among
    /// the dice, else 0. `None` when already claimed.
    pub fn small_straight(hand: &DiceHand, prior: &Vec<Score>) -> (r: Option<Score>)
        requires
            hand.wf(),
        ensures
            r is None <==> claimed_has(prior@, Category::SmallStraight),
            r matches Some(s) ==> s == mk_score(
                Category::SmallStraight,
                if is_small_straight(hand@) {
                    30u32
                } else {
                    0u32
                },
            ),
    {
        if contains_category(prior, Category::SmallStraight) {
            return None;
        }
        let c1 = count_die(hand, 1) >= 1;
        let c2 = count_die(hand, 2) >= 1;
        let c3 = count_die(hand, 3) >= 1;
        let c4 = count_die(hand, 4) >= 1;
        let c5 = count_die(hand, 5) >= 1;
        let c6 = count_die(hand, 6) >= 1;
        let run = (c1 && c2 && c3 && c4) || (c2 && c3 && c4 && c5) || (c3 && c4 && c5 && c6);
        proof {
            lemma_runs_from_counts(hand@);
        }
        if run {
            Some(Score::SmallStraight(30))
        } else {
            Some(Score::SmallStraight(0))
        }
    }

    /// Large straight: 40 when the five dice are five consecutive faces,
    /// else 0. `None` when already claimed.
    pub fn large_straight(hand: &DiceHand, prior: &Vec<Score>) -> (r: Option<Score>)
        requires
            hand.wf(),
        ensures
            r is None <==> claimed_has(prior@, Category::LargeStraight),
            r matches Some(s) ==> s == mk_score(
                Category::LargeStraight,
                if is_large_straight(hand@) {
                    40u32
                } else {
                    0u32
                },
            ),
    {
        if contains_category(prior, Category::LargeStraight) {
            return None;
        }
        let c1 = count_die(hand, 1) >= 1;
        let c2 = count_die(hand, 2) >= 1;
        let c3 = count_die(hand, 3) >= 1;
        let c4 = count_die(hand, 4) >= 1;
        let c5 = count_die(hand, 5) >= 1;
        let c6 = count_die(hand, 6) >= 1;
        let run = (c1 && c2 && c3 && c4 && c5) || (c2 && c3 && c4 && c5 && c6);
        proof {
            lemma_runs_from_counts(hand@);
        }
        if run {
            Some(Score::LargeStraight(40))
        } else {
            Some(Score::LargeStraight(0))
        }
    }

    /// Chance: the sum of all five dice, unconditionally. `None` when
    /// already claimed.
    pub fn chance(hand: &DiceHand, prior: &Vec<Score>) -> (r: Option<Score>)
        requires
            hand.wf(),
        ensures
            r is None <==> claimed_has(prior@, Category::Chance),
            r matches Some(s) ==> s == mk_score(Category::Chance, dice_sum(hand@) as u32),
    {
        if contains_category(prior, Category::Chance) {
            return None;
        }
        Some(Score::Chance(sum_dice(hand)))
    }

    /// The upper-section bonus: 35 when the upper-section claims total at
    /// least 63, `None` otherwise.
    pub fn upper_score_bonus(prior: &Vec<Score>) -> (r: Option<Score>)
        requires
            distinct_categories(prior@),
        ensures
            r is Some <==> upper_total(prior@) >= 63,
            r matches Some(s) ==> s == Score::UpperSectionBonus(35),
    {
        let total = upper_total_of(prior);
        if total >= 63 {
            Some(Score::UpperSectionBonus(35))
        } else {
            None
        }
    }
}

/// The upper-section total of a claim list without repeated categories.
pub fn upper_total_of(prior: &Vec<Score>) -> (total: u64)
    requires
        distinct_categories(prior@),
    ensures
        total == upper_total(prior@),
{
    proof {
        lemma_distinct_claims_len(prior@);
    }
    let mut total: u64 = 0;
    let mut i: usize = 0;
    while i < prior.len()
        invariant
            distinct_categories(prior@),
            prior@.len() <= 15,
            i <= prior@.len(),
            total == upper_total(prior@.take(i as int)),
            total <= i * (u32::MAX as int),
        decreases prior@.len() - i,
    {
        let sc = prior[i];
        let upper = match sc {
            Score::Aces(_) => true,
            Score::Twos(_) => true,
            Score::Threes(_) => true,
            Score::Fours(_) => true,
            Score::Fives(_) => true,
            Score::Sixes(_) => true,
            _ => false,
        };
        if upper {
            total = total + sc.award() as u64;
        }
        proof {
            assert(prior@.take(i as int + 1).drop_last() =~= prior@.take(i as int));
            assert(prior@.take(i as int + 1).last() == prior@[i as int]);
        }
        i = i + 1;
    }
    proof {
        assert(prior@.take(prior@.len() as int) =~= prior@);
    }
    total
}

/// No award of the rule table exceeds 150 (the repeat Yahtzee), so every
/// award fits comfortably in a `u32`.
pub proof fn lemma_category_award_bounds(c: Category, dice: Seq<u8>, prior: Seq<Score>)
    requires
        valid_dice(dice),
    ensures
        0 <= category_award(c, dice, prior) <= 150,
{
    lemma_dice_sum_bounds(dice);
    lemma_count_face_bounds(dice, 1);
    lemma_count_face_bounds(dice, 2);
    lemma_count_face_bounds(dice, 3);
    lemma_count_face_bounds(dice, 4);
    lemma_count_face_bounds(dice, 5);
    lemma_count_face_bounds(dice, 6);
}

/// One entry of an offer list is sound: a selectable, not yet claimed
/// category, carrying exactly the award the rule table gives it.
pub open spec fn offered_entry_ok(sc: Score, dice: Seq<u8>, prior: Seq<Score>) -> bool {
    &&& is_selectable(sc.spec_category())
    &&& !claimed_has(prior, sc.spec_category())
    &&& sc.spec_award() == category_award(sc.spec_category(), dice, prior)
}

/// What the full offer list for a hand is: every entry sound, every
/// selectable unclaimed category present, and the entries in the fixed
/// presentation order (which also makes each category appear at most once).
pub open spec fn is_offer_list(r: Seq<Score>, dice: Seq<u8>, prior: Seq<Score>) -> bool {
    &&& forall|i: int| 0 <= i < r.len() ==> offered_entry_ok(#[trigger] r[i], dice, prior)
    &&& forall|c: Category|
        is_selectable(c) && !(#[trigger] claimed_has(prior, c)) ==> exists|i: int|
            0 <= i < r.len() && #[trigger] r[i].spec_category() == c
    &&& forall|i: int, j: int|
        0 <= i < j < r.len() ==> cat_index(#[trigger] r[i].spec_category()) < cat_index(
            #[trigger] r[j].spec_category(),
        )
}

/// The selectable category at position `idx` of the presentation order.
pub fn category_of_index(idx: u8) -> (c: Category)
    requires
        idx < 13,
    ensures
        cat_index(c) == idx,
        is_selectable(c),
{
    match idx {
        0 => Category::Aces,
        1 => Category::Twos,
        2 => Category::Threes,
        3 => Category::Fours,
        4 => Category::Fives,
        5 => Category::Sixes,
        6 => Category::ThreeOfAKind,
        7 => Category::FourOfAKind,
        8 => Category::FullHouse,
        9 => Category::SmallStraight,
        10 => Category::LargeStraight,
        11 => Category::Chance,
        _ => Category::Yahtzee,
    }
}

/// What selecting `c` would score right now: `None` when `c` is not
/// selectable or is already claimed, else the rule table's award for `c`.
pub fn score_for_category(hand: &DiceHand, prior: &Vec<Score>, c: Category) -> (r: Option<Score>)
    requires
        hand.wf(),
    ensures
        r is Some <==> is_selectable(c) && !claimed_has(prior@, c),
        r matches Some(s) ==> s == mk_score(c, category_award(c, hand@, prior@) as u32),
{
    match c {
        Category::Aces => Score::upper_score(hand, prior, 1),
        Category::Twos => Score::upper_score(hand, prior, 2),
        Category::Threes => Score::upper_score(hand, prior, 3),
        Category::Fours => Score::upper_score(hand, prior, 4),
        Category::Fives => Score::upper_score(hand, prior, 5),
        Category::Sixes => Score::upper_score(hand, prior, 6),
        Category::ThreeOfAKind => Score::three_of_a_kind(hand, prior),
        Category::FourOfAKind => Score::four_of_a_kind(hand, prior),
        Category::FullHouse => Score::full_house(hand, prior),
        Category::SmallStraight => Score::small_straight(hand, prior),
        Category::LargeStraight => Score::large_straight(hand, prior),
        Category::Chance => Score::chance(hand, prior),
        Category::Yahtzee => {
            if contains_category(prior, Category::Yahtzee) {
                None
            } else {
                Score::yahtzee(hand, prior)
            }
        },
        Category::UpperSectionBonus => None,
        Category::YahtzeeBonus => None,
    }
}

/// The full offer list for a hand: one entry per selectable category not
/// yet claimed, in the fixed presentation order, each carrying the award
/// the rule table gives it. An award of 0 is offered like any other.
pub fn offered_categories(hand: &DiceHand, prior: &Vec<Score>) -> (r: Vec<Score>)
    requires
        hand.wf(),
    ensures
        is_offer_list(r@, hand@, prior@),
{
    let mut r: Vec<Score> = Vec::new();
    let mut idx: u8 = 0;
    while idx < 13
        invariant
            hand.wf(),
            idx <= 13,
            forall|i: int| 0 <= i < r@.len() ==> offered_entry_ok(#[trigger] r@[i], hand@, prior@),
            forall|i: int|
                0 <= i < r@.len() ==> cat_index(#[trigger] r@[i].spec_category()) < idx,
            forall|c: Category|
                is_selectable(c) && cat_index(c) < idx && !(#[trigger] claimed_has(prior@, c))
                    ==> exists|i: int| 0 <= i < r@.len() && #[trigger] r@[i].spec_category() == c,
            forall|i: int, j: int|
                0 <= i < j < r@.len() ==> cat_index(#[trigger] r@[i].spec_category()) < cat_index(
                    #[trigger] r@[j].spec_category(),
                ),
        decreases 13 - idx,
    {
        let c = category_of_index(idx);
        proof {
            assert forall|c2: Category| cat_index(c2) == idx implies c2 == c by {}
        }
        let entry = score_for_category(hand, prior, c);
        let ghost r0 = r@;
        if let Some(s) = entry {
            r.push(s);
            proof {
                lemma_category_award_bounds(c, hand@, prior@);
                assert(r@ == r0.push(s));
                assert(offered_entry_ok(s, hand@, prior@));
                assert(r@[r0.len() as int].spec_category() == c);
            }
        }
        proof {
            assert forall|c2: Category|
                is_selectable(c2) && cat_index(c2) < idx + 1 && !claimed_has(
                    prior@,
                    c2,
                ) implies exists|i: int|
                0 <= i < r@.len() && #[trigger] r@[i].spec_category() == c2 by {
                if cat_index(c2) < idx {
                    let i = choose|i: int| 0 <= i < r0.len() && r0[i].spec_category() == c2;
                    assert(r@[i].spec_category() == c2);
                } else {
                    assert(c2 == c);
                    assert(r@[r0.len() as int].spec_category() == c2);
                }
            }
        }
        idx = idx + 1;
    }
    proof {
        assert forall|c: Category| is_selectable(c) implies cat_index(c) < 13 by {}
    }
    r
}

/// Ties the one-face-at-a-time counts to the run predicates: a run is
/// present exactly when each of its faces counts at least one die.
proof fn lemma_runs_from_counts(s: Seq<u8>)
    ensures
        has_run(s, 1, 4) <==> (count_face(s, 1) >= 1 && count_face(s, 2) >= 1 && count_face(s, 3)
            >= 1 && count_face(s, 4) >= 1),
        has_run(s, 2, 4) <==> (count_face(s, 2) >= 1 && count_face(s, 3) >= 1 && count_face(s, 4)
            >= 1 && count_face(s, 5) >= 1),
        has_run(s, 3, 4) <==> (count_face(s, 3) >= 1 && count_face(s, 4) >= 1 && count_face(s, 5)
            >= 1 && count_face(s, 6) >= 1),
        has_run(s, 1, 5) <==> (count_face(s, 1) >= 1 && count_face(s, 2) >= 1 && count_face(s, 3)
            >= 1 && count_face(s, 4) >= 1 && count_face(s, 5) >= 1),
        has_run(s, 2, 5) <==> (count_face(s, 2) >= 1 && count_face(s, 3) >= 1 && count_face(s, 4)
            >= 1 && count_face(s, 5) >= 1 && count_face(s, 6) >= 1),
{
    assert forall|lo: u8, len: int|
        1 <= lo <= 3 && (len == 4 || len == 5) && lo + len <= 7 && (forall|f: u8|
            lo <= f < lo + len ==> count_face(s, f) >= 1) implies has_run(s, lo, len) by {}
}

} // verus!
