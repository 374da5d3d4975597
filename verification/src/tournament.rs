//! What holds of the rules as a whole: the list of hands is complete, names
//! tell hands apart, of two different hands exactly one defeats the other,
//! and the outcome for one side mirrors the outcome for the other.

use crate::hands::{all_hands, all_names, outcome, Hand, HandResult};
use vstd::prelude::*;

verus! {

/// A hand defeats another exactly if the other is the first or the second
/// entry of its `beaten()`, which has two entries.
pub proof fn lemma_defeats_entries(a: Hand, b: Hand)
    ensures
        a.beaten().len() == 2,
        a.defeats(b) <==> (a.beaten()[0] == b || a.beaten()[1] == b),
{
    let list = a.beaten();
    if list[0] == b || list[1] == b {
        assert(list.contains(b));
    }
}

/// Each hand defeats exactly two hands: `beaten()` has two entries, they
/// differ, and neither is the hand itself.
pub proof fn lemma_defeats_two(a: Hand)
    ensures
        a.beaten().len() == 2,
        a.beaten().no_duplicates(),
        !a.defeats(a),
{
    lemma_defeats_entries(a, a);
}

/// The hands that defeat `a`.
pub open spec fn defeaters(a: Hand) -> Set<Hand> {
    Set::new(|h: Hand| h.defeats(a))
}

/// Each hand is defeated by exactly two hands.
pub proof fn lemma_defeated_by_two(a: Hand)
    ensures
        defeaters(a).finite(),
        defeaters(a).len() == 2,
{
    let losers = defeaters(a);
    assert forall|h: Hand| h.defeats(a) <==> (h.beaten()[0] == a || h.beaten()[1] == a) by {
        lemma_defeats_entries(h, a);
    }
    let (x, y) = match a {
        Hand::Rock => (Hand::Paper, Hand::Spock),
        Hand::Paper => (Hand::Scissors, Hand::Lizard),
        Hand::Scissors => (Hand::Rock, Hand::Spock),
        Hand::Lizard => (Hand::Rock, Hand::Scissors),
        Hand::Spock => (Hand::Paper, Hand::Lizard),
    };
    assert(losers =~= Set::empty().insert(x).insert(y));
}

/// Of two different hands exactly one defeats the other: never both, never
/// neither.
pub proof fn lemma_tournament(a: Hand, b: Hand)
    requires
        a != b,
    ensures
        a.defeats(b) != b.defeats(a),
{
    lemma_defeats_entries(a, b);
    lemma_defeats_entries(b, a);
}

/// A hand played against itself is a draw.
pub proof fn lemma_self_draw(a: Hand)
    ensures
        outcome(a, a) == HandResult::Draw,
{
    lemma_defeats_two(a);
}

/// A game is a draw only between a hand and itself.
pub proof fn lemma_draw_iff_same(a: Hand, b: Hand)
    ensures
        outcome(a, b) == HandResult::Draw <==> a == b,
{
    if a == b {
        lemma_self_draw(a);
    } else {
        lemma_tournament(a, b);
    }
}

/// The outcome can be read off either hand's list alone: a win is the
/// same as defeating the other hand, a loss the same as being defeated by
/// it, so the order in which the two lists are asked does not matter.
pub proof fn lemma_outcome_reads_defeat(a: Hand, b: Hand)
    ensures
        outcome(a, b) == HandResult::Win <==> a.defeats(b),
        outcome(a, b) == HandResult::Lose <==> b.defeats(a),
{
    if a == b {
        lemma_defeats_two(a);
    } else {
        lemma_tournament(a, b);
    }
}

/// One side wins exactly if the other side loses, whichever side is asked
/// first.
pub proof fn lemma_win_mirrors_lose(a: Hand, b: Hand)
    ensures
        outcome(a, b) == HandResult::Win <==> outcome(b, a) == HandResult::Lose,
        outcome(a, b) == HandResult::Lose <==> outcome(b, a) == HandResult::Win,
{
    if a == b {
        lemma_self_draw(a);
    } else {
        lemma_tournament(a, b);
    }
}

/// Two hands with the same name are the same hand.
pub proof fn lemma_name_tells_hand(a: Hand, b: Hand)
    requires
        a.name() == b.name(),
    ensures
        a == b,
{
    reveal_strlit("Rock");
    reveal_strlit("Paper");
    reveal_strlit("Scissors");
    reveal_strlit("Lizard");
    reveal_strlit("Spock");
    assert("Rock"@.len() == 4);
    assert("Paper"@.len() == 5 && "Paper"@[0] == 'P');
    assert("Scissors"@.len() == 8);
    assert("Lizard"@.len() == 6);
    assert("Spock"@.len() == 5 && "Spock"@[0] == 'S');
}

/// The list of hands has five entries, holds no hand twice and leaves no
/// hand out.
pub proof fn lemma_hands_complete()
    ensures
        all_hands().len() == 5,
        all_hands().no_duplicates(),
        forall|h: Hand| all_hands().contains(h),
{
    let list = all_hands();
    assert forall|h: Hand| list.contains(h) by {
        let i: int = match h {
            Hand::Rock => 0,
            Hand::Paper => 1,
            Hand::Scissors => 2,
            Hand::Lizard => 3,
            Hand::Spock => 4,
        };
        assert(list[i] == h);
    }
}

/// The list of names is as long as the list of hands, and no name stands
/// in it twice.
pub proof fn lemma_names_distinct()
    ensures
        all_names().len() == all_hands().len(),
        all_names().no_duplicates(),
{
    lemma_hands_complete();
    assert forall|i: int, j: int|
        0 <= i < all_names().len() && 0 <= j < all_names().len() && i != j implies all_names()[i]
        != all_names()[j] by {
        if all_names()[i] == all_names()[j] {
            lemma_name_tells_hand(all_hands()[i], all_hands()[j]);
        }
    }
}

} // verus!
