//! The five hands, the table of which hand defeats which, and the outcome
//! of one hand played against another.

use rand::rngs::ThreadRng;
use rand::seq::SliceRandom;
use vstd::prelude::*;

verus! {

/// How a game ended, seen from the side of the first hand.
#[derive(Eq, Debug, PartialEq, Structural)]
pub enum HandResult {
    Win,
    Lose,
    Draw,
}

/// One of the five hands a player can show.
#[derive(Copy, Clone, Debug, Eq, PartialEq, Structural)]
pub enum Hand {
    Rock,
    Paper,
    Scissors,
    Lizard,
    Spock,
}

impl HandResult {
    /// The name under which `self` is shown.
    pub open spec fn name(self) -> Seq<char> {
        match self {
            HandResult::Win => "Win"@,
            HandResult::Lose => "Lose"@,
            HandResult::Draw => "Draw"@,
        }
    }

    /// The name of `self` as an owned string.
    pub fn to_string(&self) -> (text: String)
        ensures
            text@ == self.name(),
    {
        match *self {
            HandResult::Win => "Win".to_owned(),
            HandResult::Lose => "Lose".to_owned(),
            HandResult::Draw => "Draw".to_owned(),
        }
    }
}

/// Something that defeats other things of its own kind.
pub trait Beats {
    /// Everything that `self` defeats.
    fn beats(&self) -> Vec<&Self>;
}

impl Hand {
    /// The two hands that `self` defeats, in the order of the rule table.
    pub open spec fn beaten(self) -> Seq<Hand> {
        match self {
            Hand::Rock => seq![Hand::Lizard, Hand::Scissors],
            Hand::Paper => seq![Hand::Spock, Hand::Rock],
            Hand::Scissors => seq![Hand::Paper, Hand::Lizard],
            Hand::Lizard => seq![Hand::Spock, Hand::Paper],
            Hand::Spock => seq![Hand::Rock, Hand::Scissors],
        }
    }

    /// The name under which `self` is shown.
    pub open spec fn name(self) -> Seq<char> {
        match self {
            Hand::Rock => "Rock"@,
            Hand::Paper => "Paper"@,
            Hand::Scissors => "Scissors"@,
            Hand::Lizard => "Lizard"@,
            Hand::Spock => "Spock"@,
        }
    }

    /// The name of `self` as an owned string.
    pub fn to_string(&self) -> (text: String)
        ensures
            text@ == self.name(),
    {
        match *self {
            Hand::Rock => "Rock".to_owned(),
            Hand::Paper => "Paper".to_owned(),
            Hand::Scissors => "Scissors".to_owned(),
            Hand::Lizard => "Lizard".to_owned(),
            Hand::Spock => "Spock".to_owned(),
        }
    }

    /// `self` defeats `other`: `other` is one of the hands in `self.beaten()`.
    pub open spec fn defeats(self, other: Hand) -> bool {
        self.beaten().contains(other)
    }
}

impl Beats for Hand {
    fn beats(&self) -> (list: Vec<&Hand>)
        ensures
            list@.len() == self.beaten().len(),
            forall|i: int| 0 <= i < list@.len() ==> *(#[trigger] list@[i]) == self.beaten()[i],
    {
        match *self {
            Hand::Rock => vec![&Hand::Lizard, &Hand::Scissors],
            Hand::Paper => vec![&Hand::Spock, &Hand::Rock],
            Hand::Scissors => vec![&Hand::Paper, &Hand::Lizard],
            Hand::Lizard => vec![&Hand::Spock, &Hand::Paper],
            Hand::Spock => vec![&Hand::Rock, &Hand::Scissors],
        }
    }
}

/// The outcome that the rules give `own` against `other`: a win where
/// `own` defeats `other`, a loss where `other` defeats `own`, else a draw.
pub open spec fn outcome(own: Hand, other: Hand) -> HandResult {
    if own.defeats(other) {
        HandResult::Win
    } else if other.defeats(own) {
        HandResult::Lose
    } else {
        HandResult::Draw
    }
}

/// Whether `target` occurs in `list`.
fn holds(list: &Vec<&Hand>, target: Hand) -> (found: bool)
    ensures
        found <==> exists|i: int| 0 <= i < list@.len() && *(#[trigger] list@[i]) == target,
{
    let mut k: usize = 0;
    while k < list.len()
        invariant
            k <= list@.len(),
            forall|i: int| 0 <= i < k ==> *(#[trigger] list@[i]) != target,
        decreases list@.len() - k,
    {
        if *list[k] == target {
            return true;
        }
        k += 1;
    }
    false
}

/// Plays `own_hand` against `other_hand` and tells how it ended for
/// `own_hand`.
pub fn play_hand(own_hand: Hand, other_hand: Hand) -> (result: HandResult)
    ensures
        result == outcome(own_hand, other_hand),
{
    let own_beats = own_hand.beats();
    let other_beats = other_hand.beats();
    proof {
        lemma_listed(own_beats@, own_hand, other_hand);
        lemma_listed(other_beats@, other_hand, own_hand);
    }
    if holds(&own_beats, other_hand) {
        HandResult::Win
    } else if holds(&other_beats, own_hand) {
        HandResult::Lose
    } else {
        HandResult::Draw
    }
}

/// A list of references to the hands of `owner.beaten()`, in that order,
/// holds `target` exactly if `owner` defeats `target`.
proof fn lemma_listed(list: Seq<&Hand>, owner: Hand, target: Hand)
    requires
        list.len() == owner.beaten().len(),
        forall|i: int| 0 <= i < list.len() ==> *(#[trigger] list[i]) == owner.beaten()[i],
    ensures
        owner.defeats(target) <==> exists|i: int|
            0 <= i < list.len() && *(#[trigger] list[i]) == target,
{
    if owner.defeats(target) {
        let i = choose|i: int| 0 <= i < owner.beaten().len() && owner.beaten()[i] == target;
        assert(*list[i] == target);
    }
    if exists|i: int| 0 <= i < list.len() && *(#[trigger] list[i]) == target {
        let i = choose|i: int| 0 <= i < list.len() && *(#[trigger] list[i]) == target;
        assert(owner.beaten()[i] == target);
    }
}

/// Every hand, once, in the order in which the hands are declared.
pub open spec fn all_hands() -> Seq<Hand> {
    seq![Hand::Rock, Hand::Paper, Hand::Scissors, Hand::Lizard, Hand::Spock]
}

/// The names of the hands: at each place the name of the hand that
/// `all_hands()` has there.
pub open spec fn all_names() -> Seq<Seq<char>> {
    all_hands().map_values(|hand: Hand| hand.name())
}

/// All five hands, in the order of `all_hands()`.
pub fn hands() -> (list: Vec<Hand>)
    ensures
        list@ == all_hands(),
{
    let list = vec![Hand::Rock, Hand::Paper, Hand::Scissors, Hand::Lizard, Hand::Spock];
    assert(list@ =~= all_hands());
    list
}

/// The names of all five hands, in the order of `hands()`.
pub fn hands_names() -> (names: Vec<String>)
    ensures
        names@.len() == all_names().len(),
        forall|i: int| 0 <= i < names@.len() ==> (#[trigger] names@[i])@ == all_names()[i],
{
    let list = hands();
    let mut names: Vec<String> = Vec::new();
    let mut k: usize = 0;
    while k < list.len()
        invariant
            list@ == all_hands(),
            k <= list@.len(),
            names@.len() == k,
            forall|i: int| 0 <= i < k ==> (#[trigger] names@[i])@ == all_names()[i],
        decreases list@.len() - k,
    {
        names.push(list[k].to_string());
        k += 1;
    }
    names
}

/// The thread-local random generator of `rand`. Nothing is known of what is
/// inside it.
#[verifier::external_type_specification]
#[verifier::external_body]
pub struct ExThreadRng(rand::rngs::ThreadRng);

/// `rand::seq::SliceRandom::choose` on a slice of hands. Taken on trust:
/// on an empty list it gives `None`, on any other list a reference to one
/// of the items of the list. Which item, and what becomes of the generator,
/// is left open. The generator reseeds itself from the operating system now
/// and then and panics if that fails; nothing in the arguments rules it out.
#[verifier::external_body]
fn choose_hand<'a>(list: &'a Vec<Hand>, rng: &mut ThreadRng) -> (picked: Option<&'a Hand>)
    ensures
        list@.len() == 0 ==> picked is None,
        list@.len() > 0 ==> picked is Some && list@.contains(*picked->0),
{
    list.choose(rng)
}

/// Draws one of the five hands with the help of `rng`, each with the same
/// chance as far as `rng` is fair. Which hand comes out is up to `rng`.
pub fn random_hand(rng: &mut ThreadRng) -> (hand: Hand)
    ensures
        all_hands().contains(hand),
{
    let list = hands();
    *choose_hand(&list, rng).unwrap()
}

} // verus!
