use rpsls::hands::Hand::{Lizard, Paper, Rock, Scissors, Spock};
use rpsls::hands::HandResult::{Draw, Lose, Win};
use rpsls::hands::{hands, hands_names, play_hand, Beats, Hand, HandResult};
use std::collections::HashSet;

#[test]
fn test_unique_names() {
    assert_eq!(hands_names().len(), hands().len());
    assert_eq!(
        hands_names().iter().collect::<HashSet<_>>().len(),
        hands().len()
    );
}

#[test]
fn test_play_hand() {
    assert_eq!(play_hand(Rock, Scissors), Win);
    assert_eq!(play_hand(Rock, Paper), Lose);
    assert_eq!(play_hand(Rock, Rock), Draw);
    assert_eq!(play_hand(Rock, Lizard), Win);
    assert_eq!(play_hand(Rock, Spock), Lose);

    assert_eq!(play_hand(Paper, Rock), Win);
    assert_eq!(play_hand(Paper, Scissors), Lose);
    assert_eq!(play_hand(Paper, Paper), Draw);
    assert_eq!(play_hand(Paper, Lizard), Lose);
    assert_eq!(play_hand(Paper, Spock), Win);

    assert_eq!(play_hand(Scissors, Paper), Win);
    assert_eq!(play_hand(Scissors, Rock), Lose);
    assert_eq!(play_hand(Scissors, Scissors), Draw);
    assert_eq!(play_hand(Scissors, Lizard), Win);
    assert_eq!(play_hand(Scissors, Spock), Lose);

    assert_eq!(play_hand(Spock, Paper), Lose);
    assert_eq!(play_hand(Spock, Rock), Win);
    assert_eq!(play_hand(Spock, Lizard), Lose);
    assert_eq!(play_hand(Spock, Spock), Draw);
    assert_eq!(play_hand(Spock, Scissors), Win);

    assert_eq!(play_hand(Lizard, Paper), Win);
    assert_eq!(play_hand(Lizard, Spock), Win);
    assert_eq!(play_hand(Lizard, Rock), Lose);
    assert_eq!(play_hand(Lizard, Scissors), Lose);
    assert_eq!(play_hand(Lizard, Lizard), Draw);
}

#[test]
fn hands_come_in_declared_order() {
    assert_eq!(hands(), vec![Rock, Paper, Scissors, Lizard, Spock]);
}

#[test]
fn hands_are_five_and_distinct() {
    let all = hands();
    assert_eq!(all.len(), 5);
    for i in 0..all.len() {
        for j in 0..all.len() {
            assert_eq!(all[i] == all[j], i == j);
        }
    }
}

#[test]
fn names_follow_the_hands() {
    assert_eq!(
        hands_names(),
        vec![
            "Rock".to_string(),
            "Paper".to_string(),
            "Scissors".to_string(),
            "Lizard".to_string(),
            "Spock".to_string(),
        ]
    );
    let all = hands();
    let names = hands_names();
    for i in 0..all.len() {
        assert_eq!(names[i], all[i].to_string());
    }
}

#[test]
fn hand_names_are_exact() {
    assert_eq!(Rock.to_string(), "Rock");
    assert_eq!(Paper.to_string(), "Paper");
    assert_eq!(Scissors.to_string(), "Scissors");
    assert_eq!(Lizard.to_string(), "Lizard");
    assert_eq!(Spock.to_string(), "Spock");
}

#[test]
fn result_names_are_exact() {
    assert_eq!(Win.to_string(), "Win");
    assert_eq!(Lose.to_string(), "Lose");
    assert_eq!(Draw.to_string(), "Draw");
}

#[test]
fn beats_follows_the_table() {
    assert_eq!(Rock.beats(), vec![&Lizard, &Scissors]);
    assert_eq!(Paper.beats(), vec![&Spock, &Rock]);
    assert_eq!(Scissors.beats(), vec![&Paper, &Lizard]);
    assert_eq!(Lizard.beats(), vec![&Spock, &Paper]);
    assert_eq!(Spock.beats(), vec![&Rock, &Scissors]);
}

#[test]
fn each_hand_beats_two_and_loses_to_two() {
    for a in hands() {
        let beaten = a.beats();
        assert_eq!(beaten.len(), 2);
        assert_ne!(beaten[0], beaten[1]);
        assert!(!beaten.contains(&&a));
        let losers: Vec<Hand> = hands()
            .into_iter()
            .filter(|h| h.beats().contains(&&a))
            .collect();
        assert_eq!(losers.len(), 2);
    }
}

#[test]
fn rock_is_beaten_by_paper_and_spock() {
    let losers: Vec<Hand> = hands()
        .into_iter()
        .filter(|h| h.beats().contains(&&Rock))
        .collect();
    assert_eq!(losers, vec![Paper, Spock]);
}

#[test]
fn of_two_different_hands_exactly_one_beats_the_other() {
    for a in hands() {
        for b in hands() {
            if a != b {
                let a_beats_b = a.beats().contains(&&b);
                let b_beats_a = b.beats().contains(&&a);
                assert_ne!(a_beats_b, b_beats_a);
            }
        }
    }
    assert!(Lizard.beats().contains(&&Spock));
    assert!(!Spock.beats().contains(&&Lizard));
}

#[test]
fn a_hand_against_itself_is_a_draw() {
    for a in hands() {
        assert_eq!(play_hand(a, a), Draw);
    }
}

#[test]
fn a_draw_needs_equal_hands() {
    for a in hands() {
        for b in hands() {
            assert_eq!(play_hand(a, b) == Draw, a == b);
        }
    }
}

#[test]
fn a_win_for_one_side_is_a_loss_for_the_other() {
    for a in hands() {
        for b in hands() {
            assert_eq!(play_hand(a, b) == Win, play_hand(b, a) == Lose);
            assert_eq!(play_hand(a, b) == Lose, play_hand(b, a) == Win);
        }
    }
    assert_eq!(play_hand(Scissors, Paper), Win);
    assert_eq!(play_hand(Paper, Scissors), Lose);
}

#[test]
fn outcome_follows_the_beats_lists() {
    for a in hands() {
        for b in hands() {
            let expected: HandResult = if a.beats().contains(&&b) {
                Win
            } else if b.beats().contains(&&a) {
                Lose
            } else {
                Draw
            };
            assert_eq!(play_hand(a, b), expected);
        }
    }
}
