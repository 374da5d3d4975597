//! Rules of rock-paper-scissors-lizard-spock: the five hands, which hand
//! defeats which, and the outcome of playing one hand against another.

pub mod hands;
pub mod tournament;
