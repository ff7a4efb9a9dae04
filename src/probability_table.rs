//! The fixed decision table followed by the automated player.

use vstd::prelude::*;

use crate::card::Rank;

verus! {

/// What a player does on a turn.
#[derive(Clone, Copy, Debug, PartialEq, Eq, Structural)]
pub enum Action {
    Hit,
    Stand,
    DoubleDown,
}

/// The table: the action for a hand total against the dealer's up card.
/// A total of twelve follows the rule for thirteen to sixteen.
pub open spec fn decide(total: int, up_card: Rank) -> Action {
    if total <= 8 {
        Action::Hit
    } else if total == 9 {
        if 3 <= up_card.spec_value() <= 6 {
            Action::DoubleDown
        } else {
            Action::Hit
        }
    } else if total == 10 {
        if up_card.spec_value() >= 10 {
            Action::Hit
        } else {
            Action::DoubleDown
        }
    } else if total == 11 {
        Action::DoubleDown
    } else if total >= 17 {
        Action::Stand
    } else if up_card.spec_value() <= 6 {
        Action::Stand
    } else {
        Action::Hit
    }
}

/// Determines which move an "optimized" player should make.
pub fn get_action(val: usize, up_card: Rank) -> (r: Action)
    ensures
        r == decide(val as int, up_card),
        val >= 17 ==> r == Action::Stand,
{
    if val <= 8 {
        return Action::Hit;
    }
    if val == 9 {
        return match up_card {
            Rank::Two => Action::Hit,
            Rank::Seven => Action::Hit,
            Rank::Eight => Action::Hit,
            Rank::Nine => Action::Hit,
            Rank::Ten => Action::Hit,
            Rank::Jack => Action::Hit,
            Rank::Queen => Action::Hit,
            Rank::King => Action::Hit,
            Rank::Ace => Action::Hit,
            _ => Action::DoubleDown,
        };
    }
    if val == 10 {
        return match up_card {
            Rank::Ten => Action::Hit,
            Rank::Jack => Action::Hit,
            Rank::Queen => Action::Hit,
            Rank::King => Action::Hit,
            Rank::Ace => Action::Hit,
            _ => Action::DoubleDown,
        };
    }
    if val == 11 {
        return Action::DoubleDown;
    }
    if val >= 17 {
        return Action::Stand;
    }
    // Twelve to sixteen.
    match up_card {
        Rank::Two => Action::Stand,
        Rank::Three => Action::Stand,
        Rank::Four => Action::Stand,
        Rank::Five => Action::Stand,
        Rank::Six => Action::Stand,
        _ => Action::Hit,
    }
}

/// The table is a total function: every total from 0 to 30, against every
/// up card, gives exactly one action, and every total of 17 or more stands.
pub proof fn lemma_decide_total(total: int, up_card: Rank)
    requires
        0 <= total <= 30,
    ensures
        (decide(total, up_card) is Hit) as int + (decide(total, up_card) is Stand) as int
            + (decide(total, up_card) is DoubleDown) as int == 1,
        total >= 17 ==> decide(total, up_card) == Action::Stand,
{
}

/// The table only asks for a card (a hit or a double down) on a total of
/// 16 or less.
pub proof fn lemma_decide_draws_below_17(total: int, up_card: Rank)
    requires
        decide(total, up_card) != Action::Stand,
    ensures
        total <= 16,
{
}

} // verus!
