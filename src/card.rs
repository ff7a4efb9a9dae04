//! Suits, ranks and cards.

use vstd::prelude::*;

verus! {

/// The best total a hand can reach without going bust.
pub const MAX_BLACKJACK: usize = 21;

/// The suit of a card. It has no effect on play.
#[derive(Clone, Copy, Debug, PartialEq, Eq, Structural)]
pub enum Suit {
    Hearts,
    Diamonds,
    Spades,
    Clubs,
}

/// Every suit, in the order in which a fresh deck is built.
pub open spec fn all_suits() -> Seq<Suit> {
    seq![Suit::Hearts, Suit::Diamonds, Suit::Spades, Suit::Clubs]
}

impl Suit {
    /// Every suit, in the order of `all_suits`.
    pub fn iter() -> (r: Vec<Suit>)
        ensures
            r@ == all_suits(),
    {
        let r = vec![Suit::Hearts, Suit::Diamonds, Suit::Spades, Suit::Clubs];
        assert(r@ =~= all_suits());
        r
    }
}

/// The rank of a card.
#[derive(Clone, Copy, Debug, PartialEq, Eq, Structural)]
pub enum Rank {
    Two,
    Three,
    Four,
    Five,
    Six,
    Seven,
    Eight,
    Nine,
    Ten,
    Jack,
    Queen,
    King,
    Ace,
}

/// Every rank, from two up to the ace.
pub open spec fn all_ranks() -> Seq<Rank> {
    seq![
        Rank::Two,
        Rank::Three,
        Rank::Four,
        Rank::Five,
        Rank::Six,
        Rank::Seven,
        Rank::Eight,
        Rank::Nine,
        Rank::Ten,
        Rank::Jack,
        Rank::Queen,
        Rank::King,
        Rank::Ace,
    ]
}

impl Rank {
    /// Face value of a rank: its number for two to ten, ten for a face
    /// card, eleven for an ace.
    pub open spec fn spec_value(self) -> nat {
        match self {
            Rank::Two => 2,
            Rank::Three => 3,
            Rank::Four => 4,
            Rank::Five => 5,
            Rank::Six => 6,
            Rank::Seven => 7,
            Rank::Eight => 8,
            Rank::Nine => 9,
            Rank::Ten => 10,
            Rank::Jack => 10,
            Rank::Queen => 10,
            Rank::King => 10,
            Rank::Ace => 11,
        }
    }

    /// Returns the numeric value of the rank (an ace counts eleven here).
    pub fn value(&self) -> (r: usize)
        ensures
            r == self.spec_value(),
    {
        match *self {
            Rank::Two => 2,
            Rank::Three => 3,
            Rank::Four => 4,
            Rank::Five => 5,
            Rank::Six => 6,
            Rank::Seven => 7,
            Rank::Eight => 8,
            Rank::Nine => 9,
            Rank::Ten => 10,
            Rank::Jack => 10,
            Rank::Queen => 10,
            Rank::King => 10,
            Rank::Ace => 11,
        }
    }

    /// Every rank, in the order of `all_ranks`.
    pub fn iter() -> (r: Vec<Rank>)
        ensures
            r@ == all_ranks(),
    {
        let r = vec![
            Rank::Two,
            Rank::Three,
            Rank::Four,
            Rank::Five,
            Rank::Six,
            Rank::Seven,
            Rank::Eight,
            Rank::Nine,
            Rank::Ten,
            Rank::Jack,
            Rank::Queen,
            Rank::King,
            Rank::Ace,
        ];
        assert(r@ =~= all_ranks());
        r
    }
}

/// A playing card.
#[derive(Clone, Copy, Debug, PartialEq, Eq, Structural)]
pub struct Card {
    pub suit: Suit,
    pub rank: Rank,
}

} // verus!
