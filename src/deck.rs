//! A deck of cards: the source from which hands draw.

use rand::seq::SliceRandom;
use vstd::arithmetic::div_mod::lemma_fundamental_div_mod_converse;
use vstd::prelude::*;

use crate::card::{all_ranks, all_suits, Card, Rank, Suit};

verus! {

/// Number of cards in a fresh deck.
pub const SIZE_OF_DECK: usize = 52;

/// The cards of a fresh deck before shuffling: suit by suit, and within a
/// suit from two up to the ace.
pub open spec fn full_deck() -> Seq<Card> {
    Seq::new(52, |i: int| Card { suit: all_suits()[i / 13], rank: all_ranks()[i % 13] })
}

/// Relies on rand's `SliceRandom::shuffle` with the thread-local generator:
/// it reorders the cards by swaps, so the same cards remain.
#[verifier::external_body]
fn shuffle_cards(cards: &mut Vec<Card>)
    ensures
        final(cards)@.to_multiset() == old(cards)@.to_multiset(),
{
    cards.shuffle(&mut rand::thread_rng());
}

/// A deck of cards. Cards are dealt from the end of the sequence.
pub struct Deck {
    cards: Vec<Card>,
}

impl View for Deck {
    type V = Seq<Card>;

    closed spec fn view(&self) -> Seq<Card> {
        self.cards@
    }
}

impl Deck {
    /// Constructs a new deck, holding all 52 cards, shuffled.
    pub fn new() -> (r: Deck)
        ensures
            r@.to_multiset() == full_deck().to_multiset(),
            r@.len() == SIZE_OF_DECK,
    {
        let mut deck = Deck { cards: Vec::with_capacity(SIZE_OF_DECK) };
        let suits = Suit::iter();
        let ranks = Rank::iter();
        let mut s: usize = 0;
        while s < suits.len()
            invariant
                suits@ == all_suits(),
                ranks@ == all_ranks(),
                s <= 4,
                deck.cards@ =~= full_deck().take(s * 13),
            decreases 4 - s,
        {
            let mut k: usize = 0;
            while k < ranks.len()
                invariant
                    suits@ == all_suits(),
                    ranks@ == all_ranks(),
                    s < 4,
                    k <= 13,
                    deck.cards@ =~= full_deck().take(s * 13 + k),
                decreases 13 - k,
            {
                proof {
                    lemma_fundamental_div_mod_converse(s * 13 + k, 13, s as int, k as int);
                }
                deck.cards.push(Card { suit: suits[s], rank: ranks[k] });
                k += 1;
            }
            s += 1;
        }
        assert(deck.cards@ =~= full_deck());
        deck.shuffle();
        proof {
            broadcast use vstd::seq_lib::group_to_multiset_ensures;

            assert(deck@.len() == deck@.to_multiset().len());
            assert(full_deck().len() == full_deck().to_multiset().len());
        }
        deck
    }

    /// Builds a deck holding the given cards; the last one is dealt first.
    pub fn from_cards(cards: Vec<Card>) -> (r: Deck)
        ensures
            r@ == cards@,
    {
        Deck { cards }
    }

    /// Number of cards left in the deck.
    pub fn len(&self) -> (r: usize)
        ensures
            r == self@.len(),
    {
        self.cards.len()
    }

    /// Randomly reorders the cards in the deck.
    pub fn shuffle(&mut self)
        ensures
            final(self)@.to_multiset() == old(self)@.to_multiset(),
    {
        shuffle_cards(&mut self.cards);
    }

    /// Deals one card from the top of the deck, or `None` when it is empty.
    pub fn deal(&mut self) -> (r: Option<Card>)
        ensures
            old(self)@.len() == 0 ==> r is None && final(self)@ == old(self)@,
            old(self)@.len() > 0 ==> r == Some(old(self)@.last()) && final(self)@
                == old(self)@.drop_last(),
    {
        self.cards.pop()
    }
}

/// A freshly shuffled deck, as `Deck::new` gives.
pub fn deck_fixture() -> (r: Deck)
    ensures
        r@.to_multiset() == full_deck().to_multiset(),
        r@.len() == SIZE_OF_DECK,
{
    Deck::new()
}

} // verus!
