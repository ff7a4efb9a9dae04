use blackjack::card::{Card, Rank, Suit};
use blackjack::deck::{deck_fixture, Deck, SIZE_OF_DECK};

#[test]
fn display_cards() {
    let mut deck = deck_fixture();
    deck.deal();
    assert_eq!(deck.len(), 51);
}

#[test]
fn deal_empty_deck() {
    let mut deck = deck_fixture();
    for _ in 0..52 {
        assert!(deck.deal().is_some());
    }
    assert!(deck.deal().is_none());
}

fn unshuffled() -> Vec<Card> {
    let mut cards = Vec::new();
    for s in Suit::iter() {
        for r in Rank::iter() {
            cards.push(Card { suit: s, rank: r });
        }
    }
    cards
}

fn deal_all(mut deck: Deck) -> Vec<Card> {
    let mut out = Vec::new();
    while let Some(c) = deck.deal() {
        out.push(c);
    }
    out
}

#[test]
fn new_deck_holds_every_card_once() {
    let dealt = deal_all(Deck::new());
    assert_eq!(dealt.len(), SIZE_OF_DECK);
    for card in unshuffled() {
        assert_eq!(dealt.iter().filter(|c| **c == card).count(), 1);
    }
}

#[test]
fn new_deck_is_shuffled() {
    // The chance that two shuffles both leave the cards in their build
    // order is negligible.
    let mut build_order = unshuffled();
    build_order.reverse();
    let first = deal_all(Deck::new());
    let second = deal_all(Deck::new());
    assert!(first != build_order || second != build_order);
}

#[test]
fn shuffle_keeps_the_cards() {
    let mut deck = Deck::from_cards(unshuffled());
    deck.shuffle();
    let mut dealt = deal_all(deck);
    assert_eq!(dealt.len(), 52);
    let mut expected = unshuffled();
    let key = |c: &Card| (c.suit as u8, c.rank as u8);
    dealt.sort_by_key(key);
    expected.sort_by_key(key);
    assert_eq!(dealt, expected);
}

#[test]
fn deal_takes_the_last_card() {
    let two = Card { suit: Suit::Hearts, rank: Rank::Two };
    let ace = Card { suit: Suit::Spades, rank: Rank::Ace };
    let mut deck = Deck::from_cards(vec![two, ace]);
    assert_eq!(deck.deal(), Some(ace));
    assert_eq!(deck.deal(), Some(two));
    assert_eq!(deck.deal(), None);
    assert_eq!(deck.len(), 0);
}

#[test]
fn suits_and_ranks_in_order() {
    assert_eq!(
        Suit::iter(),
        vec![Suit::Hearts, Suit::Diamonds, Suit::Spades, Suit::Clubs]
    );
    let ranks = Rank::iter();
    assert_eq!(ranks.len(), 13);
    assert_eq!(ranks[0], Rank::Two);
    assert_eq!(ranks[12], Rank::Ace);
    let values: Vec<usize> = ranks.iter().map(|r| r.value()).collect();
    assert_eq!(values, vec![2, 3, 4, 5, 6, 7, 8, 9, 10, 10, 10, 10, 11]);
}
