use blackjack::card::{Card, Rank, Suit};
use blackjack::hand::{Credits, Hand, Strategy};

fn hand(ranks: &[Rank]) -> Hand {
    let cards = ranks.iter().map(|r| Card { suit: Suit::Spades, rank: *r }).collect();
    Hand::from_vector("p", Strategy::ProbabilityTable, cards)
}

fn sums(ranks: &[Rank]) -> (usize, usize) {
    let v = hand(ranks).value();
    (v.lo_sum, v.hi_sum)
}

#[test]
fn empty_hand_is_zero() {
    assert_eq!(sums(&[]), (0, 0));
    assert_eq!(hand(&[]).final_value(), 0);
}

#[test]
fn no_ace_sums_agree_with_face_values() {
    let ranks = [Rank::Two, Rank::Nine, Rank::Queen, Rank::Five];
    let face: usize = ranks.iter().map(|r| r.value()).sum();
    assert_eq!(face, 26);
    assert_eq!(sums(&ranks), (face, face));
    assert_eq!(sums(&[Rank::King, Rank::Seven]), (17, 17));
}

#[test]
fn single_ace_with_small_rest_is_soft() {
    assert_eq!(sums(&[Rank::Ace, Rank::Six]), (7, 17));
    assert_eq!(sums(&[Rank::Four, Rank::Ace, Rank::Six]), (11, 21));
    assert_eq!(sums(&[Rank::Ace]), (1, 11));
}

#[test]
fn ace_after_a_high_total_counts_one() {
    assert_eq!(sums(&[Rank::King, Rank::Five, Rank::Ace]), (16, 16));
}

#[test]
fn only_one_ace_counts_eleven() {
    assert_eq!(sums(&[Rank::Ace, Rank::Ace]), (2, 12));
    assert_eq!(sums(&[Rank::Ace, Rank::Ace, Rank::Ace, Rank::Ace]), (4, 14));
}

#[test]
fn ace_order_matters_for_the_running_sum() {
    // The ace comes after the high sum passed 10, and stays one even though
    // the hand then drops back.
    assert_eq!(sums(&[Rank::Five, Rank::Six, Rank::Ace]), (12, 12));
    assert_eq!(sums(&[Rank::Ace, Rank::Five, Rank::Six]), (12, 22));
}

#[test]
fn final_value_prefers_high_sum() {
    assert_eq!(hand(&[Rank::Ace, Rank::Six]).final_value(), 17);
    assert_eq!(hand(&[Rank::Jack, Rank::Ace]).final_value(), 21);
}

#[test]
fn final_value_falls_back_to_low_sum_when_high_busts() {
    let h = hand(&[Rank::Ace, Rank::Five, Rank::Six]);
    assert_eq!(h.value().hi_sum, 22);
    assert_eq!(h.final_value(), 12);
    let bust = hand(&[Rank::Jack, Rank::King, Rank::Two]);
    assert_eq!(bust.final_value(), 22);
}

#[test]
fn blackjack_or_bust_detection() {
    assert!(hand(&[Rank::Jack, Rank::Ace]).blackjack_or_bust());
    assert!(hand(&[Rank::Jack, Rank::King, Rank::Two]).blackjack_or_bust());
    assert!(hand(&[Rank::Ace, Rank::Five, Rank::Five]).blackjack_or_bust());
    assert!(!hand(&[Rank::Jack, Rank::Nine]).blackjack_or_bust());
}

#[test]
fn can_double_down_window() {
    assert!(hand(&[Rank::Five, Rank::Four]).can_double_down(1));
    assert!(hand(&[Rank::Five, Rank::Six]).can_double_down(1));
    assert!(!hand(&[Rank::Five, Rank::Three]).can_double_down(1));
    assert!(!hand(&[Rank::Five, Rank::Seven]).can_double_down(1));
    // The window looks at the low sum: Ace and Nine is 10 low.
    assert!(hand(&[Rank::Ace, Rank::Nine]).can_double_down(1));
}

#[test]
fn can_double_down_needs_credits() {
    let h = hand(&[Rank::Five, Rank::Five]);
    assert_eq!(h.get_credits(), Credits::Finite(100));
    assert!(h.can_double_down(100));
    assert!(!h.can_double_down(101));
    for total in [&[Rank::Four, Rank::Five][..], &[Rank::Five, Rank::Six][..], &[Rank::Two][..]] {
        assert!(!hand(total).can_double_down(1000));
    }
}

#[test]
fn dealer_has_unlimited_credits() {
    let cards = vec![Card { suit: Suit::Clubs, rank: Rank::Five }];
    let mut dealer = Hand::from_vector("d", Strategy::Dealer, cards);
    assert_eq!(dealer.get_credits(), Credits::Unlimited);
    dealer.sub_credits(50);
    assert_eq!(dealer.get_credits(), Credits::Unlimited);
    let fresh = Hand::new("Dealer", Strategy::Dealer, Credits::Unlimited);
    assert_eq!(fresh.get_credits(), Credits::Unlimited);
    assert!(fresh.cards().is_empty());
}

#[test]
fn credits_add_and_subtract() {
    let mut h = Hand::new("p", Strategy::Human, Credits::Finite(10));
    h.add_credits(5);
    assert_eq!(h.get_credits(), Credits::Finite(15));
    h.sub_credits(20);
    assert_eq!(h.get_credits(), Credits::Finite(-5));
    assert_eq!(h.name(), "p");
    assert_eq!(h.strategy(), Strategy::Human);
}

#[test]
fn up_card_is_the_second_card() {
    let cards = vec![
        Card { suit: Suit::Clubs, rank: Rank::Five },
        Card { suit: Suit::Hearts, rank: Rank::Queen },
    ];
    let dealer = Hand::from_vector("d", Strategy::Dealer, cards);
    assert_eq!(dealer.get_up_card_rank(), Rank::Queen);
}

#[test]
fn show_and_clear_hand() {
    let cards = vec![Card { suit: Suit::Clubs, rank: Rank::Five }];
    let mut dealer = Hand::from_vector("d", Strategy::Dealer, cards);
    assert!(!dealer.is_revealed());
    dealer.show_hand();
    assert!(dealer.is_revealed());
    dealer.clear_hand();
    assert!(!dealer.is_revealed());
    assert!(dealer.cards().is_empty());
    assert_eq!(dealer.get_credits(), Credits::Unlimited);
}
