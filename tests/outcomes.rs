use blackjack::card::{Card, Rank, Suit};
use blackjack::hand::{Hand, Outcome, Strategy};

fn cards(suit: Suit, ranks: &[Rank]) -> Vec<Card> {
    ranks.iter().map(|r| Card { suit, rank: *r }).collect()
}

fn outcome(player: &[Rank], dealer: &[Rank]) -> Outcome {
    let player = Hand::from_vector(
        "player",
        Strategy::ProbabilityTable,
        cards(Suit::Clubs, player),
    );
    let dealer = Hand::from_vector("dealer", Strategy::Dealer, cards(Suit::Diamonds, dealer));
    Hand::determine_outcome(&player, &dealer)
}

#[test]
fn check_outcome_higher_total_wins() {
    assert_eq!(outcome(&[Rank::Jack, Rank::Eight], &[Rank::Jack, Rank::Seven]), Outcome::Win);
}

#[test]
fn check_outcome_lower_total_loses() {
    assert_eq!(outcome(&[Rank::Jack, Rank::Seven], &[Rank::Jack, Rank::Eight]), Outcome::Loss);
}

#[test]
fn check_outcome_single_cards_push() {
    assert_eq!(outcome(&[Rank::Jack], &[Rank::King]), Outcome::Push);
}

#[test]
fn check_outcome_two_blackjacks_push() {
    assert_eq!(outcome(&[Rank::Jack, Rank::Ace], &[Rank::Jack, Rank::Ace]), Outcome::Push);
}

#[test]
fn check_outcome_three_card_21_wins() {
    assert_eq!(
        outcome(&[Rank::Jack, Rank::Six, Rank::Five], &[Rank::Jack, Rank::King]),
        Outcome::Win
    );
}

#[test]
fn check_outcome_loses_to_three_card_21() {
    assert_eq!(
        outcome(&[Rank::Jack, Rank::King], &[Rank::Jack, Rank::Six, Rank::Five]),
        Outcome::Loss
    );
}

#[test]
fn check_outcome_blackjack_beats_20() {
    assert_eq!(outcome(&[Rank::Jack, Rank::Ace], &[Rank::Jack, Rank::King]), Outcome::Win);
}

#[test]
fn check_outcome_20_loses_to_blackjack() {
    assert_eq!(outcome(&[Rank::Jack, Rank::King], &[Rank::Jack, Rank::Ace]), Outcome::Loss);
}

#[test]
fn check_outcome_blackjack_pushes_blackjack() {
    assert_eq!(outcome(&[Rank::Jack, Rank::Ace], &[Rank::Jack, Rank::Ace]), Outcome::Push);
}

#[test]
fn check_outcome_dealer_bust_wins() {
    assert_eq!(
        outcome(&[Rank::Jack, Rank::Three], &[Rank::Jack, Rank::King, Rank::Two]),
        Outcome::Win
    );
}

#[test]
fn check_outcome_player_bust_loses() {
    assert_eq!(
        outcome(&[Rank::Jack, Rank::King, Rank::Two], &[Rank::Jack, Rank::Three]),
        Outcome::Loss
    );
}

#[test]
fn check_outcome_both_bust_player_loses() {
    assert_eq!(
        outcome(&[Rank::Jack, Rank::King, Rank::Two], &[Rank::Jack, Rank::King, Rank::Two]),
        Outcome::Loss
    );
}

#[test]
fn bust_player_loses_against_17() {
    assert_eq!(
        outcome(&[Rank::Jack, Rank::King, Rank::Two], &[Rank::Jack, Rank::Seven]),
        Outcome::Loss
    );
}

#[test]
fn soft_hand_scores_low_sum_when_high_busts() {
    // Ace, Nine, Five: high sum 25 busts, so the hand scores 15 and loses to 17.
    assert_eq!(
        outcome(&[Rank::Ace, Rank::Nine, Rank::Five], &[Rank::Jack, Rank::Seven]),
        Outcome::Loss
    );
}

#[test]
fn resolution_is_antisymmetric_on_examples() {
    let hands: Vec<Vec<Rank>> = vec![
        vec![Rank::Jack, Rank::Eight],
        vec![Rank::Jack, Rank::Seven],
        vec![Rank::Jack, Rank::Ace],
        vec![Rank::King],
        vec![Rank::Jack],
        vec![Rank::Jack, Rank::King, Rank::Two],
        vec![Rank::Ace, Rank::Ace, Rank::Nine],
    ];
    for a in hands.iter() {
        for b in hands.iter() {
            let ab = outcome(a, b);
            let ba = outcome(b, a);
            assert_eq!(ab == Outcome::Push, ba == Outcome::Push);
            if ab == Outcome::Win {
                assert_eq!(ba, Outcome::Loss);
            }
            let both_bust = a.len() == 3 && a[2] == Rank::Two && b.len() == 3 && b[2] == Rank::Two;
            if ba == Outcome::Loss && !both_bust {
                assert_eq!(ab, Outcome::Win);
            }
        }
    }
}
