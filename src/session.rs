//! One session at the table: rounds between the automated player and the
//! dealer, each from a fresh deck, until the round cap or bankruptcy.

use vstd::prelude::*;

use crate::card::{Card, Rank};
use crate::deck::{full_deck, Deck, SIZE_OF_DECK};
use crate::hand::{
    covers, credits_fit, credits_plus, dealer_stands, outcome_of, turn_ends, Credits, Hand,
    HandView, Outcome, Strategy, DEFAULT_BET_VALUE, HUMAN_DEFAULT_CREDITS, NO_BET_VALUE,
    UP_CARD_IDX,
};
use crate::probability_table::{decide, lemma_decide_draws_below_17, Action};
use crate::stats::RunStats;
use crate::value::{final_total, lemma_final_between, lemma_low_bounds};

verus! {

/// Rounds in one automated session, at most.
pub const DEFAULT_MAX_GAMES_PER_RUN: usize = 50;

/// The most cards a hand holds at the end of a turn: a hand stops drawing
/// once its low sum passes 16, and every card adds at least one to it.
pub const MAX_TURN_CARDS: usize = 17;

/// The player's turn by the decision table, from `hand` and `deck` to the
/// end: the hand, the deck left and the bet. Blackjack, bust and a stand end
/// it; a double down that is allowed draws one card and ends it with the bet
/// doubled; a hit, or a double down that is not allowed, draws a card.
pub open spec fn table_turn(hand: HandView, deck: Seq<Card>, bet: int, up_card: Rank) -> (
    HandView,
    Seq<Card>,
    int,
)
    decreases deck.len(),
{
    if turn_ends(hand.cards) || deck.len() == 0 {
        (hand, deck, bet)
    } else {
        let action = decide(final_total(hand.cards) as int, up_card);
        if action == Action::Stand {
            (hand, deck, bet)
        } else if action == Action::DoubleDown && hand.may_double(bet) {
            (hand.credited(-bet).drawn(deck), deck.drop_last(), 2 * bet)
        } else {
            table_turn(hand.drawn(deck), deck.drop_last(), bet, up_card)
        }
    }
}

/// The dealer's turn from `hand` and `deck` to the end: draw until the
/// dealer's rule stands or the hand is blackjack or bust.
pub open spec fn dealer_turn(hand: HandView, deck: Seq<Card>) -> (HandView, Seq<Card>)
    decreases deck.len(),
{
    if turn_ends(hand.cards) || dealer_stands(hand.cards) || deck.len() == 0 {
        (hand, deck)
    } else {
        dealer_turn(hand.drawn(deck), deck.drop_last())
    }
}

/// The opening deal: two cards each, the player first.
pub open spec fn opening_deal(player: HandView, dealer: HandView, deck: Seq<Card>) -> (
    HandView,
    HandView,
    Seq<Card>,
) {
    let d1 = deck.drop_last();
    let d2 = d1.drop_last();
    let d3 = d2.drop_last();
    (player.drawn(deck).drawn(d2), dealer.drawn(d1).drawn(d3), d3.drop_last())
}

/// What a settled bet pays back: twice the bet on a win, the bet on a push,
/// nothing on a loss.
pub open spec fn payout(outcome: Outcome, bet: int) -> int {
    match outcome {
        Outcome::Win => 2 * bet,
        Outcome::Push => bet,
        Outcome::Loss => 0,
    }
}

/// A whole round: the deal, the bet, the player's turn, the dealer's turn
/// and the settlement. Gives the player's and the dealer's hands, the
/// outcome and the final bet.
pub open spec fn round_result(player: HandView, dealer: HandView, deck: Seq<Card>, bet: int) -> (
    HandView,
    HandView,
    Outcome,
    int,
) {
    let dealt = opening_deal(player, dealer, deck);
    let up_card = dealt.1.cards[UP_CARD_IDX as int].rank;
    let played = table_turn(dealt.0.credited(-bet), dealt.2, bet, up_card);
    let dealer_done = dealer_turn(dealt.1, played.1);
    let outcome = outcome_of(played.0.cards, dealer_done.0.cards);
    (played.0.credited(payout(outcome, played.2)), dealer_done.0, outcome, played.2)
}

/// Deals the opening two cards to the player and the dealer.
pub fn init_game(player: &mut Hand, dealer: &mut Hand, deck: &mut Deck)
    requires
        old(deck)@.len() >= 4,
    ensures
        (final(player)@, final(dealer)@, final(deck)@) == opening_deal(
            old(player)@,
            old(dealer)@,
            old(deck)@,
        ),
{
    player.hit(deck);
    dealer.hit(deck);
    player.hit(deck);
    dealer.hit(deck);
}

/// Clears both hands and returns a fresh shuffled deck for the next round.
pub fn reset_game(player: &mut Hand, dealer: &mut Hand) -> (r: Deck)
    ensures
        final(player)@ == (HandView { cards: Seq::empty(), revealed: false, ..old(player)@ }),
        final(dealer)@ == (HandView { cards: Seq::empty(), revealed: false, ..old(dealer)@ }),
        r@.to_multiset() == full_deck().to_multiset(),
        r@.len() == SIZE_OF_DECK,
{
    player.clear_hand();
    dealer.clear_hand();
    Deck::new()
}

/// Runs the player's turn by the decision table to its end; returns the
/// final bet.
fn play_table_turn(player: &mut Hand, deck: &mut Deck, bet: isize, up_card: Rank) -> (r: isize)
    requires
        old(player)@.strategy == Strategy::ProbabilityTable,
        old(player)@.cards.len() <= MAX_TURN_CARDS,
        old(deck)@.len() + old(player)@.cards.len() > MAX_TURN_CARDS,
        old(player)@.credits matches Credits::Finite(c) && c >= 0,
        0 <= bet,
        2 * bet <= isize::MAX,
    ensures
        (final(player)@, final(deck)@, r as int) == table_turn(
            old(player)@,
            old(deck)@,
            bet as int,
            up_card,
        ),
        final(player)@.strategy == old(player)@.strategy,
        final(player)@.cards.len() <= MAX_TURN_CARDS,
        final(deck)@.len() + final(player)@.cards.len() == old(deck)@.len() + old(player)@.cards.len(),
        r == bet && final(player)@.credits == old(player)@.credits || r == 2 * bet
            && final(player)@.credits == credits_plus(old(player)@.credits, -bet)
            && covers(old(player)@.credits, bet as int),
{
    let ghost total = deck@.len() + player@.cards.len();
    loop
        invariant
            player@.strategy == old(player)@.strategy,
            old(player)@.strategy == Strategy::ProbabilityTable,
            total == old(deck)@.len() + old(player)@.cards.len(),
            player@.cards.len() <= MAX_TURN_CARDS,
            deck@.len() + player@.cards.len() == total,
            total > MAX_TURN_CARDS,
            player@.credits == old(player)@.credits,
            old(player)@.credits matches Credits::Finite(c) && c >= 0,
            0 <= bet,
            2 * bet <= isize::MAX,
            table_turn(player@, deck@, bet as int, up_card) == table_turn(
                old(player)@,
                old(deck)@,
                bet as int,
                up_card,
            ),
        decreases deck@.len(),
    {
        let ghost before = player@;
        let (stop, new_bet) = player.play_once(deck, bet, up_card);
        proof {
            lemma_low_bounds(before.cards);
            lemma_final_between(before.cards);
            let action = decide(final_total(before.cards) as int, up_card);
            if action != Action::Stand {
                lemma_decide_draws_below_17(final_total(before.cards) as int, up_card);
            }
        }
        if stop {
            return new_bet;
        }
    }
}

/// Runs the dealer's turn to its end.
fn play_dealer_turn(dealer: &mut Hand, deck: &mut Deck)
    requires
        old(dealer)@.strategy == Strategy::Dealer,
        old(dealer)@.cards.len() > UP_CARD_IDX,
        old(dealer)@.cards.len() <= MAX_TURN_CARDS,
        old(deck)@.len() + old(dealer)@.cards.len() > MAX_TURN_CARDS,
    ensures
        (final(dealer)@, final(deck)@) == dealer_turn(old(dealer)@, old(deck)@),
        final(dealer)@.strategy == old(dealer)@.strategy,
        final(dealer)@.cards.len() <= MAX_TURN_CARDS,
{
    let ghost total = deck@.len() + dealer@.cards.len();
    loop
        invariant
            dealer@.strategy == old(dealer)@.strategy,
            old(dealer)@.strategy == Strategy::Dealer,
            dealer@.cards.len() > UP_CARD_IDX,
            dealer@.cards.len() <= MAX_TURN_CARDS,
            deck@.len() + dealer@.cards.len() == total,
            total > MAX_TURN_CARDS,
            dealer_turn(dealer@, deck@) == dealer_turn(old(dealer)@, old(deck)@),
        decreases deck@.len(),
    {
        let ghost before = dealer@;
        let up_card = dealer.get_up_card_rank();
        let (stop, _) = dealer.play_once(deck, NO_BET_VALUE, up_card);
        proof {
            lemma_low_bounds(before.cards);
        }
        if stop {
            return;
        }
    }
}

/// Settles the player's final bet: a win pays twice the bet, a push returns
/// it, a loss pays nothing.
pub fn settle_bet(player: &mut Hand, outcome: Outcome, bet: isize)
    requires
        credits_fit(old(player)@.credits, payout(outcome, bet as int)),
        isize::MIN <= payout(outcome, bet as int) <= isize::MAX,
    ensures
        final(player)@ == old(player)@.credited(payout(outcome, bet as int)),
{
    match outcome {
        Outcome::Win => player.add_credits(bet * 2),
        Outcome::Loss => {},
        Outcome::Push => player.add_credits(bet),
    }
}

/// Plays one round from `deck`: the opening deal, the bet, the player's
/// turn by the decision table, the dealer's turn, and the settlement, which
/// pays twice the final bet on a win and returns it on a push. Returns the
/// outcome.
pub fn play_round(player: &mut Hand, dealer: &mut Hand, deck: &mut Deck, bet: isize) -> (r:
    Outcome)
    requires
        old(player)@.strategy == Strategy::ProbabilityTable,
        old(player)@.cards.len() == 0,
        old(dealer)@.strategy == Strategy::Dealer,
        old(dealer)@.cards.len() == 0,
        old(deck)@.len() >= SIZE_OF_DECK,
        old(player)@.credits matches Credits::Finite(c) && 0 <= bet <= c && c + 2 * bet
            <= isize::MAX,
    ensures
        final(player)@ == round_result(old(player)@, old(dealer)@, old(deck)@, bet as int).0,
        final(dealer)@ == round_result(old(player)@, old(dealer)@, old(deck)@, bet as int).1,
        r == round_result(old(player)@, old(dealer)@, old(deck)@, bet as int).2,
        final(player)@.strategy == old(player)@.strategy,
        final(dealer)@.strategy == old(dealer)@.strategy,
        final(player)@.credits matches Credits::Finite(n) && old(player)@.credits matches Credits::Finite(
            c,
        ) && 0 <= n <= c + 2 * bet && (r == Outcome::Win ==> c + bet <= n <= c + 2 * bet) && (r
            == Outcome::Push ==> n == c) && (r == Outcome::Loss ==> c - 2 * bet <= n <= c - bet),
{
    init_game(player, dealer, deck);
    player.sub_credits(bet);
    let up_card = dealer.get_up_card_rank();
    let final_bet = play_table_turn(player, deck, bet, up_card);
    play_dealer_turn(dealer, deck);
    let outcome = Hand::determine_outcome(player, dealer);
    settle_bet(player, outcome, final_bet);
    outcome
}

/// Plays a session of at most `max_games` rounds between the automated
/// player, who starts with `HUMAN_DEFAULT_CREDITS` and bets
/// `DEFAULT_BET_VALUE` a round, and the dealer. Every round uses a fresh
/// shuffled deck; the session stops early once the player has no credits
/// left. Returns the session's statistics with the credits at the end.
pub fn run_automated_match(max_games: usize) -> (r: RunStats)
    requires
        HUMAN_DEFAULT_CREDITS + 2 * DEFAULT_BET_VALUE * max_games <= isize::MAX,
    ensures
        r@.wf(),
        r@.num_games <= max_games,
        max_games > 0 ==> r@.num_games > 0,
        0 <= r@.remaining_credits <= HUMAN_DEFAULT_CREDITS + 2 * DEFAULT_BET_VALUE * r@.num_games,
        r@.num_games < max_games ==> r@.remaining_credits == 0,
        HUMAN_DEFAULT_CREDITS + DEFAULT_BET_VALUE * (r@.wins - 2 * r@.losses) <= r@.remaining_credits
            <= HUMAN_DEFAULT_CREDITS + DEFAULT_BET_VALUE * (2 * r@.wins - r@.losses),
{
    let mut deck = Deck::new();
    let mut dealer = Hand::new("Dealer", Strategy::Dealer, Credits::Unlimited);
    let mut player = Hand::new(
        "Auto Player",
        Strategy::ProbabilityTable,
        Credits::Finite(HUMAN_DEFAULT_CREDITS),
    );
    let mut stats = RunStats::new();
    let mut game: usize = 0;
    while game < max_games
        invariant_except_break
            deck@.len() == SIZE_OF_DECK,
            player@.cards.len() == 0,
            dealer@.cards.len() == 0,
            player@.credits matches Credits::Finite(c) && c >= DEFAULT_BET_VALUE,
        invariant
            HUMAN_DEFAULT_CREDITS + 2 * DEFAULT_BET_VALUE * max_games <= isize::MAX,
            stats@.wf(),
            stats@.num_games == game,
            game <= max_games,
            player@.strategy == Strategy::ProbabilityTable,
            dealer@.strategy == Strategy::Dealer,
            player@.credits matches Credits::Finite(c) && 0 <= c <= HUMAN_DEFAULT_CREDITS + 2
                * DEFAULT_BET_VALUE * game,
            player@.credits matches Credits::Finite(c) && HUMAN_DEFAULT_CREDITS + stats@.wins - 2
                * stats@.losses <= c <= HUMAN_DEFAULT_CREDITS + 2 * stats@.wins - stats@.losses,
        ensures
            game < max_games ==> player@.credits == Credits::Finite(0),
            max_games > 0 ==> game > 0,
        decreases max_games - game,
    {
        proof {
            assert(2 * DEFAULT_BET_VALUE * (game + 1) == 2 * DEFAULT_BET_VALUE * game + 2
                * DEFAULT_BET_VALUE) by (nonlinear_arith);
            assert(2 * DEFAULT_BET_VALUE * (game + 1) <= 2 * DEFAULT_BET_VALUE * max_games) by (
            nonlinear_arith)
                requires
                    game < max_games,
                    DEFAULT_BET_VALUE == 1,
            ;
        }
        let outcome = play_round(&mut player, &mut dealer, &mut deck, DEFAULT_BET_VALUE);
        stats.record_match_end(outcome);
        game += 1;
        // A player without credits cannot bet again.
        if let Credits::Finite(n) = player.get_credits() {
            if n <= 0 {
                break;
            }
        }
        deck = reset_game(&mut player, &mut dealer);
    }
    let credits = match player.get_credits() {
        Credits::Finite(n) => n,
        Credits::Unlimited => 0,
    };
    stats.record_credits(credits);
    proof {
        let w = stats@.wins as int;
        let l = stats@.losses as int;
        assert(DEFAULT_BET_VALUE * (w - 2 * l) == w - 2 * l && DEFAULT_BET_VALUE * (2 * w - l) == 2
            * w - l) by (nonlinear_arith)
            requires
                DEFAULT_BET_VALUE == 1,
        ;
    }
    stats
}

} // verus!
