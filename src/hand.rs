//! A hand of cards held by the dealer or a player: its value, its credits,
//! the turn state machine and the resolution of a round.

use vstd::prelude::*;

use crate::card::{Card, Rank, MAX_BLACKJACK};
use crate::deck::Deck;
use crate::probability_table::{decide, get_action, Action};
use crate::value::{
    final_total, high_sum, lemma_final_between, lemma_low_bounds, low_sum, HandValue,
    MAX_SUMMABLE_CARDS,
};

verus! {

/// Credits a player starts a session with.
pub const HUMAN_DEFAULT_CREDITS: isize = 100;

/// Bet placed each round by the automated player.
pub const DEFAULT_BET_VALUE: isize = 1;

/// The bet reported by the dealer, who does not bet.
pub const NO_BET_VALUE: isize = 0;

/// The dealer stands once the hand reaches this total.
pub const DEALER_HAND_THRESHOLD: usize = 17;

/// The most cards a hand is expected to hold before it is bust.
pub const MAX_HAND_CARD_COUNT: usize = 11;

/// Position of the dealer's face-down card.
pub const DOWN_CARD_IDX: usize = 0;

/// Position of the dealer's face-up card.
pub const UP_CARD_IDX: usize = 1;

/// Lowest low sum at which a player may double down.
pub const DD_MIN: usize = 9;

/// Highest low sum at which a player may double down.
pub const DD_MAX: usize = 11;

/// How a hand is played.
#[derive(Clone, Copy, Debug, PartialEq, Eq, Structural)]
pub enum Strategy {
    /// Follows the house rule of drawing to 17.
    Dealer,
    /// Takes its actions from an interactive player.
    Human,
    /// Follows the decision table.
    ProbabilityTable,
}

/// The result of a round, from the player's side.
#[derive(Clone, Copy, Debug, PartialEq, Eq, Structural)]
pub enum Outcome {
    Win,
    Loss,
    /// A tie: the bet is returned.
    Push,
}

/// A credit balance: a player's is finite, the dealer's is unlimited.
#[derive(Clone, Copy, Debug, PartialEq, Eq, Structural)]
pub enum Credits {
    Finite(isize),
    Unlimited,
}

/// The balance after `amount` is added (an unlimited one does not change).
pub open spec fn credits_plus(c: Credits, amount: int) -> Credits {
    match c {
        Credits::Finite(n) => Credits::Finite((n + amount) as isize),
        Credits::Unlimited => Credits::Unlimited,
    }
}

/// Whether adding `amount` to the balance stays within an `isize`.
pub open spec fn credits_fit(c: Credits, amount: int) -> bool {
    match c {
        Credits::Finite(n) => isize::MIN <= n + amount <= isize::MAX,
        Credits::Unlimited => true,
    }
}

/// Whether the balance can pay `bet`.
pub open spec fn covers(c: Credits, bet: int) -> bool {
    match c {
        Credits::Finite(n) => n >= bet,
        Credits::Unlimited => true,
    }
}

/// Whether the balance is used up.
pub open spec fn out_of_credits(c: Credits) -> bool {
    c matches Credits::Finite(n) && n <= 0
}

/// A hand that is blackjack (a sum of exactly 21) or bust ends its turn
/// before any strategy is asked.
pub open spec fn turn_ends(cards: Seq<Card>) -> bool {
    low_sum(cards) == MAX_BLACKJACK || high_sum(cards) == MAX_BLACKJACK || low_sum(cards)
        > MAX_BLACKJACK
}

/// The dealer stands on a low sum of 17 or more, or on a high sum from 17
/// to 20.
pub open spec fn dealer_stands(cards: Seq<Card>) -> bool {
    low_sum(cards) >= DEALER_HAND_THRESHOLD || (high_sum(cards) < MAX_BLACKJACK && high_sum(cards)
        >= DEALER_HAND_THRESHOLD)
}

/// Outcome for a player whose final total is `player` against a dealer
/// whose final total is `dealer`. A bust player loses even to a bust dealer.
pub open spec fn resolve(player: int, dealer: int) -> Outcome {
    if player > MAX_BLACKJACK {
        Outcome::Loss
    } else if dealer > MAX_BLACKJACK {
        Outcome::Win
    } else if player == dealer {
        Outcome::Push
    } else if MAX_BLACKJACK - player > MAX_BLACKJACK - dealer {
        Outcome::Loss
    } else {
        Outcome::Win
    }
}

/// Outcome of the player's cards against the dealer's cards.
pub open spec fn outcome_of(player: Seq<Card>, dealer: Seq<Card>) -> Outcome {
    resolve(final_total(player) as int, final_total(dealer) as int)
}

/// Resolution is antisymmetric. A win for the first cards against the
/// second is a loss for the second against the first; the converse holds
/// unless both are bust (then each loses as the player). A push is a push
/// both ways.
pub proof fn lemma_resolve_antisymmetric(a: Seq<Card>, b: Seq<Card>)
    ensures
        outcome_of(a, b) == Outcome::Win ==> outcome_of(b, a) == Outcome::Loss,
        !(final_total(a) > MAX_BLACKJACK && final_total(b) > MAX_BLACKJACK) ==> (outcome_of(b, a)
            == Outcome::Loss ==> outcome_of(a, b) == Outcome::Win),
        outcome_of(a, b) == Outcome::Push <==> outcome_of(b, a) == Outcome::Push,
{
}

/// The abstract state of a hand.
pub struct HandView {
    pub name: Seq<char>,
    pub cards: Seq<Card>,
    pub strategy: Strategy,
    pub credits: Credits,
    /// Whether the dealer's down card is shown when the hand is displayed.
    pub revealed: bool,
}

impl HandView {
    /// The hand after the top card of `deck` is added to it.
    pub open spec fn drawn(self, deck: Seq<Card>) -> HandView {
        HandView { cards: self.cards.push(deck.last()), ..self }
    }

    /// The hand after `amount` is added to its credits.
    pub open spec fn credited(self, amount: int) -> HandView {
        HandView { credits: credits_plus(self.credits, amount), ..self }
    }

    /// Whether the hand may double down on `bet`: the credits cover the bet
    /// and the low sum lies from `DD_MIN` to `DD_MAX`.
    pub open spec fn may_double(self, bet: int) -> bool {
        covers(self.credits, bet) && DD_MIN <= low_sum(self.cards) <= DD_MAX
    }

    /// The hand's invariant: its sums fit in a `usize`, and a dealer has
    /// unlimited credits.
    pub open spec fn wf(self) -> bool {
        &&& self.cards.len() <= MAX_SUMMABLE_CARDS
        &&& self.strategy == Strategy::Dealer ==> self.credits == Credits::Unlimited
    }
}

/// One step of a turn drew the top card and nothing else changed.
pub open spec fn draws_card(
    old_hand: HandView,
    old_deck: Seq<Card>,
    new_hand: HandView,
    new_deck: Seq<Card>,
) -> bool {
    new_hand == old_hand.drawn(old_deck) && new_deck == old_deck.drop_last()
}

/// One step of a turn by the dealer's rule, once blackjack and bust are
/// ruled out: it stands, or draws a card and goes on.
pub open spec fn dealer_step(
    old_hand: HandView,
    old_deck: Seq<Card>,
    new_hand: HandView,
    new_deck: Seq<Card>,
    stop: bool,
) -> bool {
    &&& stop == dealer_stands(old_hand.cards)
    &&& stop ==> new_hand == old_hand && new_deck == old_deck
    &&& !stop ==> draws_card(old_hand, old_deck, new_hand, new_deck)
}

/// A double down when it is allowed: the bet is paid, one card is drawn and
/// the turn ends with the bet doubled. Otherwise `otherwise` happens.
pub open spec fn double_step(
    old_hand: HandView,
    old_deck: Seq<Card>,
    bet: int,
    new_hand: HandView,
    new_deck: Seq<Card>,
    r: (bool, isize),
    otherwise: bool,
) -> bool {
    if old_hand.may_double(bet) {
        &&& r == (true, (2 * bet) as isize)
        &&& new_hand == old_hand.credited(-bet).drawn(old_deck)
        &&& new_deck == old_deck.drop_last()
    } else {
        otherwise
    }
}

/// One step of a turn by the decision table, consulted with the final total
/// and the dealer's up card. A double down that is not allowed is a hit.
pub open spec fn table_step(
    old_hand: HandView,
    old_deck: Seq<Card>,
    bet: int,
    up_card: Rank,
    new_hand: HandView,
    new_deck: Seq<Card>,
    r: (bool, isize),
) -> bool {
    let hit = r == (false, bet as isize) && draws_card(old_hand, old_deck, new_hand, new_deck);
    match decide(final_total(old_hand.cards) as int, up_card) {
        Action::Hit => hit,
        Action::Stand => r == (true, bet as isize) && new_hand == old_hand && new_deck == old_deck,
        Action::DoubleDown => double_step(old_hand, old_deck, bet, new_hand, new_deck, r, hit),
    }
}

/// One step of an interactive turn with the player's `choice`. The turn
/// ends at once when the credits are used up, on blackjack and on bust. A
/// double down that is not allowed does nothing.
pub open spec fn human_step(
    old_hand: HandView,
    old_deck: Seq<Card>,
    bet: int,
    choice: Action,
    new_hand: HandView,
    new_deck: Seq<Card>,
    r: (bool, isize),
) -> bool {
    let unchanged = new_hand == old_hand && new_deck == old_deck;
    if out_of_credits(old_hand.credits) || turn_ends(old_hand.cards) {
        r == (true, bet as isize) && unchanged
    } else {
        match choice {
            Action::Hit => r == (false, bet as isize) && draws_card(
                old_hand,
                old_deck,
                new_hand,
                new_deck,
            ),
            Action::Stand => r == (true, bet as isize) && unchanged,
            Action::DoubleDown => double_step(
                old_hand,
                old_deck,
                bet,
                new_hand,
                new_deck,
                r,
                r == (false, bet as isize) && unchanged,
            ),
        }
    }
}

/// Whether a step of `play_once` draws a card: the hand is neither
/// blackjack nor bust, and the dealer's rule (for the dealer) or the
/// decision table (for anyone else) does not stand.
pub open spec fn step_draws(hand: HandView, up_card: Rank) -> bool {
    &&& !turn_ends(hand.cards)
    &&& if hand.strategy == Strategy::Dealer {
        !dealer_stands(hand.cards)
    } else {
        decide(final_total(hand.cards) as int, up_card) != Action::Stand
    }
}

/// Whether a step of `play_human` with `choice` draws a card: the turn is
/// not over at once, and the choice is a hit or an allowed double down.
pub open spec fn human_step_draws(hand: HandView, bet: int, choice: Action) -> bool {
    &&& !(out_of_credits(hand.credits) || turn_ends(hand.cards))
    &&& (choice == Action::Hit || (choice == Action::DoubleDown && hand.may_double(bet)))
}

/// A player or dealer's hand.
#[derive(Clone)]
pub struct Hand {
    name: String,
    cards: Vec<Card>,
    strategy: Strategy,
    credits: Credits,
    show_dealer_hand: bool,
}

impl View for Hand {
    type V = HandView;

    closed spec fn view(&self) -> HandView {
        HandView {
            name: self.name@,
            cards: self.cards@,
            strategy: self.strategy,
            credits: self.credits,
            revealed: self.show_dealer_hand,
        }
    }
}

impl Hand {
    /// Constructs an empty hand.
    pub fn new(name: &str, strategy: Strategy, credits: Credits) -> (r: Hand)
        requires
            strategy == Strategy::Dealer ==> credits == Credits::Unlimited,
        ensures
            r@ == (HandView {
                name: name@,
                cards: Seq::empty(),
                strategy,
                credits,
                revealed: false,
            }),
            r@.wf(),
    {
        Hand {
            name: name.to_owned(),
            cards: Vec::with_capacity(MAX_HAND_CARD_COUNT),
            strategy,
            credits,
            show_dealer_hand: false,
        }
    }

    /// Constructs a hand holding the given cards. A dealer gets unlimited
    /// credits, anyone else `HUMAN_DEFAULT_CREDITS`.
    pub fn from_vector(name: &str, strategy: Strategy, vector: Vec<Card>) -> (r: Hand)
        ensures
            r@ == (HandView {
                name: name@,
                cards: vector@,
                strategy,
                credits: if strategy == Strategy::Dealer {
                    Credits::Unlimited
                } else {
                    Credits::Finite(HUMAN_DEFAULT_CREDITS)
                },
                revealed: false,
            }),
    {
        let credits = match strategy {
            Strategy::Dealer => Credits::Unlimited,
            _ => Credits::Finite(HUMAN_DEFAULT_CREDITS),
        };
        Hand {
            name: name.to_owned(),
            cards: vector,
            strategy,
            credits,
            show_dealer_hand: false,
        }
    }

    /// Determines the outcome of a round from the player's and the dealer's
    /// finished hands.
    pub fn determine_outcome(player: &Hand, dealer: &Hand) -> (r: Outcome)
        requires
            player@.cards.len() <= MAX_SUMMABLE_CARDS,
            dealer@.cards.len() <= MAX_SUMMABLE_CARDS,
        ensures
            r == outcome_of(player@.cards, dealer@.cards),
    {
        let player_val = player.final_value();
        let dealer_val = dealer.final_value();

        // A bust player loses, whatever the dealer holds.
        if player_val > MAX_BLACKJACK {
            return Outcome::Loss;
        }
        if dealer_val > MAX_BLACKJACK {
            return Outcome::Win;
        }
        if player_val == dealer_val {
            return Outcome::Push;
        }
        // Neither is bust, so both distances to 21 are non-negative.
        let player_diff = MAX_BLACKJACK - player_val;
        let dealer_diff = MAX_BLACKJACK - dealer_val;
        if player_diff > dealer_diff {
            return Outcome::Loss;
        }
        Outcome::Win
    }

    /// Returns the low sum (every ace as one) and the high sum (one ace as
    /// eleven where that does not go past 21) of the hand.
    pub fn value(&self) -> (r: HandValue)
        requires
            self@.cards.len() <= MAX_SUMMABLE_CARDS,
        ensures
            r.lo_sum == low_sum(self@.cards),
            r.hi_sum == high_sum(self@.cards),
    {
        let mut lo_sum: usize = 0;
        let mut hi_sum: usize = 0;
        let mut i: usize = 0;
        while i < self.cards.len()
            invariant
                i <= self.cards@.len() <= MAX_SUMMABLE_CARDS,
                lo_sum == low_sum(self.cards@.take(i as int)),
                hi_sum == high_sum(self.cards@.take(i as int)),
            decreases self.cards@.len() - i,
        {
            let card = self.cards[i];
            proof {
                let prefix = self.cards@.take(i as int);
                lemma_low_bounds(prefix);
                lemma_final_between(prefix);
                assert(self.cards@.take(i + 1).drop_last() =~= prefix);
            }
            if card.rank == Rank::Ace {
                lo_sum += 1;
                if hi_sum + 11 > MAX_BLACKJACK {
                    hi_sum += 1;
                } else {
                    hi_sum += 11;
                }
            } else {
                lo_sum += card.rank.value();
                hi_sum += card.rank.value();
            }
            i += 1;
        }
        assert(self.cards@.take(i as int) =~= self.cards@);
        HandValue { lo_sum, hi_sum }
    }

    /// Returns the total the hand scores at the end of the round: the high
    /// sum unless it is bust, else the low sum.
    pub fn final_value(&self) -> (r: usize)
        requires
            self@.cards.len() <= MAX_SUMMABLE_CARDS,
        ensures
            r == final_total(self@.cards),
    {
        let val = self.value();
        if val.hi_sum <= MAX_BLACKJACK {
            return val.hi_sum;
        }
        val.lo_sum
    }

    /// The hand's credit balance.
    pub fn get_credits(&self) -> (r: Credits)
        ensures
            r == self@.credits,
    {
        self.credits
    }

    /// Adds credits; an unlimited balance stays unlimited.
    pub fn add_credits(&mut self, to_add: isize)
        requires
            credits_fit(old(self)@.credits, to_add as int),
        ensures
            final(self)@ == old(self)@.credited(to_add as int),
    {
        if let Credits::Finite(n) = self.credits {
            self.credits = Credits::Finite(n + to_add);
        }
    }

    /// Subtracts credits; an unlimited balance stays unlimited.
    pub fn sub_credits(&mut self, to_sub: isize)
        requires
            credits_fit(old(self)@.credits, -to_sub),
        ensures
            final(self)@ == old(self)@.credited(-to_sub),
    {
        if let Credits::Finite(n) = self.credits {
            self.credits = Credits::Finite(n - to_sub);
        }
    }

    /// Deals the top card of the deck to the hand.
    pub fn hit(&mut self, deck: &mut Deck)
        requires
            old(deck)@.len() > 0,
        ensures
            draws_card(old(self)@, old(deck)@, final(self)@, final(deck)@),
    {
        match deck.deal() {
            Some(c) => self.cards.push(c),
            None => {},
        }
    }

    /// Returns true if doubling down on `bet` is allowed now.
    pub fn can_double_down(&self, bet: isize) -> (r: bool)
        requires
            self@.cards.len() <= MAX_SUMMABLE_CARDS,
        ensures
            r == self@.may_double(bet as int),
            (self@.credits matches Credits::Finite(n) && n < bet) ==> !r,
    {
        // Insufficient credits rule it out whatever the total.
        if let Credits::Finite(n) = self.credits {
            if n < bet {
                return false;
            }
        }
        let val = self.value().lo_sum;
        val >= DD_MIN && val <= DD_MAX
    }

    /// A double down: pays the bet again, draws one card and returns the
    /// doubled bet.
    pub fn double_down(&mut self, deck: &mut Deck, bet: isize) -> (r: isize)
        requires
            old(deck)@.len() > 0,
            credits_fit(old(self)@.credits, -bet),
            isize::MIN <= 2 * bet <= isize::MAX,
        ensures
            r == 2 * bet,
            final(self)@ == old(self)@.credited(-bet).drawn(old(deck)@),
            final(deck)@ == old(deck)@.drop_last(),
    {
        self.sub_credits(bet);
        self.hit(deck);
        2 * bet
    }

    /// The rank of the dealer's face-up card.
    pub fn get_up_card_rank(&self) -> (r: Rank)
        requires
            self@.strategy == Strategy::Dealer,
            self@.cards.len() > UP_CARD_IDX,
        ensures
            r == self@.cards[UP_CARD_IDX as int].rank,
    {
        self.cards[UP_CARD_IDX].rank
    }

    /// Shows the dealer's down card from now on.
    pub fn show_hand(&mut self)
        ensures
            final(self)@ == (HandView { revealed: true, ..old(self)@ }),
    {
        self.show_dealer_hand = true;
    }

    /// Empties the hand for the next round; name, strategy and credits stay.
    pub fn clear_hand(&mut self)
        ensures
            final(self)@ == (HandView { cards: Seq::empty(), revealed: false, ..old(self)@ }),
    {
        self.cards.clear();
        self.show_dealer_hand = false;
    }

    /// Whether the hand is blackjack (a sum of exactly 21) or bust.
    pub fn blackjack_or_bust(&self) -> (r: bool)
        requires
            self@.cards.len() <= MAX_SUMMABLE_CARDS,
        ensures
            r == turn_ends(self@.cards),
    {
        let val = self.value();
        val.lo_sum == MAX_BLACKJACK || val.hi_sum == MAX_BLACKJACK || val.lo_sum > MAX_BLACKJACK
    }

    /// The dealer's rule. Returns true if the dealer stands.
    fn play_dealer(&mut self, deck: &mut Deck) -> (r: bool)
        requires
            !dealer_stands(old(self)@.cards) ==> old(deck)@.len() > 0,
            old(self)@.cards.len() <= MAX_SUMMABLE_CARDS,
        ensures
            dealer_step(old(self)@, old(deck)@, final(self)@, final(deck)@, r),
    {
        let hand_val = self.value();
        if hand_val.lo_sum >= DEALER_HAND_THRESHOLD {
            return true;
        }
        // The threshold is met by counting an ace as eleven without busting.
        if hand_val.hi_sum < MAX_BLACKJACK && hand_val.hi_sum >= DEALER_HAND_THRESHOLD {
            return true;
        }
        self.hit(deck);
        false
    }

    /// One step by the decision table. Returns whether the turn ended and
    /// the bet.
    fn play_probability_table(&mut self, deck: &mut Deck, bet: isize, up_card: Rank) -> (r: (
        bool,
        isize,
    ))
        requires
            decide(final_total(old(self)@.cards) as int, up_card) != Action::Stand ==> old(deck)@.len()
                > 0,
            old(self)@.cards.len() <= MAX_SUMMABLE_CARDS,
            0 <= bet,
            2 * bet <= isize::MAX,
        ensures
            table_step(old(self)@, old(deck)@, bet as int, up_card, final(self)@, final(deck)@, r),
    {
        match get_action(self.final_value(), up_card) {
            Action::Hit => self.hit(deck),
            Action::DoubleDown => {
                // Without the credits or outside the window it is a hit.
                if self.can_double_down(bet) {
                    return (true, self.double_down(deck, bet));
                }
                self.hit(deck)
            },
            Action::Stand => return (true, bet),
        }
        (false, bet)
    }

    /// Whether an interactive turn is over before the player is asked: the
    /// credits are used up, or the hand is blackjack or bust.
    pub fn human_turn_over(&self) -> (r: bool)
        requires
            self@.cards.len() <= MAX_SUMMABLE_CARDS,
        ensures
            r == (out_of_credits(self@.credits) || turn_ends(self@.cards)),
    {
        if let Credits::Finite(n) = self.credits {
            if n <= 0 {
                return true;
            }
        }
        self.blackjack_or_bust()
    }

    /// One step of an interactive turn with the action the player chose.
    /// Returns whether the turn ended and the bet.
    pub fn play_human(&mut self, deck: &mut Deck, bet: isize, choice: Action) -> (r: (bool, isize))
        requires
            human_step_draws(old(self)@, bet as int, choice) ==> old(deck)@.len() > 0,
            old(self)@.cards.len() <= MAX_SUMMABLE_CARDS,
            0 <= bet,
            2 * bet <= isize::MAX,
        ensures
            human_step(old(self)@, old(deck)@, bet as int, choice, final(self)@, final(deck)@, r),
    {
        if self.human_turn_over() {
            return (true, bet);
        }
        match choice {
            Action::Hit => {
                self.hit(deck);
                (false, bet)
            },
            Action::DoubleDown => {
                if self.can_double_down(bet) {
                    (true, self.double_down(deck, bet))
                } else {
                    (false, bet)
                }
            },
            Action::Stand => (true, bet),
        }
    }

    /// Plays one step of the turn by the hand's strategy. Returns whether
    /// the turn ended and the bet (always `NO_BET_VALUE` for the dealer).
    /// Blackjack and bust end any turn before the strategy is asked.
    pub fn play_once(&mut self, deck: &mut Deck, bet: isize, up_card: Rank) -> (r: (bool, isize))
        requires
            step_draws(old(self)@, up_card) ==> old(deck)@.len() > 0,
            old(self)@.cards.len() <= MAX_SUMMABLE_CARDS,
            old(self)@.strategy != Strategy::Human,
            0 <= bet,
            2 * bet <= isize::MAX,
        ensures
            turn_ends(old(self)@.cards) ==> r == (true, if old(self)@.strategy == Strategy::Dealer {
                NO_BET_VALUE
            } else {
                bet
            }) && final(self)@ == old(self)@ && final(deck)@ == old(deck)@,
            !turn_ends(old(self)@.cards) && old(self)@.strategy == Strategy::Dealer ==> r.1
                == NO_BET_VALUE && dealer_step(
                old(self)@,
                old(deck)@,
                final(self)@,
                final(deck)@,
                r.0,
            ),
            !turn_ends(old(self)@.cards) && old(self)@.strategy == Strategy::ProbabilityTable
                ==> table_step(
                old(self)@,
                old(deck)@,
                bet as int,
                up_card,
                final(self)@,
                final(deck)@,
                r,
            ),
    {
        let is_dealer = self.strategy == Strategy::Dealer;
        if self.blackjack_or_bust() {
            return (true, if is_dealer { NO_BET_VALUE } else { bet });
        }
        if is_dealer {
            (self.play_dealer(deck), NO_BET_VALUE)
        } else {
            self.play_probability_table(deck, bet, up_card)
        }
    }

    /// Whether the next `play_once` step of this hand draws a card.
    pub fn step_draws_card(&self, up_card: Rank) -> (r: bool)
        requires
            self@.cards.len() <= MAX_SUMMABLE_CARDS,
        ensures
            r == step_draws(self@, up_card),
    {
        if self.blackjack_or_bust() {
            return false;
        }
        match self.strategy {
            Strategy::Dealer => {
                let val = self.value();
                !(val.lo_sum >= DEALER_HAND_THRESHOLD || (val.hi_sum < MAX_BLACKJACK && val.hi_sum
                    >= DEALER_HAND_THRESHOLD))
            },
            _ => get_action(self.final_value(), up_card) != Action::Stand,
        }
    }

    /// The hand's name.
    pub fn name(&self) -> (r: &str)
        ensures
            r@ == self@.name,
    {
        self.name.as_str()
    }

    /// The cards in the hand, in the order they were dealt.
    pub fn cards(&self) -> (r: &Vec<Card>)
        ensures
            r@ == self@.cards,
    {
        &self.cards
    }

    /// How the hand is played.
    pub fn strategy(&self) -> (r: Strategy)
        ensures
            r == self@.strategy,
    {
        self.strategy
    }

    /// Whether the dealer's down card is shown.
    pub fn is_revealed(&self) -> (r: bool)
        ensures
            r == self@.revealed,
    {
        self.show_dealer_hand
    }
}

} // verus!
