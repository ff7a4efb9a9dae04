//! The value of a sequence of cards: the low sum, with every ace counted as
//! one, and the high sum, where an ace counts eleven when the running high
//! sum stays within 21.

use vstd::prelude::*;

use crate::card::{Card, Rank, MAX_BLACKJACK};

verus! {

/// Largest number of cards whose sums are sure to fit in a `usize`: a card
/// adds at most eleven to either sum.
pub const MAX_SUMMABLE_CARDS: usize = usize::MAX / 11;

/// The low and high sums of a hand.
#[derive(Clone, Copy, Debug, PartialEq, Eq, Structural)]
pub struct HandValue {
    pub lo_sum: usize,
    pub hi_sum: usize,
}

/// What a card adds to the low sum: one for an ace, its face value otherwise.
pub open spec fn low_value(r: Rank) -> nat {
    if r == Rank::Ace {
        1
    } else {
        r.spec_value()
    }
}

/// Sum of the cards with every ace counted as one.
pub open spec fn low_sum(cards: Seq<Card>) -> nat
    decreases cards.len(),
{
    if cards.len() == 0 {
        0
    } else {
        low_sum(cards.drop_last()) + low_value(cards.last().rank)
    }
}

/// Sum of the cards taken in order, where an ace adds eleven if the running
/// sum stays within 21 and one otherwise.
pub open spec fn high_sum(cards: Seq<Card>) -> nat
    decreases cards.len(),
{
    if cards.len() == 0 {
        0
    } else {
        let h = high_sum(cards.drop_last());
        if cards.last().rank == Rank::Ace {
            if h + 11 > MAX_BLACKJACK {
                h + 1
            } else {
                h + 11
            }
        } else {
            h + cards.last().rank.spec_value()
        }
    }
}

/// The total a finished hand scores: the high sum unless it is bust, then
/// the low sum.
pub open spec fn final_total(cards: Seq<Card>) -> nat {
    if high_sum(cards) <= MAX_BLACKJACK {
        high_sum(cards)
    } else {
        low_sum(cards)
    }
}

/// Sum of the face values of the cards (an ace counts eleven).
pub open spec fn face_sum(cards: Seq<Card>) -> nat
    decreases cards.len(),
{
    if cards.len() == 0 {
        0
    } else {
        face_sum(cards.drop_last()) + cards.last().rank.spec_value()
    }
}

/// Number of aces among the cards.
pub open spec fn ace_count(cards: Seq<Card>) -> nat
    decreases cards.len(),
{
    if cards.len() == 0 {
        0
    } else {
        ace_count(cards.drop_last()) + if cards.last().rank == Rank::Ace {
            1nat
        } else {
            0nat
        }
    }
}

/// Sum of the face values of the cards that are not aces.
pub open spec fn non_ace_sum(cards: Seq<Card>) -> nat
    decreases cards.len(),
{
    if cards.len() == 0 {
        0
    } else {
        non_ace_sum(cards.drop_last()) + if cards.last().rank == Rank::Ace {
            0nat
        } else {
            cards.last().rank.spec_value()
        }
    }
}

/// At most one ace is counted as eleven: the high sum equals the low sum,
/// or exceeds it by ten and is then at least eleven.
pub proof fn lemma_high_low(cards: Seq<Card>)
    ensures
        high_sum(cards) == low_sum(cards) || (high_sum(cards) == low_sum(cards) + 10
            && high_sum(cards) >= 11),
    decreases cards.len(),
{
    if cards.len() > 0 {
        lemma_high_low(cards.drop_last());
    }
}

/// Every card adds between one and ten to the low sum.
pub proof fn lemma_low_bounds(cards: Seq<Card>)
    ensures
        cards.len() <= low_sum(cards) <= 10 * cards.len(),
    decreases cards.len(),
{
    if cards.len() > 0 {
        lemma_low_bounds(cards.drop_last());
    }
}

/// The high sum is never below the low sum, and the final total lies
/// between them.
pub proof fn lemma_final_between(cards: Seq<Card>)
    ensures
        low_sum(cards) <= final_total(cards) <= high_sum(cards),
        low_sum(cards) <= high_sum(cards) <= low_sum(cards) + 10,
{
    lemma_high_low(cards);
}

/// A hand without aces: the low sum, the high sum and the sum of face values
/// are all the same.
pub proof fn lemma_no_ace_sums(cards: Seq<Card>)
    requires
        forall|i: int| 0 <= i < cards.len() ==> cards[i].rank != Rank::Ace,
    ensures
        low_sum(cards) == face_sum(cards),
        high_sum(cards) == face_sum(cards),
    decreases cards.len(),
{
    if cards.len() > 0 {
        let rest = cards.drop_last();
        assert forall|i: int| 0 <= i < rest.len() implies rest[i].rank != Rank::Ace by {
            assert(rest[i] == cards[i]);
        }
        lemma_no_ace_sums(rest);
        assert(cards.last() == cards[cards.len() - 1]);
    }
}

/// The sums of a hand with no aces or one ace whose other cards add up to
/// at most ten: the high sum counts the ace as eleven.
proof fn lemma_one_soft_ace(cards: Seq<Card>)
    requires
        ace_count(cards) <= 1,
        non_ace_sum(cards) <= 10,
    ensures
        low_sum(cards) == non_ace_sum(cards) + ace_count(cards),
        high_sum(cards) == low_sum(cards) + 10 * ace_count(cards),
    decreases cards.len(),
{
    if cards.len() > 0 {
        lemma_one_soft_ace(cards.drop_last());
    }
}

/// A hand with exactly one ace whose other cards add up to at most ten:
/// the ace counts eleven, so the high sum is the low sum plus ten.
pub proof fn lemma_single_ace_is_soft(cards: Seq<Card>)
    requires
        ace_count(cards) == 1,
        non_ace_sum(cards) <= 10,
    ensures
        high_sum(cards) == low_sum(cards) + 10,
{
    lemma_one_soft_ace(cards);
}

/// When the high sum is bust, the final total is the low sum.
pub proof fn lemma_final_when_high_bust(cards: Seq<Card>)
    requires
        high_sum(cards) > MAX_BLACKJACK,
    ensures
        final_total(cards) == low_sum(cards),
{
}

} // verus!
