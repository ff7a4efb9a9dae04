//! Round simulation engine for a blackjack table: hand values with one soft
//! ace, the fixed decision table of the automated player, the per-hand turn
//! state machine, outcome resolution, session running and statistics.

pub mod card;
pub mod deck;
pub mod hand;
pub mod probability_table;
pub mod session;
pub mod stats;
pub mod value;
