use vstd::prelude::*;

use crate::escrow::Transfer;
use crate::types::AccountId;

verus! {

/// The audit record of one state transition.
#[derive(Clone, Debug)]
pub enum RaffleEvent {
    RaffleCreated {
        raffle_id: u64,
        creator: AccountId,
        description: String,
        end_time: u64,
        max_tickets: u32,
        allow_multiple: bool,
        ticket_price: i128,
        payment_token: AccountId,
        prize_amount: i128,
    },
    PrizeDeposited { raffle_id: u64, amount: i128 },
    TicketPurchased { raffle_id: u64, buyer: AccountId, ticket_index: u32, tickets_sold: u32 },
    RaffleFinalized { raffle_id: u64, winner: AccountId, winning_index: u32 },
    PrizeClaimed { raffle_id: u64, winner: AccountId, amount: i128 },
    RaffleCancelled { raffle_id: u64 },
}

/// What an accepted operation asks of the host: the transfers to carry out,
/// all or none, and the events to publish once they went through.
pub struct Effects {
    pub transfers: Vec<Transfer>,
    pub events: Vec<RaffleEvent>,
}

} // verus!
