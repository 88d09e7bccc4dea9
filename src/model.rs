use vstd::prelude::*;

use crate::escrow::{net_flow, refunds_for, Transfer};
use crate::events::RaffleEvent;
use crate::ledger::ticket_at;
use crate::selector::{source_named, winning_index};
use crate::types::{AccountId, Raffle, RaffleError, RaffleStatus, Ticket};

verus! {

/// The state of one raffle as the contracts see it: its record, its tickets,
/// and the funds that the transfers issued so far have put in custody.
pub struct RaffleModel {
    pub raffle: Raffle,
    pub tickets: Seq<Ticket>,
    pub held: int,
}

/// The prize, while it sits in custody: deposited, and neither paid out nor
/// refunded.
pub open spec fn prize_in_custody(r: Raffle) -> int {
    if r.status == RaffleStatus::Active || r.status == RaffleStatus::Finalized {
        r.prize_amount as int
    } else {
        0
    }
}

/// The price of every ticket that was not refunded.
pub open spec fn tickets_in_custody(r: Raffle) -> int {
    if r.status == RaffleStatus::Cancelled {
        0
    } else {
        r.tickets_sold * r.ticket_price
    }
}

/// The funds that a raffle in this state must hold.
pub open spec fn custody(r: Raffle) -> int {
    prize_in_custody(r) + tickets_in_custody(r)
}

impl RaffleModel {
    /// The invariants that hold after every operation.
    pub open spec fn valid(self) -> bool {
        let r = self.raffle;
        &&& r.max_tickets >= 1
        &&& r.ticket_price > 0
        &&& r.prize_amount > 0
        &&& r.tickets_sold <= r.max_tickets
        &&& self.tickets.len() == r.tickets_sold
        &&& forall|i: int|
            0 <= i < self.tickets.len() ==> (#[trigger] self.tickets[i]).index == i
                && self.tickets[i].raffle_id == r.id
        &&& (r.winner is Some <==> (r.status == RaffleStatus::Finalized || r.status
            == RaffleStatus::Claimed))
        &&& (r.winner matches Some(w) ==> exists|k: int|
            0 <= k < self.tickets.len() && (#[trigger] self.tickets[k]).buyer == w)
        &&& self.held == custody(r)
    }
}

/// An operation on an existing raffle, with its inputs.
pub enum Action {
    Deposit { caller: AccountId },
    Buy { buyer: AccountId, quantity: u32, now: u64 },
    Finalize { source: Seq<char>, entropy: u64 },
    /// `winner_only`: whether only the winner may ask for the payout.
    Claim { caller: AccountId, winner_only: bool },
    Cancel { caller: AccountId },
}

/// The outcome of an accepted operation.
pub struct Step {
    pub model: RaffleModel,
    pub transfers: Seq<Transfer>,
    pub events: Seq<RaffleEvent>,
}

pub open spec fn create_error(max_tickets: u32, ticket_price: i128, prize_amount: i128) -> Option<
    RaffleError,
> {
    if max_tickets < 1 || ticket_price <= 0 || prize_amount <= 0 {
        Some(RaffleError::InvalidParameters)
    } else {
        None
    }
}

pub open spec fn deposit_error(m: RaffleModel, caller: AccountId) -> Option<RaffleError> {
    if caller != m.raffle.creator {
        Some(RaffleError::Unauthorized)
    } else if m.raffle.status != RaffleStatus::Created {
        Some(RaffleError::AlreadyDeposited)
    } else {
        None
    }
}

/// Why a purchase is rejected, checked in this order.
pub open spec fn buy_error(m: RaffleModel, quantity: u32, now: u64) -> Option<RaffleError> {
    let r = m.raffle;
    if quantity == 0 {
        Some(RaffleError::QuantityZero)
    } else if quantity > 1 && !r.allow_multiple {
        Some(RaffleError::MultipleTicketsNotAllowed)
    } else if r.tickets_sold + quantity > r.max_tickets {
        Some(RaffleError::InsufficientTicketsAvailable)
    } else if r.status != RaffleStatus::Active {
        Some(RaffleError::InvalidStateTransition)
    } else if r.end_time != 0 && now > r.end_time {
        Some(RaffleError::RaffleEnded)
    } else if quantity * r.ticket_price > i128::MAX {
        Some(RaffleError::AmountOverflow)
    } else {
        None
    }
}

pub open spec fn finalize_error(m: RaffleModel, source: Seq<char>) -> Option<RaffleError> {
    if m.raffle.status != RaffleStatus::Active {
        Some(RaffleError::InvalidStateTransition)
    } else if m.raffle.tickets_sold == 0 {
        Some(RaffleError::NoTicketsSold)
    } else if source_named(source) is None {
        Some(RaffleError::UnsupportedRandomnessSource)
    } else {
        None
    }
}

pub open spec fn claim_error(m: RaffleModel, caller: AccountId, winner_only: bool) -> Option<
    RaffleError,
> {
    if m.raffle.status == RaffleStatus::Claimed {
        Some(RaffleError::AlreadyClaimed)
    } else if m.raffle.status != RaffleStatus::Finalized {
        Some(RaffleError::InvalidStateTransition)
    } else if winner_only && m.raffle.winner != Some(caller) {
        Some(RaffleError::Unauthorized)
    } else {
        None
    }
}

pub open spec fn cancel_error(m: RaffleModel, caller: AccountId) -> Option<RaffleError> {
    if caller != m.raffle.creator {
        Some(RaffleError::Unauthorized)
    } else if m.raffle.status != RaffleStatus::Created && m.raffle.status != RaffleStatus::Active {
        Some(RaffleError::InvalidStateForCancellation)
    } else {
        None
    }
}

pub open spec fn action_error(m: RaffleModel, a: Action) -> Option<RaffleError> {
    match a {
        Action::Deposit { caller } => deposit_error(m, caller),
        Action::Buy { quantity, now, .. } => buy_error(m, quantity, now),
        Action::Finalize { source, .. } => finalize_error(m, source),
        Action::Claim { caller, winner_only } => claim_error(m, caller, winner_only),
        Action::Cancel { caller } => cancel_error(m, caller),
    }
}

/// The raffle that `create` records.
pub open spec fn created_raffle(
    id: u64,
    creator: AccountId,
    description: String,
    end_time: u64,
    max_tickets: u32,
    allow_multiple: bool,
    ticket_price: i128,
    payment_token: AccountId,
    prize_amount: i128,
) -> Raffle {
    Raffle {
        id,
        creator,
        description,
        end_time,
        max_tickets,
        allow_multiple,
        ticket_price,
        payment_token,
        prize_amount,
        tickets_sold: 0,
        status: RaffleStatus::Created,
        winner: None,
    }
}

/// The event that announces raffle `r`, with every one of its terms.
pub open spec fn created_event(r: Raffle) -> RaffleEvent {
    RaffleEvent::RaffleCreated {
        raffle_id: r.id,
        creator: r.creator,
        description: r.description,
        end_time: r.end_time,
        max_tickets: r.max_tickets,
        allow_multiple: r.allow_multiple,
        ticket_price: r.ticket_price,
        payment_token: r.payment_token,
        prize_amount: r.prize_amount,
    }
}

/// The tickets that a purchase of `quantity` appends.
pub open spec fn new_tickets(r: Raffle, buyer: AccountId, quantity: u32, now: u64) -> Seq<Ticket> {
    Seq::new(quantity as nat, |j: int| ticket_at(r.id, r.tickets_sold + j, buyer, now))
}

/// One event per ticket of a purchase.
pub open spec fn purchase_events(r: Raffle, buyer: AccountId, quantity: u32) -> Seq<RaffleEvent> {
    Seq::new(
        quantity as nat,
        |j: int|
            RaffleEvent::TicketPurchased {
                raffle_id: r.id,
                buyer,
                ticket_index: (r.tickets_sold + j) as u32,
                tickets_sold: (r.tickets_sold + quantity) as u32,
            },
    )
}

/// The record after a transition to `status`.
pub open spec fn with_status(r: Raffle, status: RaffleStatus) -> Raffle {
    Raffle { status, ..r }
}

/// The state after an accepted action, with what it takes in and pays out.
/// Custody moves by exactly what the transfers move.
pub open spec fn accepted(m: RaffleModel, a: Action) -> Step {
    let r = m.raffle;
    let (raffle, tickets, transfers, events) = match a {
        Action::Deposit { .. } => (
            with_status(r, RaffleStatus::Active),
            m.tickets,
            seq![Transfer::Pull { from: r.creator, token: r.payment_token, amount: r.prize_amount }],
            seq![RaffleEvent::PrizeDeposited { raffle_id: r.id, amount: r.prize_amount }],
        ),
        Action::Buy { buyer, quantity, now } => (
            Raffle { tickets_sold: (r.tickets_sold + quantity) as u32, ..r },
            m.tickets + new_tickets(r, buyer, quantity, now),
            seq![
                Transfer::Pull {
                    from: buyer,
                    token: r.payment_token,
                    amount: (quantity * r.ticket_price) as i128,
                },
            ],
            purchase_events(r, buyer, quantity),
        ),
        Action::Finalize { entropy, .. } => {
            let index = winning_index(r.tickets_sold, entropy);
            let winner = m.tickets[index].buyer;
            (
                Raffle { status: RaffleStatus::Finalized, winner: Some(winner), ..r },
                m.tickets,
                Seq::empty(),
                seq![
                    RaffleEvent::RaffleFinalized {
                        raffle_id: r.id,
                        winner,
                        winning_index: index as u32,
                    },
                ],
            )
        },
        Action::Claim { .. } => (
            with_status(r, RaffleStatus::Claimed),
            m.tickets,
            seq![
                Transfer::Push { to: r.winner->Some_0, token: r.payment_token, amount: r.prize_amount },
            ],
            seq![
                RaffleEvent::PrizeClaimed {
                    raffle_id: r.id,
                    winner: r.winner->Some_0,
                    amount: r.prize_amount,
                },
            ],
        ),
        Action::Cancel { .. } => (
            with_status(r, RaffleStatus::Cancelled),
            m.tickets,
            refunds_for(r, m.tickets),
            seq![RaffleEvent::RaffleCancelled { raffle_id: r.id }],
        ),
    };
    Step {
        model: RaffleModel { raffle, tickets, held: m.held + net_flow(transfers) },
        transfers,
        events,
    }
}

/// The raffle state machine: every operation is rejected with one error and
/// no effect, or accepted with the outcome that `accepted` gives.
pub open spec fn step(m: RaffleModel, a: Action) -> Result<Step, RaffleError> {
    match action_error(m, a) {
        Some(e) => Err(e),
        None => Ok(accepted(m, a)),
    }
}

} // verus!
