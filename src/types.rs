use vstd::prelude::*;

verus! {

/// An identity known to the host: a raffle creator, a buyer, or the token
/// ledger that moves a raffle's funds.
#[derive(Clone, Copy, Debug, PartialEq, Eq, Structural, Hash)]
pub struct AccountId {
    pub id: u64,
}

/// The lifecycle of a raffle: `Created -> Active -> Finalized -> Claimed`,
/// with `Created` or `Active` able to move to `Cancelled` instead.
#[derive(Clone, Copy, Debug, PartialEq, Eq, Structural)]
pub enum RaffleStatus {
    /// Created, prize not yet deposited.
    Created,
    /// Prize held in custody; tickets are on sale.
    Active,
    /// Winner drawn; prize not yet paid out.
    Finalized,
    /// Prize paid to the winner.
    Claimed,
    /// Called off; prize and tickets refunded.
    Cancelled,
}

/// Why an operation was rejected. A rejected operation has no effect.
#[derive(Clone, Copy, Debug, PartialEq, Eq, Structural)]
pub enum RaffleError {
    /// No raffle has the given identifier.
    RaffleNotFound,
    /// `max_tickets` is zero, or the ticket price or prize is not positive.
    InvalidParameters,
    /// A purchase of zero tickets.
    QuantityZero,
    /// More than one ticket in one purchase where the raffle forbids it.
    MultipleTicketsNotAllowed,
    /// The purchase would sell more tickets than the raffle has.
    InsufficientTicketsAvailable,
    /// The purchase comes after the raffle's end time.
    RaffleEnded,
    /// The operation is not legal in the raffle's current status.
    InvalidStateTransition,
    /// The prize was already deposited.
    AlreadyDeposited,
    /// The prize was already paid out.
    AlreadyClaimed,
    /// The raffle is finalized, claimed or cancelled already.
    InvalidStateForCancellation,
    /// Finalize with no ticket sold.
    NoTicketsSold,
    /// The randomness source is not one that the selector knows.
    UnsupportedRandomnessSource,
    /// The caller does not hold the role that the operation asks for.
    Unauthorized,
    /// The token ledger rejected a transfer.
    TransferFailed,
    /// The price of the purchase does not fit in an `i128`.
    AmountOverflow,
    /// Persisted records that break the invariants of a raffle.
    InvalidRecord,
}

/// The persisted record of one raffle.
#[derive(Clone, Debug)]
pub struct Raffle {
    pub id: u64,
    pub creator: AccountId,
    pub description: String,
    /// Deadline for purchases; zero means none.
    pub end_time: u64,
    pub max_tickets: u32,
    pub allow_multiple: bool,
    pub ticket_price: i128,
    pub payment_token: AccountId,
    pub prize_amount: i128,
    pub tickets_sold: u32,
    pub status: RaffleStatus,
    pub winner: Option<AccountId>,
}

/// One purchased chance: the `index`-th ticket of raffle `raffle_id`.
#[derive(Clone, Copy, Debug, PartialEq, Eq, Structural)]
pub struct Ticket {
    pub raffle_id: u64,
    pub index: u32,
    pub buyer: AccountId,
    pub purchase_time: u64,
}

impl Raffle {
    /// A copy of the record, field by field.
    pub fn copy(&self) -> (r: Raffle)
        ensures
            r == *self,
    {
        Raffle {
            id: self.id,
            creator: self.creator,
            description: self.description.clone(),
            end_time: self.end_time,
            max_tickets: self.max_tickets,
            allow_multiple: self.allow_multiple,
            ticket_price: self.ticket_price,
            payment_token: self.payment_token,
            prize_amount: self.prize_amount,
            tickets_sold: self.tickets_sold,
            status: self.status,
            winner: self.winner,
        }
    }
}

} // verus!
