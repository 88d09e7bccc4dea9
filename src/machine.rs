use vstd::prelude::*;

use crate::escrow::{refunds, Transfer};
use crate::events::{Effects, RaffleEvent};
use crate::laws::lemma_step_preserves_valid;
use crate::ledger::TicketLedger;
use crate::model::{
    accepted, create_error, custody, Step, created_event, created_raffle, new_tickets, purchase_events, step,
    Action, RaffleModel,
};
use crate::selector::{select_winner, RandomnessSource};
use crate::types::{AccountId, Raffle, RaffleError, RaffleStatus, Ticket};

verus! {

/// One raffle with its ticket ledger: the unit that every operation loads,
/// validates, changes and hands back whole.
pub struct RaffleState {
    raffle: Raffle,
    ledger: TicketLedger,
    held: Ghost<int>,
}

impl View for RaffleState {
    type V = RaffleModel;

    closed spec fn view(&self) -> RaffleModel {
        RaffleModel { raffle: self.raffle, tickets: self.ledger@, held: self.held@ }
    }
}

/// The effects of a result that carries a value beside them.
pub open spec fn effects_of<T>(r: Result<(T, Effects), RaffleError>) -> Result<Effects, RaffleError> {
    match r {
        Ok((_, fx)) => Ok(fx),
        Err(e) => Err(e),
    }
}

/// `r` and the state `after` are what the state machine gives for action `a`
/// on state `before`: on a rejection, the error and no change at all.
pub open spec fn follows(
    before: RaffleModel,
    a: Action,
    after: RaffleModel,
    r: Result<Effects, RaffleError>,
) -> bool {
    match step(before, a) {
        Ok(s) => {
            &&& after == s.model
            &&& r matches Ok(fx) && fx.transfers@ == s.transfers && fx.events@ == s.events
        },
        Err(e) => after == before && r == Err::<Effects, RaffleError>(e),
    }
}

impl RaffleState {
    pub closed spec fn ledger_ok(&self) -> bool {
        self.ledger.owner() == self.raffle.id
    }

    pub open spec fn wf(&self) -> bool {
        self@.valid() && self.ledger_ok()
    }

    /// A new raffle in status `Created`, with no ticket and nothing in custody.
    pub fn create(
        id: u64,
        creator: AccountId,
        description: String,
        end_time: u64,
        max_tickets: u32,
        allow_multiple: bool,
        ticket_price: i128,
        payment_token: AccountId,
        prize_amount: i128,
    ) -> (r: Result<(RaffleState, Effects), RaffleError>)
        ensures
            match create_error(max_tickets, ticket_price, prize_amount) {
                Some(e) => r == Err::<(RaffleState, Effects), RaffleError>(e),
                None => r matches Ok((s, fx)) && {
                    let raffle = created_raffle(
                        id,
                        creator,
                        description,
                        end_time,
                        max_tickets,
                        allow_multiple,
                        ticket_price,
                        payment_token,
                        prize_amount,
                    );
                    &&& s.wf()
                    &&& s@ == RaffleModel { raffle, tickets: Seq::empty(), held: 0 }
                    &&& fx.transfers@ == Seq::<Transfer>::empty()
                    &&& fx.events@ == seq![created_event(raffle)]
                },
            },
    {
        if max_tickets < 1 || ticket_price <= 0 || prize_amount <= 0 {
            return Err(RaffleError::InvalidParameters);
        }
        let event = RaffleEvent::RaffleCreated {
            raffle_id: id,
            creator,
            description: description.clone(),
            end_time,
            max_tickets,
            allow_multiple,
            ticket_price,
            payment_token,
            prize_amount,
        };
        let raffle = Raffle {
            id,
            creator,
            description,
            end_time,
            max_tickets,
            allow_multiple,
            ticket_price,
            payment_token,
            prize_amount,
            tickets_sold: 0,
            status: RaffleStatus::Created,
            winner: None,
        };
        let state = RaffleState { raffle, ledger: TicketLedger::new(id), held: Ghost(0) };
        assert(0 * ticket_price == 0);
        Ok((state, Effects { transfers: Vec::new(), events: vec![event] }))
    }

    /// Rebuilds a raffle from its persisted record and tickets, after checking
    /// every invariant; the funds in custody are those that its state implies.
    pub fn restore(raffle: Raffle, tickets: Vec<Ticket>) -> (r: Result<RaffleState, RaffleError>)
        ensures
            ({
                let m = RaffleModel { raffle, tickets: tickets@, held: custody(raffle) };
                &&& r is Ok <==> m.valid()
                &&& r matches Ok(s) ==> s.wf() && s@ == m
                &&& r is Err ==> r == Err::<RaffleState, RaffleError>(RaffleError::InvalidRecord)
            }),
    {
        let ghost m = RaffleModel { raffle, tickets: tickets@, held: custody(raffle) };
        if raffle.max_tickets < 1 || raffle.ticket_price <= 0 || raffle.prize_amount <= 0
            || raffle.tickets_sold > raffle.max_tickets || tickets.len() != raffle.tickets_sold as usize {
            return Err(RaffleError::InvalidRecord);
        }
        let decided = raffle.status == RaffleStatus::Finalized || raffle.status == RaffleStatus::Claimed;
        if decided != raffle.winner.is_some() {
            return Err(RaffleError::InvalidRecord);
        }
        let mut ledger = TicketLedger::new(raffle.id);
        let mut winner_seen = false;
        let mut i: usize = 0;
        while i < tickets.len()
            invariant
                m == (RaffleModel { raffle, tickets: tickets@, held: custody(raffle) }),
                raffle.max_tickets >= 1 && raffle.ticket_price > 0 && raffle.prize_amount > 0,
                raffle.tickets_sold <= raffle.max_tickets,
                decided == (raffle.status == RaffleStatus::Finalized || raffle.status
                    == RaffleStatus::Claimed),
                decided == raffle.winner is Some,
                i <= tickets@.len(),
                tickets@.len() == raffle.tickets_sold,
                ledger.owner() == raffle.id,
                ledger@ == tickets@.take(i as int),
                forall|j: int| 0 <= j < i ==> (#[trigger] tickets@[j]).index == j
                    && tickets@[j].raffle_id == raffle.id,
                winner_seen <==> (raffle.winner matches Some(w) && exists|k: int|
                    0 <= k < i && (#[trigger] tickets@[k]).buyer == w),
            decreases tickets@.len() - i,
        {
            let t = tickets[i];
            if t.index as usize != i || t.raffle_id != raffle.id {
                assert(!m.valid()) by {
                    assert(m.tickets[i as int] == t);
                }
                return Err(RaffleError::InvalidRecord);
            }
            if let Some(w) = raffle.winner {
                if t.buyer == w {
                    winner_seen = true;
                }
            }
            ledger.append(t.buyer, t.purchase_time);
            i = i + 1;
            assert(ledger@ =~= tickets@.take(i as int));
        }
        assert(tickets@.take(i as int) =~= tickets@);
        if raffle.winner.is_some() && !winner_seen {
            return Err(RaffleError::InvalidRecord);
        }
        proof {
            if let Some(w) = raffle.winner {
                assert(winner_seen);
                let k = choose|k: int| 0 <= k < i && (#[trigger] tickets@[k]).buyer == w;
                assert(m.tickets[k].buyer == w);
            }
        }
        assert(m.valid());
        Ok(RaffleState { raffle, ledger, held: Ghost(custody(raffle)) })
    }

    /// Takes the prize from the creator into custody; the raffle becomes `Active`.
    pub fn deposit_prize(&mut self, caller: AccountId) -> (r: Result<Effects, RaffleError>)
        requires
            old(self).wf(),
        ensures
            final(self).wf(),
            follows(old(self)@, Action::Deposit { caller }, final(self)@, r),
    {
        if caller != self.raffle.creator {
            return Err(RaffleError::Unauthorized);
        }
        if self.raffle.status != RaffleStatus::Created {
            return Err(RaffleError::AlreadyDeposited);
        }
        let ghost a = Action::Deposit { caller };
        proof {
            lemma_step_preserves_valid(self@, a);
        }
        let ghost post = accepted(self@, a).model;
        let transfers = vec![
            Transfer::Pull {
                from: self.raffle.creator,
                token: self.raffle.payment_token,
                amount: self.raffle.prize_amount,
            },
        ];
        let events = vec![
            RaffleEvent::PrizeDeposited { raffle_id: self.raffle.id, amount: self.raffle.prize_amount },
        ];
        let ghost before = self@;
        self.raffle.status = RaffleStatus::Active;
        self.held = Ghost(post.held);
        assert(step(before, a) == Ok::<Step, RaffleError>(accepted(before, a)));
        assert(self@ == accepted(before, a).model);
        assert(transfers@ =~= accepted(before, a).transfers);
        assert(events@ =~= accepted(before, a).events);
        Ok(Effects { transfers, events })
    }

    /// Sells `quantity` tickets to `buyer` at time `now` and returns the new
    /// number of tickets sold.
    pub fn buy_tickets(&mut self, buyer: AccountId, quantity: u32, now: u64) -> (r: Result<
        (u32, Effects),
        RaffleError,
    >)
        requires
            old(self).wf(),
        ensures
            final(self).wf(),
            follows(old(self)@, Action::Buy { buyer, quantity, now }, final(self)@, effects_of(r)),
            r matches Ok((n, _)) ==> n == final(self)@.raffle.tickets_sold,
    {
        if quantity == 0 {
            return Err(RaffleError::QuantityZero);
        }
        if quantity > 1 && !self.raffle.allow_multiple {
            return Err(RaffleError::MultipleTicketsNotAllowed);
        }
        if self.raffle.tickets_sold as u64 + quantity as u64 > self.raffle.max_tickets as u64 {
            return Err(RaffleError::InsufficientTicketsAvailable);
        }
        if self.raffle.status != RaffleStatus::Active {
            return Err(RaffleError::InvalidStateTransition);
        }
        if self.raffle.end_time != 0 && now > self.raffle.end_time {
            return Err(RaffleError::RaffleEnded);
        }
        let amount = match (quantity as i128).checked_mul(self.raffle.ticket_price) {
            Some(v) => v,
            None => {
                return Err(RaffleError::AmountOverflow);
            },
        };
        let ghost a = Action::Buy { buyer, quantity, now };
        let ghost before = self@;
        proof {
            lemma_step_preserves_valid(before, a);
        }
        let ghost added = new_tickets(before.raffle, buyer, quantity, now);
        let ghost announced = purchase_events(before.raffle, buyer, quantity);
        let sold = self.raffle.tickets_sold;
        let total = sold + quantity;
        let mut events: Vec<RaffleEvent> = Vec::new();
        let mut j: u32 = 0;
        while j < quantity
            invariant
                self.raffle == before.raffle,
                self.held == before.held,
                added == new_tickets(before.raffle, buyer, quantity, now),
                announced == purchase_events(before.raffle, buyer, quantity),
                self.ledger.owner() == before.raffle.id,
                before.tickets.len() == sold,
                sold == before.raffle.tickets_sold,
                total == sold + quantity,
                j <= quantity,
                self.ledger@.len() == sold + j,
                self.ledger@ == before.tickets + added.take(j as int),
                events@ == announced.take(j as int),
            decreases quantity - j,
        {
            let index = self.ledger.append(buyer, now);
            events.push(
                RaffleEvent::TicketPurchased {
                    raffle_id: self.raffle.id,
                    buyer,
                    ticket_index: index,
                    tickets_sold: total,
                },
            );
            j = j + 1;
            assert(self.ledger@ =~= before.tickets + added.take(j as int));
            assert(events@ =~= announced.take(j as int));
        }
        assert(added.take(quantity as int) =~= added);
        assert(announced.take(quantity as int) =~= announced);
        self.raffle.tickets_sold = total;
        self.held = Ghost(accepted(before, a).model.held);
        let transfers = vec![
            Transfer::Pull { from: buyer, token: self.raffle.payment_token, amount },
        ];
        assert(step(before, a) == Ok::<Step, RaffleError>(accepted(before, a)));
        assert(self@ == accepted(before, a).model);
        assert(transfers@ =~= accepted(before, a).transfers);
        assert(events@ =~= accepted(before, a).events);
        Ok((total, Effects { transfers, events }))
    }

    /// `buy_tickets` with a quantity of one.
    pub fn buy_ticket(&mut self, buyer: AccountId, now: u64) -> (r: Result<(u32, Effects), RaffleError>)
        requires
            old(self).wf(),
        ensures
            final(self).wf(),
            follows(old(self)@, Action::Buy { buyer, quantity: 1, now }, final(self)@, effects_of(r)),
            r matches Ok((n, _)) ==> n == final(self)@.raffle.tickets_sold,
    {
        self.buy_tickets(buyer, 1, now)
    }

    /// Draws the winner with `entropy` from the named source; the raffle
    /// becomes `Finalized`.
    pub fn finalize_raffle(&mut self, source: &str, entropy: u64) -> (r: Result<
        (AccountId, Effects),
        RaffleError,
    >)
        requires
            old(self).wf(),
        ensures
            final(self).wf(),
            follows(
                old(self)@,
                Action::Finalize { source: source@, entropy },
                final(self)@,
                effects_of(r),
            ),
            r matches Ok((w, _)) ==> final(self)@.raffle.winner == Some(w),
    {
        if self.raffle.status != RaffleStatus::Active {
            return Err(RaffleError::InvalidStateTransition);
        }
        if self.raffle.tickets_sold == 0 {
            return Err(RaffleError::NoTicketsSold);
        }
        match RandomnessSource::parse(source) {
            Ok(_) => {},
            Err(e) => {
                return Err(e);
            },
        }
        let ghost a = Action::Finalize { source: source@, entropy };
        let ghost before = self@;
        proof {
            lemma_step_preserves_valid(before, a);
        }
        let index = select_winner(self.raffle.tickets_sold, entropy);
        let winner = self.ledger.get(index as usize).buyer;
        self.raffle.status = RaffleStatus::Finalized;
        self.raffle.winner = Some(winner);
        let events = vec![
            RaffleEvent::RaffleFinalized { raffle_id: self.raffle.id, winner, winning_index: index },
        ];
        assert(step(before, a) == Ok::<Step, RaffleError>(accepted(before, a)));
        assert(self@ == accepted(before, a).model);
        assert(events@ =~= accepted(before, a).events);
        let transfers: Vec<Transfer> = Vec::new();
        assert(transfers@ =~= accepted(before, a).transfers);
        Ok((winner, Effects { transfers, events }))
    }

    /// Pays the prize out of custody to the winner, whoever asks for it
    /// unless `winner_only`; the raffle becomes `Claimed`. Returns the amount.
    pub fn claim_prize(&mut self, caller: AccountId, winner_only: bool) -> (r: Result<
        (i128, Effects),
        RaffleError,
    >)
        requires
            old(self).wf(),
        ensures
            final(self).wf(),
            follows(
                old(self)@,
                Action::Claim { caller, winner_only },
                final(self)@,
                effects_of(r),
            ),
            r matches Ok((amount, _)) ==> amount == old(self)@.raffle.prize_amount,
    {
        if self.raffle.status == RaffleStatus::Claimed {
            return Err(RaffleError::AlreadyClaimed);
        }
        if self.raffle.status != RaffleStatus::Finalized {
            return Err(RaffleError::InvalidStateTransition);
        }
        let winner = match self.raffle.winner {
            Some(w) => w,
            None => {
                return Err(RaffleError::InvalidStateTransition);
            },
        };
        if winner_only && caller != winner {
            return Err(RaffleError::Unauthorized);
        }
        let ghost a = Action::Claim { caller, winner_only };
        let ghost before = self@;
        proof {
            lemma_step_preserves_valid(self@, a);
        }
        let ghost post = accepted(self@, a).model;
        let amount = self.raffle.prize_amount;
        let transfers = vec![
            Transfer::Push { to: winner, token: self.raffle.payment_token, amount },
        ];
        let events = vec![RaffleEvent::PrizeClaimed { raffle_id: self.raffle.id, winner, amount }];
        self.raffle.status = RaffleStatus::Claimed;
        self.held = Ghost(post.held);
        assert(step(before, a) == Ok::<Step, RaffleError>(accepted(before, a)));
        assert(self@ == accepted(before, a).model);
        assert(transfers@ =~= accepted(before, a).transfers);
        assert(events@ =~= accepted(before, a).events);
        Ok((amount, Effects { transfers, events }))
    }

    /// Calls the raffle off: refunds the prize to the creator if it was
    /// deposited and every ticket to its buyer; the raffle becomes `Cancelled`.
    pub fn cancel_raffle(&mut self, caller: AccountId) -> (r: Result<Effects, RaffleError>)
        requires
            old(self).wf(),
        ensures
            final(self).wf(),
            follows(old(self)@, Action::Cancel { caller }, final(self)@, r),
    {
        if caller != self.raffle.creator {
            return Err(RaffleError::Unauthorized);
        }
        if self.raffle.status != RaffleStatus::Created && self.raffle.status
            != RaffleStatus::Active {
            return Err(RaffleError::InvalidStateForCancellation);
        }
        let ghost a = Action::Cancel { caller };
        let ghost before = self@;
        proof {
            lemma_step_preserves_valid(self@, a);
        }
        let ghost post = accepted(self@, a).model;
        let transfers = refunds(&self.raffle, &self.ledger);
        let events = vec![RaffleEvent::RaffleCancelled { raffle_id: self.raffle.id }];
        self.raffle.status = RaffleStatus::Cancelled;
        self.held = Ghost(post.held);
        assert(step(before, a) == Ok::<Step, RaffleError>(accepted(before, a)));
        assert(self@ == accepted(before, a).model);
        assert(transfers@ =~= accepted(before, a).transfers);
        assert(events@ =~= accepted(before, a).events);
        Ok(Effects { transfers, events })
    }

    /// The raffle's record.
    pub fn raffle(&self) -> (r: Raffle)
        ensures
            r == self@.raffle,
    {
        self.raffle.copy()
    }

    /// The raffle's tickets, in index order.
    pub fn tickets(&self) -> (t: Vec<Ticket>)
        ensures
            t@ == self@.tickets,
    {
        self.ledger.list()
    }
}

} // verus!
