use vstd::prelude::*;

use crate::types::{AccountId, Ticket};

verus! {

/// The append-only record of the tickets of one raffle. The ticket at
/// position `i` has index `i`.
pub struct TicketLedger {
    raffle_id: u64,
    tickets: Vec<Ticket>,
}

/// The ticket that a purchase appends at position `index`.
pub open spec fn ticket_at(raffle_id: u64, index: int, buyer: AccountId, now: u64) -> Ticket {
    Ticket { raffle_id, index: index as u32, buyer, purchase_time: now }
}

impl View for TicketLedger {
    type V = Seq<Ticket>;

    closed spec fn view(&self) -> Seq<Ticket> {
        self.tickets@
    }
}

impl TicketLedger {
    /// The raffle that this ledger belongs to.
    pub closed spec fn owner(&self) -> u64 {
        self.raffle_id
    }

    pub fn new(raffle_id: u64) -> (l: TicketLedger)
        ensures
            l@ == Seq::<Ticket>::empty(),
            l.owner() == raffle_id,
    {
        TicketLedger { raffle_id, tickets: Vec::new() }
    }

    /// The number of tickets.
    pub fn len(&self) -> (n: usize)
        ensures
            n == self@.len(),
    {
        self.tickets.len()
    }

    pub fn get(&self, i: usize) -> (t: Ticket)
        requires
            i < self@.len(),
        ensures
            t == self@[i as int],
    {
        self.tickets[i]
    }

    /// Appends the next ticket, owned by `buyer`, and returns its index.
    pub fn append(&mut self, buyer: AccountId, now: u64) -> (index: u32)
        requires
            old(self)@.len() < u32::MAX,
        ensures
            index == old(self)@.len(),
            final(self)@ == old(self)@.push(ticket_at(old(self).owner(), index as int, buyer, now)),
            final(self).owner() == old(self).owner(),
    {
        let index = self.tickets.len() as u32;
        self.tickets.push(Ticket { raffle_id: self.raffle_id, index, buyer, purchase_time: now });
        index
    }

    /// All tickets, in index order.
    pub fn list(&self) -> (out: Vec<Ticket>)
        ensures
            out@ == self@,
    {
        let mut out: Vec<Ticket> = Vec::new();
        let mut i: usize = 0;
        while i < self.tickets.len()
            invariant
                i <= self.tickets@.len(),
                out@ == self.tickets@.take(i as int),
            decreases self.tickets@.len() - i,
        {
            out.push(self.tickets[i]);
            i = i + 1;
            assert(out@ =~= self.tickets@.take(i as int));
        }
        assert(self.tickets@.take(i as int) =~= self.tickets@);
        out
    }
}

} // verus!
