use vstd::prelude::*;

use crate::ledger::TicketLedger;
use crate::types::{AccountId, Raffle, RaffleError, RaffleStatus, Ticket};

verus! {

/// One movement of funds between a party and the raffle's custody, on the
/// raffle's token ledger.
#[derive(Clone, Copy, Debug, PartialEq, Eq, Structural)]
pub enum Transfer {
    /// Take `amount` from `from` into custody.
    Pull { from: AccountId, token: AccountId, amount: i128 },
    /// Pay `amount` out of custody to `to`.
    Push { to: AccountId, token: AccountId, amount: i128 },
}

/// What one transfer adds to the funds in custody.
pub open spec fn flow(t: Transfer) -> int {
    match t {
        Transfer::Pull { amount, .. } => amount as int,
        Transfer::Push { amount, .. } => -amount,
    }
}

/// What a sequence of transfers adds to the funds in custody.
pub open spec fn net_flow(ts: Seq<Transfer>) -> int
    decreases ts.len(),
{
    if ts.len() == 0 {
        0
    } else {
        net_flow(ts.drop_last()) + flow(ts.last())
    }
}

pub proof fn lemma_net_flow_push(ts: Seq<Transfer>, t: Transfer)
    ensures
        net_flow(ts.push(t)) == net_flow(ts) + flow(t),
{
    assert(ts.push(t).drop_last() =~= ts);
}

pub proof fn lemma_net_flow_single(t: Transfer)
    ensures
        net_flow(seq![t]) == flow(t),
{
    lemma_net_flow_push(Seq::empty(), t);
    assert(Seq::<Transfer>::empty().push(t) =~= seq![t]);
}

pub proof fn lemma_net_flow_append(a: Seq<Transfer>, b: Seq<Transfer>)
    ensures
        net_flow(a + b) == net_flow(a) + net_flow(b),
    decreases b.len(),
{
    if b.len() == 0 {
        assert(a + b =~= a);
    } else {
        lemma_net_flow_append(a, b.drop_last());
        assert((a + b).drop_last() =~= a + b.drop_last());
    }
}

pub proof fn lemma_ticket_refunds_flow(r: Raffle, tickets: Seq<Ticket>)
    ensures
        net_flow(ticket_refunds(r, tickets)) == -(tickets.len() * r.ticket_price),
    decreases tickets.len(),
{
    if tickets.len() > 0 {
        let n = tickets.len() - 1;
        lemma_ticket_refunds_flow(r, tickets.drop_last());
        let s = ticket_refunds(r, tickets);
        assert(s.drop_last() =~= ticket_refunds(r, tickets.drop_last()));
        assert(flow(s.last()) == -r.ticket_price);
        assert(n * r.ticket_price + r.ticket_price == (n + 1) * r.ticket_price) by (nonlinear_arith);
        assert(net_flow(s) == net_flow(s.drop_last()) + flow(s.last()));
    } else {
        assert(tickets.len() == 0);
        assert(0 * r.ticket_price == 0);
    }
}

/// What a sequence of transfers pays out of custody to `who`.
pub open spec fn paid_out_to(ts: Seq<Transfer>, who: AccountId) -> int
    decreases ts.len(),
{
    if ts.len() == 0 {
        0
    } else {
        paid_out_to(ts.drop_last(), who) + match ts.last() {
            Transfer::Push { to, amount, .. } => if to == who {
                amount as int
            } else {
                0
            },
            Transfer::Pull { .. } => 0,
        }
    }
}

pub proof fn lemma_paid_out_append(a: Seq<Transfer>, b: Seq<Transfer>, who: AccountId)
    ensures
        paid_out_to(a + b, who) == paid_out_to(a, who) + paid_out_to(b, who),
    decreases b.len(),
{
    if b.len() == 0 {
        assert(a + b =~= a);
    } else {
        lemma_paid_out_append(a, b.drop_last(), who);
        assert((a + b).drop_last() =~= a + b.drop_last());
    }
}

/// The number of tickets among `tickets` that `who` bought.
pub open spec fn tickets_of(tickets: Seq<Ticket>, who: AccountId) -> int
    decreases tickets.len(),
{
    if tickets.len() == 0 {
        0
    } else {
        tickets_of(tickets.drop_last(), who) + if tickets.last().buyer == who {
            1int
        } else {
            0
        }
    }
}

/// The refund of the prize on cancellation: owed only once it was deposited.
pub open spec fn prize_refund(r: Raffle) -> Seq<Transfer> {
    if r.status == RaffleStatus::Active {
        seq![Transfer::Push { to: r.creator, token: r.payment_token, amount: r.prize_amount }]
    } else {
        seq![]
    }
}

/// One refund of the ticket price per ticket, to its buyer, in ticket order.
pub open spec fn ticket_refunds(r: Raffle, tickets: Seq<Ticket>) -> Seq<Transfer> {
    Seq::new(
        tickets.len(),
        |i: int| Transfer::Push { to: tickets[i].buyer, token: r.payment_token, amount: r.ticket_price },
    )
}

/// The ticket refunds pay each buyer the price of each of its tickets.
pub proof fn lemma_ticket_refunds_per_buyer(r: Raffle, tickets: Seq<Ticket>, who: AccountId)
    ensures
        paid_out_to(ticket_refunds(r, tickets), who) == tickets_of(tickets, who) * r.ticket_price,
    decreases tickets.len(),
{
    if tickets.len() > 0 {
        let n = tickets_of(tickets.drop_last(), who);
        lemma_ticket_refunds_per_buyer(r, tickets.drop_last(), who);
        let s = ticket_refunds(r, tickets);
        assert(s.drop_last() =~= ticket_refunds(r, tickets.drop_last()));
        assert(n * r.ticket_price + r.ticket_price == (n + 1) * r.ticket_price) by (nonlinear_arith);
    } else {
        assert(0 * r.ticket_price == 0);
    }
}

/// Everything that cancelling raffle `r` with `tickets` pays back.
pub open spec fn refunds_for(r: Raffle, tickets: Seq<Ticket>) -> Seq<Transfer> {
    prize_refund(r) + ticket_refunds(r, tickets)
}

/// The instructions that pay back the prize (if deposited) and every ticket.
pub fn refunds(r: &Raffle, ledger: &TicketLedger) -> (out: Vec<Transfer>)
    ensures
        out@ == refunds_for(*r, ledger@),
        net_flow(out@) == net_flow(prize_refund(*r)) - ledger@.len() * r.ticket_price,
{
    let mut out: Vec<Transfer> = Vec::new();
    if r.status == RaffleStatus::Active {
        out.push(Transfer::Push { to: r.creator, token: r.payment_token, amount: r.prize_amount });
        proof {
            lemma_net_flow_single(out@[0]);
            assert(out@ =~= prize_refund(*r));
        }
    }
    assert(out@ =~= prize_refund(*r));
    let ghost head = out@;
    let n = ledger.len();
    let mut i: usize = 0;
    while i < n
        invariant
            n == ledger@.len(),
            i <= n,
            head == prize_refund(*r),
            out@ == head + ticket_refunds(*r, ledger@.take(i as int)),
            net_flow(out@) == net_flow(head) - i * r.ticket_price,
        decreases n - i,
    {
        let t = ledger.get(i);
        let refund = Transfer::Push { to: t.buyer, token: r.payment_token, amount: r.ticket_price };
        proof {
            lemma_net_flow_push(out@, refund);
            assert((i + 1) * r.ticket_price == i * r.ticket_price + r.ticket_price) by (nonlinear_arith);
        }
        out.push(refund);
        i = i + 1;
        assert(out@ =~= head + ticket_refunds(*r, ledger@.take(i as int)));
    }
    assert(ledger@.take(n as int) =~= ledger@);
    out
}

/// Decides a whole operation from what the token ledger answered to each of
/// its transfers: one rejection aborts it.
pub fn settle(accepted: &Vec<bool>) -> (r: Result<(), RaffleError>)
    ensures
        r is Ok <==> forall|i: int| 0 <= i < accepted@.len() ==> accepted@[i],
        r is Err ==> r == Err::<(), RaffleError>(RaffleError::TransferFailed),
{
    let mut i: usize = 0;
    while i < accepted.len()
        invariant
            i <= accepted@.len(),
            forall|j: int| 0 <= j < i ==> accepted@[j],
        decreases accepted@.len() - i,
    {
        if !accepted[i] {
            return Err(RaffleError::TransferFailed);
        }
        i = i + 1;
    }
    Ok(())
}

} // verus!
