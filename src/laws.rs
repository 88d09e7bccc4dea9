use vstd::prelude::*;

use crate::escrow::{
    lemma_net_flow_append, lemma_net_flow_single, lemma_paid_out_append,
    lemma_ticket_refunds_flow, lemma_ticket_refunds_per_buyer, net_flow, paid_out_to, prize_refund,
    refunds_for, ticket_refunds, tickets_of, Transfer,
};
use crate::model::{
    accepted, create_error, created_raffle, new_tickets, step, Action, RaffleModel, Step,
};
use crate::selector::{source_named, winning_index};
use crate::types::{AccountId, RaffleError, RaffleStatus, Ticket};

verus! {

/// Custody is conserved: every accepted operation keeps the invariants of a
/// raffle, among them that the funds in custody equal the prize (while
/// deposited and neither paid out nor refunded) plus the price of every
/// ticket not refunded, and it moves custody by exactly its transfers.
pub proof fn lemma_step_preserves_valid(m: RaffleModel, a: Action)
    requires
        m.valid(),
        step(m, a) is Ok,
    ensures
        step(m, a)->Ok_0.model.valid(),
        step(m, a)->Ok_0.model.held == m.held + net_flow(step(m, a)->Ok_0.transfers),
        step(m, a)->Ok_0.model.raffle.id == m.raffle.id,
{
    let s = accepted(m, a);
    let r = m.raffle;
    match a {
        Action::Deposit { .. } => {
            lemma_net_flow_single(s.transfers[0]);
            assert(s.transfers =~= seq![s.transfers[0]]);
        },
        Action::Buy { buyer, quantity, now } => {
            lemma_net_flow_single(s.transfers[0]);
            assert(s.transfers =~= seq![s.transfers[0]]);
            assert(quantity * r.ticket_price > 0) by (nonlinear_arith)
                requires
                    quantity > 0,
                    r.ticket_price > 0,
            ;
            assert((r.tickets_sold + quantity) * r.ticket_price == r.tickets_sold * r.ticket_price
                + quantity * r.ticket_price) by (nonlinear_arith);
            let t = s.model.tickets;
            let added = new_tickets(r, buyer, quantity, now);
            assert forall|i: int| 0 <= i < t.len() implies (#[trigger] t[i]).index == i
                && t[i].raffle_id == r.id by {
                if i >= m.tickets.len() {
                    assert(t[i] == added[i - m.tickets.len()]);
                }
            }
        },
        Action::Finalize { entropy, .. } => {
            let k = winning_index(r.tickets_sold, entropy);
            assert(0 <= k < m.tickets.len());
            assert(s.transfers =~= Seq::empty());
            assert(s.model.tickets[k].buyer == s.model.raffle.winner->Some_0);
        },
        Action::Claim { .. } => {
            lemma_net_flow_single(s.transfers[0]);
            assert(s.transfers =~= seq![s.transfers[0]]);
            let w = r.winner->Some_0;
            let k = choose|k: int| 0 <= k < m.tickets.len() && (#[trigger] m.tickets[k]).buyer == w;
            assert(s.model.tickets[k].buyer == w);
        },
        Action::Cancel { .. } => {
            lemma_net_flow_append(prize_refund(r), ticket_refunds(r, m.tickets));
            lemma_ticket_refunds_flow(r, m.tickets);
            if r.status == RaffleStatus::Active {
                lemma_net_flow_single(prize_refund(r)[0]);
                assert(prize_refund(r) =~= seq![prize_refund(r)[0]]);
            } else {
                assert(prize_refund(r) =~= Seq::empty());
            }
        },
    }
}

/// A valid purchase adds exactly `quantity` to the tickets sold, and appends
/// exactly `quantity` tickets of the buyer, indexed on from the prior count.
pub proof fn lemma_purchase_appends(m: RaffleModel, buyer: AccountId, quantity: u32, now: u64)
    requires
        m.valid(),
        step(m, Action::Buy { buyer, quantity, now }) is Ok,
    ensures
        ({
            let after = step(m, Action::Buy { buyer, quantity, now })->Ok_0.model;
            &&& after.raffle.tickets_sold == m.raffle.tickets_sold + quantity
            &&& after.tickets.len() == m.tickets.len() + quantity
            &&& after.tickets.subrange(0, m.tickets.len() as int) == m.tickets
            &&& forall|j: int|
                0 <= j < quantity ==> (#[trigger] after.tickets[m.tickets.len() + j]).index
                    == m.tickets.len() + j && after.tickets[m.tickets.len() + j].buyer == buyer
        }),
{
    let after = step(m, Action::Buy { buyer, quantity, now })->Ok_0.model;
    assert(after.tickets.subrange(0, m.tickets.len() as int) =~= m.tickets);
}

/// Finalizing twice is rejected with `InvalidStateTransition`; the winner
/// that the first call drew stays (a rejection changes nothing).
pub proof fn lemma_finalize_twice(
    m: RaffleModel,
    source: Seq<char>,
    entropy: u64,
    again: Seq<char>,
    entropy_again: u64,
)
    requires
        m.valid(),
        step(m, Action::Finalize { source, entropy }) is Ok,
    ensures
        ({
            let after = step(m, Action::Finalize { source, entropy })->Ok_0.model;
            &&& after.raffle.winner is Some
            &&& step(after, Action::Finalize { source: again, entropy: entropy_again })
                == Err::<Step, RaffleError>(RaffleError::InvalidStateTransition)
        }),
{
}

/// A claim before finalize fails.
pub proof fn lemma_claim_needs_finalize(m: RaffleModel, caller: AccountId, winner_only: bool)
    requires
        m.valid(),
        m.raffle.status == RaffleStatus::Created || m.raffle.status == RaffleStatus::Active,
    ensures
        step(m, Action::Claim { caller, winner_only }) == Err::<Step, RaffleError>(
            RaffleError::InvalidStateTransition,
        ),
{
}

/// After finalize, one claim (by the winner, or by anyone unless claims are
/// restricted to the winner) succeeds and pays the prize to the winner; a
/// second claim fails with `AlreadyClaimed`.
pub proof fn lemma_claim_once(
    m: RaffleModel,
    source: Seq<char>,
    entropy: u64,
    caller: AccountId,
    winner_only: bool,
    caller_again: AccountId,
    winner_only_again: bool,
)
    requires
        m.valid(),
        step(m, Action::Finalize { source, entropy }) is Ok,
        winner_only ==> step(m, Action::Finalize { source, entropy })->Ok_0.model.raffle.winner
            == Some(caller),
    ensures
        ({
            let finalized = step(m, Action::Finalize { source, entropy })->Ok_0.model;
            let claim = step(finalized, Action::Claim { caller, winner_only });
            &&& claim is Ok
            &&& claim->Ok_0.transfers == seq![
                Transfer::Push {
                    to: finalized.raffle.winner->Some_0,
                    token: m.raffle.payment_token,
                    amount: m.raffle.prize_amount,
                },
            ]
            &&& step(
                claim->Ok_0.model,
                Action::Claim { caller: caller_again, winner_only: winner_only_again },
            ) == Err::<Step, RaffleError>(RaffleError::AlreadyClaimed)
        }),
{
}

/// Cancelling pays back the prize to the creator if it was deposited (and
/// nothing otherwise) and the ticket price of every ticket to its buyer;
/// afterwards every operation is rejected.
pub proof fn lemma_cancel_refunds_and_closes(m: RaffleModel, caller: AccountId, next: Action)
    requires
        m.valid(),
        step(m, Action::Cancel { caller }) is Ok,
    ensures
        ({
            let s = step(m, Action::Cancel { caller })->Ok_0;
            &&& s.transfers == refunds_for(m.raffle, m.tickets)
            &&& s.model.held == 0
            &&& step(s.model, next) is Err
        }),
{
    lemma_step_preserves_valid(m, Action::Cancel { caller });
}

/// The order of the purchase checks: a zero quantity always fails with
/// `QuantityZero`, more than one ticket where the raffle forbids it with
/// `MultipleTicketsNotAllowed`, and otherwise a purchase beyond the capacity
/// with `InsufficientTicketsAvailable`, whatever the raffle's status.
pub proof fn lemma_purchase_rejections(m: RaffleModel, buyer: AccountId, quantity: u32, now: u64)
    ensures
        quantity == 0 ==> step(m, Action::Buy { buyer, quantity, now })
            == Err::<Step, RaffleError>(RaffleError::QuantityZero),
        quantity > 1 && !m.raffle.allow_multiple ==> step(m, Action::Buy { buyer, quantity, now })
            == Err::<Step, RaffleError>(RaffleError::MultipleTicketsNotAllowed),
        quantity > 0 && (quantity <= 1 || m.raffle.allow_multiple) && m.raffle.tickets_sold
            + quantity > m.raffle.max_tickets ==> step(m, Action::Buy { buyer, quantity, now })
            == Err::<Step, RaffleError>(RaffleError::InsufficientTicketsAvailable),
{
}

/// Create, deposit, buy `n`, finalize and claim all succeed, and leave the
/// raffle `Claimed`, with a winner, `n` tickets sold and tickets `0..n`.
pub proof fn lemma_round_trip(
    m: RaffleModel,
    buyer: AccountId,
    n: u32,
    now: u64,
    source: Seq<char>,
    entropy: u64,
    winner_only: bool,
)
    requires
        m.raffle == created_raffle(
            m.raffle.id,
            m.raffle.creator,
            m.raffle.description,
            m.raffle.end_time,
            m.raffle.max_tickets,
            m.raffle.allow_multiple,
            m.raffle.ticket_price,
            m.raffle.payment_token,
            m.raffle.prize_amount,
        ),
        m.tickets == Seq::<Ticket>::empty(),
        m.held == 0,
        create_error(m.raffle.max_tickets, m.raffle.ticket_price, m.raffle.prize_amount) is None,
        1 <= n <= m.raffle.max_tickets,
        n == 1 || m.raffle.allow_multiple,
        m.raffle.end_time == 0 || now <= m.raffle.end_time,
        n * m.raffle.ticket_price <= i128::MAX,
        source_named(source) is Some,
    ensures
        ({
            let deposited = step(m, Action::Deposit { caller: m.raffle.creator });
            let bought = step(deposited->Ok_0.model, Action::Buy { buyer, quantity: n, now });
            let finalized = step(bought->Ok_0.model, Action::Finalize { source, entropy });
            let winner = finalized->Ok_0.model.raffle.winner->Some_0;
            let claimed = step(finalized->Ok_0.model, Action::Claim { caller: winner, winner_only });
            let last = claimed->Ok_0.model;
            &&& m.valid()
            &&& deposited is Ok && bought is Ok && finalized is Ok && claimed is Ok
            &&& last.raffle.status == RaffleStatus::Claimed
            &&& last.raffle.winner is Some
            &&& last.raffle.tickets_sold == n
            &&& last.tickets.len() == n
            &&& forall|i: int| 0 <= i < n ==> (#[trigger] last.tickets[i]).index == i
        }),
{
    assert(0 * m.raffle.ticket_price == 0);
    assert(m.valid());
    let d = Action::Deposit { caller: m.raffle.creator };
    lemma_step_preserves_valid(m, d);
    let m1 = step(m, d)->Ok_0.model;
    let b = Action::Buy { buyer, quantity: n, now };
    lemma_step_preserves_valid(m1, b);
    let m2 = step(m1, b)->Ok_0.model;
    let f = Action::Finalize { source, entropy };
    lemma_step_preserves_valid(m2, f);
    let m3 = step(m2, f)->Ok_0.model;
    let c = Action::Claim { caller: m3.raffle.winner->Some_0, winner_only };
    lemma_step_preserves_valid(m3, c);
}

/// Cancelling pays each party exactly what it put in: a buyer the price of
/// each of its tickets, and the creator besides the prize, if it was
/// deposited.
pub proof fn lemma_cancel_refunds_each_party(m: RaffleModel, caller: AccountId, who: AccountId)
    requires
        m.valid(),
        step(m, Action::Cancel { caller }) is Ok,
    ensures
        paid_out_to(step(m, Action::Cancel { caller })->Ok_0.transfers, who) == tickets_of(
            m.tickets,
            who,
        ) * m.raffle.ticket_price + if who == m.raffle.creator && m.raffle.status
            == RaffleStatus::Active {
            m.raffle.prize_amount as int
        } else {
            0
        },
{
    let r = m.raffle;
    assert(step(m, Action::Cancel { caller })->Ok_0.transfers == refunds_for(r, m.tickets));
    lemma_paid_out_append(prize_refund(r), ticket_refunds(r, m.tickets), who);
    lemma_ticket_refunds_per_buyer(r, m.tickets, who);
    if r.status == RaffleStatus::Active {
        let p = prize_refund(r);
        assert(p.drop_last() =~= Seq::<Transfer>::empty());
        assert(paid_out_to(p.drop_last(), who) == 0);
        assert(p.last() == Transfer::Push { to: r.creator, token: r.payment_token, amount: r.prize_amount });
    } else {
        assert(prize_refund(r) =~= Seq::<Transfer>::empty());
        assert(paid_out_to(prize_refund(r), who) == 0);
    }
}

} // verus!
