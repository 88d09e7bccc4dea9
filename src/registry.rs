use vstd::prelude::*;

use crate::escrow::Transfer;
use crate::events::Effects;
use crate::machine::{effects_of, follows, RaffleState};
use crate::model::{create_error, created_event, created_raffle, Action, RaffleModel};
use crate::types::{AccountId, Raffle, RaffleError, Ticket};

verus! {

/// Every raffle, by identifier: identifiers are handed out from 0 upward and
/// the raffle with identifier `i` sits at position `i`.
pub struct RaffleRegistry {
    raffles: Vec<RaffleState>,
    winner_only_claims: bool,
}

impl View for RaffleRegistry {
    type V = Seq<RaffleModel>;

    closed spec fn view(&self) -> Seq<RaffleModel> {
        self.raffles@.map_values(|s: RaffleState| s@)
    }
}

/// Action `a` on raffle `id` of `before` gives `after` and `r`, as the state
/// machine says; an unknown identifier changes nothing.
pub open spec fn registry_follows(
    before: Seq<RaffleModel>,
    id: u64,
    a: Action,
    after: Seq<RaffleModel>,
    r: Result<Effects, RaffleError>,
) -> bool {
    if id < before.len() {
        &&& follows(before[id as int], a, after[id as int], r)
        &&& after == before.update(id as int, after[id as int])
    } else {
        &&& after == before
        &&& r == Err::<Effects, RaffleError>(RaffleError::RaffleNotFound)
    }
}

impl RaffleRegistry {
    /// Whether only the winner may ask for the payout.
    pub closed spec fn winner_only(&self) -> bool {
        self.winner_only_claims
    }

    pub closed spec fn wf(&self) -> bool {
        forall|i: int|
            0 <= i < self.raffles@.len() ==> (#[trigger] self.raffles@[i]).wf()
                && self.raffles@[i]@.raffle.id == i
    }

    /// Every raffle of a well-formed registry keeps the invariants, under
    /// its own identifier.
    pub proof fn lemma_wf_valid(&self)
        requires
            self.wf(),
        ensures
            forall|i: int|
                0 <= i < self@.len() ==> (#[trigger] self@[i]).valid() && self@[i].raffle.id == i,
    {
        assert forall|i: int| 0 <= i < self@.len() implies (#[trigger] self@[i]).valid()
            && self@[i].raffle.id == i by {
            assert(self.raffles@[i].wf());
        }
    }

    /// An empty registry. With `winner_only_claims`, a payout may be asked
    /// for by the winner alone; without, by anyone on the winner's behalf.
    pub fn new(winner_only_claims: bool) -> (r: RaffleRegistry)
        ensures
            r.wf(),
            r@ == Seq::<RaffleModel>::empty(),
            r.winner_only() == winner_only_claims,
    {
        let r = RaffleRegistry { raffles: Vec::new(), winner_only_claims };
        assert(r@ =~= Seq::<RaffleModel>::empty());
        r
    }

    /// The number of raffles created so far, which is the next identifier.
    pub fn len(&self) -> (n: u64)
        ensures
            n == self@.len(),
    {
        self.raffles.len() as u64
    }

    /// Records a new raffle under the next identifier and returns it.
    pub fn create_raffle(
        &mut self,
        creator: AccountId,
        description: String,
        end_time: u64,
        max_tickets: u32,
        allow_multiple: bool,
        ticket_price: i128,
        payment_token: AccountId,
        prize_amount: i128,
    ) -> (r: Result<(u64, Effects), RaffleError>)
        requires
            old(self).wf(),
        ensures
            final(self).wf(),
            final(self).winner_only() == old(self).winner_only(),
            match create_error(max_tickets, ticket_price, prize_amount) {
                Some(e) => final(self)@ == old(self)@ && r == Err::<(u64, Effects), RaffleError>(e),
                None => r matches Ok((id, fx)) && {
                    let raffle = created_raffle(
                        id,
                        creator,
                        description,
                        end_time,
                        max_tickets,
                        allow_multiple,
                        ticket_price,
                        payment_token,
                        prize_amount,
                    );
                    &&& id == old(self)@.len()
                    &&& final(self)@ == old(self)@.push(
                        RaffleModel { raffle, tickets: Seq::empty(), held: 0 },
                    )
                    &&& fx.transfers@ == Seq::<Transfer>::empty()
                    &&& fx.events@ == seq![created_event(raffle)]
                },
            },
    {
        let id = self.raffles.len() as u64;
        match RaffleState::create(
            id,
            creator,
            description,
            end_time,
            max_tickets,
            allow_multiple,
            ticket_price,
            payment_token,
            prize_amount,
        ) {
            Err(e) => Err(e),
            Ok((state, fx)) => {
                let ghost before = self@;
                self.raffles.push(state);
                assert(self@ =~= before.push(state@));
                Ok((id, fx))
            },
        }
    }

    /// Takes the prize of raffle `raffle_id` into custody.
    pub fn deposit_prize(&mut self, raffle_id: u64, caller: AccountId) -> (r: Result<
        Effects,
        RaffleError,
    >)
        requires
            old(self).wf(),
        ensures
            final(self).wf(),
            final(self).winner_only() == old(self).winner_only(),
            registry_follows(old(self)@, raffle_id, Action::Deposit { caller }, final(self)@, r),
    {
        if raffle_id >= self.raffles.len() as u64 {
            return Err(RaffleError::RaffleNotFound);
        }
        let i = raffle_id as usize;
        let ghost before = self@;
        let r = self.raffles[i].deposit_prize(caller);
        assert(self@ =~= before.update(i as int, self@[i as int]));
        r
    }

    /// Sells `quantity` tickets of raffle `raffle_id` to `buyer`.
    pub fn buy_tickets(&mut self, raffle_id: u64, buyer: AccountId, quantity: u32, now: u64) -> (r:
        Result<(u32, Effects), RaffleError>)
        requires
            old(self).wf(),
        ensures
            final(self).wf(),
            final(self).winner_only() == old(self).winner_only(),
            registry_follows(
                old(self)@,
                raffle_id,
                Action::Buy { buyer, quantity, now },
                final(self)@,
                effects_of(r),
            ),
            r matches Ok((n, _)) ==> n == final(self)@[raffle_id as int].raffle.tickets_sold,
    {
        if raffle_id >= self.raffles.len() as u64 {
            return Err(RaffleError::RaffleNotFound);
        }
        let i = raffle_id as usize;
        let ghost before = self@;
        let r = self.raffles[i].buy_tickets(buyer, quantity, now);
        assert(self@ =~= before.update(i as int, self@[i as int]));
        r
    }

    /// Sells one ticket of raffle `raffle_id` to `buyer`.
    pub fn buy_ticket(&mut self, raffle_id: u64, buyer: AccountId, now: u64) -> (r: Result<
        (u32, Effects),
        RaffleError,
    >)
        requires
            old(self).wf(),
        ensures
            final(self).wf(),
            final(self).winner_only() == old(self).winner_only(),
            registry_follows(
                old(self)@,
                raffle_id,
                Action::Buy { buyer, quantity: 1, now },
                final(self)@,
                effects_of(r),
            ),
            r matches Ok((n, _)) ==> n == final(self)@[raffle_id as int].raffle.tickets_sold,
    {
        self.buy_tickets(raffle_id, buyer, 1, now)
    }

    /// Draws the winner of raffle `raffle_id` with `entropy` from `source`.
    pub fn finalize_raffle(&mut self, raffle_id: u64, source: &str, entropy: u64) -> (r: Result<
        (AccountId, Effects),
        RaffleError,
    >)
        requires
            old(self).wf(),
        ensures
            final(self).wf(),
            final(self).winner_only() == old(self).winner_only(),
            registry_follows(
                old(self)@,
                raffle_id,
                Action::Finalize { source: source@, entropy },
                final(self)@,
                effects_of(r),
            ),
            r matches Ok((w, _)) ==> final(self)@[raffle_id as int].raffle.winner == Some(w),
    {
        if raffle_id >= self.raffles.len() as u64 {
            return Err(RaffleError::RaffleNotFound);
        }
        let i = raffle_id as usize;
        let ghost before = self@;
        let r = self.raffles[i].finalize_raffle(source, entropy);
        assert(self@ =~= before.update(i as int, self@[i as int]));
        r
    }

    /// Pays the prize of raffle `raffle_id` to its winner at `caller`'s request.
    pub fn claim_prize(&mut self, raffle_id: u64, caller: AccountId) -> (r: Result<
        (i128, Effects),
        RaffleError,
    >)
        requires
            old(self).wf(),
        ensures
            final(self).wf(),
            final(self).winner_only() == old(self).winner_only(),
            registry_follows(
                old(self)@,
                raffle_id,
                Action::Claim { caller, winner_only: old(self).winner_only() },
                final(self)@,
                effects_of(r),
            ),
            r matches Ok((amount, _)) ==> amount == old(self)@[raffle_id as int].raffle.prize_amount,
    {
        if raffle_id >= self.raffles.len() as u64 {
            return Err(RaffleError::RaffleNotFound);
        }
        let i = raffle_id as usize;
        let ghost before = self@;
        let winner_only = self.winner_only_claims;
        let r = self.raffles[i].claim_prize(caller, winner_only);
        assert(self@ =~= before.update(i as int, self@[i as int]));
        r
    }

    /// Calls raffle `raffle_id` off and refunds everything in its custody.
    pub fn cancel_raffle(&mut self, raffle_id: u64, caller: AccountId) -> (r: Result<
        Effects,
        RaffleError,
    >)
        requires
            old(self).wf(),
        ensures
            final(self).wf(),
            final(self).winner_only() == old(self).winner_only(),
            registry_follows(old(self)@, raffle_id, Action::Cancel { caller }, final(self)@, r),
    {
        if raffle_id >= self.raffles.len() as u64 {
            return Err(RaffleError::RaffleNotFound);
        }
        let i = raffle_id as usize;
        let ghost before = self@;
        let r = self.raffles[i].cancel_raffle(caller);
        assert(self@ =~= before.update(i as int, self@[i as int]));
        r
    }

    /// The record of raffle `raffle_id`.
    pub fn get_raffle(&self, raffle_id: u64) -> (r: Result<Raffle, RaffleError>)
        ensures
            raffle_id < self@.len() ==> r == Ok::<Raffle, RaffleError>(
                self@[raffle_id as int].raffle,
            ),
            raffle_id >= self@.len() ==> r == Err::<Raffle, RaffleError>(
                RaffleError::RaffleNotFound,
            ),
    {
        if raffle_id >= self.raffles.len() as u64 {
            return Err(RaffleError::RaffleNotFound);
        }
        Ok(self.raffles[raffle_id as usize].raffle())
    }

    /// The tickets of raffle `raffle_id`, in index order.
    pub fn get_tickets(&self, raffle_id: u64) -> (r: Result<Vec<Ticket>, RaffleError>)
        ensures
            raffle_id < self@.len() ==> (r matches Ok(t) && t@ == self@[raffle_id as int].tickets),
            raffle_id >= self@.len() ==> r is Err && r == Err::<Vec<Ticket>, RaffleError>(
                RaffleError::RaffleNotFound,
            ),
    {
        if raffle_id >= self.raffles.len() as u64 {
            return Err(RaffleError::RaffleNotFound);
        }
        Ok(self.raffles[raffle_id as usize].tickets())
    }
}

} // verus!
