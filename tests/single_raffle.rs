use std::collections::HashMap;

use raffle::{AccountId, Effects, RaffleError, RaffleEvent, RaffleState, RaffleStatus, Transfer};

struct Bank {
    balances: HashMap<u64, i128>,
    custody: i128,
}

impl Bank {
    fn new() -> Bank {
        Bank { balances: HashMap::new(), custody: 0 }
    }

    fn mint(&mut self, who: AccountId, amount: i128) {
        *self.balances.entry(who.id).or_insert(0) += amount;
    }

    fn balance(&self, who: AccountId) -> i128 {
        *self.balances.get(&who.id).unwrap_or(&0)
    }

    fn apply(&mut self, fx: &Effects) {
        for t in &fx.transfers {
            match *t {
                Transfer::Pull { from, amount, .. } => {
                    let b = self.balances.entry(from.id).or_insert(0);
                    assert!(*b >= amount, "balance too low");
                    *b -= amount;
                    self.custody += amount;
                }
                Transfer::Push { to, amount, .. } => {
                    assert!(self.custody >= amount, "custody too low");
                    self.custody -= amount;
                    *self.balances.entry(to.id).or_insert(0) += amount;
                }
            }
        }
    }
}

struct Setup {
    raffle: RaffleState,
    creator: AccountId,
    buyer: AccountId,
    bank: Bank,
    next_account: u64,
}

impl Setup {
    fn fresh_account(&mut self) -> AccountId {
        self.next_account += 1;
        AccountId { id: self.next_account }
    }
}

/// One raffle of five tickets at 10, one per purchase, with a prize of 100.
fn setup_raffle_env() -> Setup {
    let creator = AccountId { id: 1 };
    let buyer = AccountId { id: 2 };
    let token = AccountId { id: 3 };
    let mut bank = Bank::new();
    bank.mint(creator, 1_000);
    bank.mint(buyer, 1_000);
    let (raffle, _) =
        RaffleState::create(0, creator, "Audit Raffle".to_string(), 0, 5, false, 10, token, 100).unwrap();
    Setup { raffle, creator, buyer, bank, next_account: 100 }
}

/// Five fresh buyers, each minted the price of one ticket, buy one each.
fn sell_out(s: &mut Setup, now: u64) -> Vec<AccountId> {
    let mut buyers = Vec::new();
    for _ in 0..5 {
        let b = s.fresh_account();
        s.bank.mint(b, 10);
        let (_, fx) = s.raffle.buy_ticket(b, now).unwrap();
        s.bank.apply(&fx);
        buyers.push(b);
    }
    buyers
}

#[test]
fn test_test_basic_raffle_flow() {
    let mut s = setup_raffle_env();
    let fx = s.raffle.deposit_prize(s.creator).unwrap();
    s.bank.apply(&fx);
    sell_out(&mut s, 0);

    let (winner, fx) = s.raffle.finalize_raffle("prng", 0x5eed).unwrap();
    s.bank.apply(&fx);
    let (_claimed_amount, fx) = s.raffle.claim_prize(winner, true).unwrap();
    s.bank.apply(&fx);

    assert_eq!(s.bank.balance(winner), 100i128);
    assert_eq!(s.bank.balance(s.creator), 900i128);
}

#[test]
fn test_randomness_source_prng() {
    let mut s = setup_raffle_env();
    let fx = s.raffle.deposit_prize(s.creator).unwrap();
    s.bank.apply(&fx);
    let buyers = sell_out(&mut s, 0);

    let (winner, _) = s.raffle.finalize_raffle("prng", 42).unwrap();
    let outsider = s.fresh_account();
    assert!(winner != outsider);
    assert!(buyers.contains(&winner));
}

#[test]
fn test_randomness_source_oracle() {
    let mut s = setup_raffle_env();
    let fx = s.raffle.deposit_prize(s.creator).unwrap();
    s.bank.apply(&fx);
    let buyers = sell_out(&mut s, 0);

    let (winner, _) = s.raffle.finalize_raffle("oracle", 123456789).unwrap();
    let outsider = s.fresh_account();
    assert!(winner != outsider);
    assert!(buyers.contains(&winner));
}

#[test]
fn test_raffle_finalized_event_audit() {
    let expected_timestamp = 123456789u64;
    let mut s = setup_raffle_env();
    let fx = s.raffle.deposit_prize(s.creator).unwrap();
    s.bank.apply(&fx);
    sell_out(&mut s, expected_timestamp);

    let (_winner, fx) = s.raffle.finalize_raffle("oracle", expected_timestamp).unwrap();
    let found = fx.events.iter().any(|e| matches!(e, RaffleEvent::RaffleFinalized { .. }));
    assert!(found);
    assert!(s.raffle.tickets().iter().all(|t| t.purchase_time == expected_timestamp));
}

#[test]
fn test_single_ticket_purchase_event() {
    let mut s = setup_raffle_env();
    let fx = s.raffle.deposit_prize(s.creator).unwrap();
    s.bank.apply(&fx);

    let (_, fx) = s.raffle.buy_ticket(s.buyer, 0).unwrap();
    let last_event = fx.events.last().expect("No events");
    assert!(matches!(
        last_event,
        RaffleEvent::TicketPurchased { ticket_index: 0, tickets_sold: 1, .. }
    ));
}

#[test]
fn test_raffle_cancellation() {
    let mut s = setup_raffle_env();
    let fx = s.raffle.deposit_prize(s.creator).unwrap();
    s.bank.apply(&fx);
    let (_, fx) = s.raffle.buy_ticket(s.buyer, 0).unwrap();
    s.bank.apply(&fx);

    let fx = s.raffle.cancel_raffle(s.creator).unwrap();
    s.bank.apply(&fx);

    assert_eq!(s.bank.balance(s.creator), 1000i128);
    assert_eq!(s.bank.balance(s.buyer), 1000i128);
    assert_eq!(s.bank.custody, 0);
    let raffle = s.raffle.raffle();
    assert!(raffle.status == RaffleStatus::Cancelled);
}

#[test]
fn restore_accepts_persisted_state() {
    let mut s = setup_raffle_env();
    s.raffle.deposit_prize(s.creator).unwrap();
    let buyers = sell_out(&mut s, 9);
    let (winner, _) = s.raffle.finalize_raffle("prng", 3).unwrap();
    assert_eq!(winner, buyers[3]);
    let mut again = RaffleState::restore(s.raffle.raffle(), s.raffle.tickets()).unwrap();
    assert_eq!(again.tickets(), s.raffle.tickets());
    assert_eq!(again.raffle().winner, Some(winner));
    let (amount, fx) = again.claim_prize(winner, true).unwrap();
    assert_eq!(amount, 100);
    assert_eq!(fx.transfers[0], Transfer::Push { to: winner, token: AccountId { id: 3 }, amount: 100 });
}

#[test]
fn restore_rejects_broken_records() {
    let mut s = setup_raffle_env();
    s.raffle.deposit_prize(s.creator).unwrap();
    sell_out(&mut s, 0);
    let raffle = s.raffle.raffle();
    let tickets = s.raffle.tickets();

    let mut short = tickets.clone();
    short.pop();
    assert_eq!(RaffleState::restore(raffle.clone(), short).err(), Some(RaffleError::InvalidRecord));

    let mut gap = tickets.clone();
    gap[2].index = 7;
    assert_eq!(RaffleState::restore(raffle.clone(), gap).err(), Some(RaffleError::InvalidRecord));

    let mut early_winner = raffle.clone();
    early_winner.winner = Some(tickets[0].buyer);
    assert_eq!(
        RaffleState::restore(early_winner, tickets.clone()).err(),
        Some(RaffleError::InvalidRecord)
    );

    let mut stranger = raffle.clone();
    stranger.status = RaffleStatus::Finalized;
    stranger.winner = Some(AccountId { id: 5_000 });
    assert_eq!(RaffleState::restore(stranger, tickets.clone()).err(), Some(RaffleError::InvalidRecord));

    let mut priceless = raffle.clone();
    priceless.ticket_price = 0;
    assert_eq!(RaffleState::restore(priceless, tickets.clone()).err(), Some(RaffleError::InvalidRecord));

    assert!(RaffleState::restore(raffle, tickets).is_ok());
}
