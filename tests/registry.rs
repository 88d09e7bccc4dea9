use std::collections::HashMap;

use raffle::{AccountId, Effects, RaffleError, RaffleEvent, RaffleRegistry, RaffleStatus, Transfer};

/// A token ledger for the tests: carries out the transfers that the raffle
/// hands back, and holds what it takes in custody.
struct Bank {
    balances: HashMap<u64, i128>,
    custody: i128,
}

impl Bank {
    fn new() -> Bank {
        Bank { balances: HashMap::new(), custody: 0 }
    }

    fn mint(&mut self, who: AccountId, amount: i128) {
        *self.balances.entry(who.id).or_insert(0) += amount;
    }

    fn balance(&self, who: AccountId) -> i128 {
        *self.balances.get(&who.id).unwrap_or(&0)
    }

    fn apply(&mut self, fx: &Effects) {
        for t in &fx.transfers {
            match *t {
                Transfer::Pull { from, amount, .. } => {
                    let b = self.balances.entry(from.id).or_insert(0);
                    assert!(*b >= amount, "balance too low");
                    *b -= amount;
                    self.custody += amount;
                }
                Transfer::Push { to, amount, .. } => {
                    assert!(self.custody >= amount, "custody too low");
                    self.custody -= amount;
                    *self.balances.entry(to.id).or_insert(0) += amount;
                }
            }
        }
    }
}

fn acct(id: u64) -> AccountId {
    AccountId { id }
}

const TOKEN: AccountId = AccountId { id: 900 };

fn created_event(fx: &Effects) -> RaffleEvent {
    fx.events
        .iter()
        .find(|e| matches!(e, RaffleEvent::RaffleCreated { .. }))
        .expect("RaffleCreated event not found")
        .clone()
}

#[test]
fn test_basic_raffle_flow() {
    let mut bank = Bank::new();
    let creator = acct(1);
    let buyer = acct(2);
    bank.mint(creator, 1_000);
    bank.mint(buyer, 1_000);
    let mut reg = RaffleRegistry::new(true);

    let (raffle_id, fx) = reg
        .create_raffle(creator, "Demo Raffle".to_string(), 0, 10, false, 10, TOKEN, 100)
        .unwrap();
    bank.apply(&fx);
    bank.apply(&reg.deposit_prize(raffle_id, creator).unwrap());
    bank.apply(&reg.buy_ticket(raffle_id, buyer, 0).unwrap().1);
    let (winner, fx) = reg.finalize_raffle(raffle_id, "prng", 7).unwrap();
    bank.apply(&fx);
    let (claimed_amount, fx) = reg.claim_prize(raffle_id, winner).unwrap();
    bank.apply(&fx);

    assert_eq!(claimed_amount, 100i128);
    assert_eq!(bank.balance(winner), 1_090);
    assert_eq!(bank.balance(creator), 900);
}

fn open_raffle(reg: &mut RaffleRegistry, bank: &mut Bank, max: u32, multiple: bool) -> u64 {
    let creator = acct(1);
    bank.mint(creator, 100);
    let (id, _) = reg
        .create_raffle(creator, "Test Raffle".to_string(), 1000, max, multiple, 10, TOKEN, 100)
        .unwrap();
    bank.apply(&reg.deposit_prize(id, creator).unwrap());
    id
}

#[test]
fn test_buy_tickets_single() {
    let mut bank = Bank::new();
    let mut reg = RaffleRegistry::new(false);
    let buyer = acct(2);
    bank.mint(buyer, 1_000);
    let raffle_id = open_raffle(&mut reg, &mut bank, 100, true);

    let initial_balance = bank.balance(buyer);
    let (tickets_sold, fx) = reg.buy_tickets(raffle_id, buyer, 1, 0).unwrap();
    bank.apply(&fx);
    let final_balance = bank.balance(buyer);
    let raffle = reg.get_raffle(raffle_id).unwrap();

    assert_eq!(tickets_sold, 1);
    assert_eq!(raffle.tickets_sold, 1);
    assert_eq!(initial_balance - final_balance, 10);
}

#[test]
fn test_buy_tickets_multiple() {
    let mut bank = Bank::new();
    let mut reg = RaffleRegistry::new(false);
    let buyer = acct(2);
    bank.mint(buyer, 10_000);
    let raffle_id = open_raffle(&mut reg, &mut bank, 100, true);

    let quantity = 5u32;
    let initial_balance = bank.balance(buyer);
    let (tickets_sold, fx) = reg.buy_tickets(raffle_id, buyer, quantity, 0).unwrap();
    bank.apply(&fx);
    let final_balance = bank.balance(buyer);
    let raffle = reg.get_raffle(raffle_id).unwrap();
    let tickets = reg.get_tickets(raffle_id).unwrap();

    assert_eq!(tickets_sold, quantity);
    assert_eq!(raffle.tickets_sold, quantity);
    assert_eq!(initial_balance - final_balance, (quantity as i128) * 10);
    assert_eq!(tickets.len() as u32, quantity);
}

#[test]
fn test_buy_tickets_large_quantity() {
    let mut bank = Bank::new();
    let mut reg = RaffleRegistry::new(false);
    let buyer = acct(2);
    bank.mint(buyer, 100_000);
    let raffle_id = open_raffle(&mut reg, &mut bank, 100, true);

    let quantity = 100u32;
    let initial_balance = bank.balance(buyer);
    let (tickets_sold, fx) = reg.buy_tickets(raffle_id, buyer, quantity, 0).unwrap();
    bank.apply(&fx);
    let final_balance = bank.balance(buyer);
    let raffle = reg.get_raffle(raffle_id).unwrap();

    assert_eq!(tickets_sold, quantity);
    assert_eq!(raffle.tickets_sold, quantity);
    assert_eq!(initial_balance - final_balance, (quantity as i128) * 10);
}

#[test]
fn test_buy_tickets_allow_multiple_false_rejects_multiple() {
    let mut reg = RaffleRegistry::new(false);
    let (raffle_id, _) = reg
        .create_raffle(acct(1), "Test Raffle".to_string(), 1000, 100, false, 10, TOKEN, 100)
        .unwrap();
    let r = reg.buy_tickets(raffle_id, acct(2), 5, 0);
    assert_eq!(r.err(), Some(RaffleError::MultipleTicketsNotAllowed));
}

#[test]
fn test_buy_tickets_exceeds_max() {
    let mut reg = RaffleRegistry::new(false);
    let (raffle_id, _) = reg
        .create_raffle(acct(1), "Test Raffle".to_string(), 1000, 10, true, 10, TOKEN, 100)
        .unwrap();
    let r = reg.buy_tickets(raffle_id, acct(2), 15, 0);
    assert_eq!(r.err(), Some(RaffleError::InsufficientTicketsAvailable));
}

#[test]
fn test_buy_tickets_zero_quantity() {
    let mut reg = RaffleRegistry::new(false);
    let (raffle_id, _) = reg
        .create_raffle(acct(1), "Test Raffle".to_string(), 1000, 10, true, 10, TOKEN, 100)
        .unwrap();
    let r = reg.buy_tickets(raffle_id, acct(2), 0, 0);
    assert_eq!(r.err(), Some(RaffleError::QuantityZero));
}

#[test]
fn test_buy_tickets_allow_multiple_true_allows_multiple() {
    let mut bank = Bank::new();
    let mut reg = RaffleRegistry::new(false);
    let buyer = acct(2);
    bank.mint(buyer, 10_000);
    let raffle_id = open_raffle(&mut reg, &mut bank, 100, true);

    let (tickets_sold_1, fx) = reg.buy_tickets(raffle_id, buyer, 3, 0).unwrap();
    bank.apply(&fx);
    assert_eq!(tickets_sold_1, 3);

    let (tickets_sold_2, fx) = reg.buy_tickets(raffle_id, buyer, 2, 0).unwrap();
    bank.apply(&fx);
    assert_eq!(tickets_sold_2, 5);

    let raffle = reg.get_raffle(raffle_id).unwrap();
    assert_eq!(raffle.tickets_sold, 5);
    assert_eq!(bank.balance(buyer), 10_000 - (5 * 10));
}

#[test]
fn test_raffle_created_event_emits_with_all_fields() {
    let mut reg = RaffleRegistry::new(false);
    let creator = acct(1);
    let payment_token = acct(3);
    let description = "Test Raffle Event".to_string();

    let (raffle_id, fx) = reg
        .create_raffle(creator, description.clone(), 1000, 100, true, 10, payment_token, 500)
        .unwrap();

    assert!(fx.events.len() > 0);
    assert!(fx.transfers.is_empty());
    match created_event(&fx) {
        RaffleEvent::RaffleCreated {
            raffle_id: id,
            creator: c,
            description: d,
            end_time,
            max_tickets,
            ticket_price,
            payment_token: t,
            prize_amount,
            ..
        } => {
            assert_eq!(id, raffle_id);
            assert_eq!(c, creator);
            assert_eq!(end_time, 1000);
            assert_eq!(max_tickets, 100);
            assert_eq!(ticket_price, 10);
            assert_eq!(t, payment_token);
            assert_eq!(d, description);
            assert_eq!(prize_amount, 500);
        }
        _ => unreachable!(),
    }
}

#[test]
fn test_raffle_created_event_data_matches_parameters() {
    let mut reg = RaffleRegistry::new(false);
    let (raffle_id, fx) = reg
        .create_raffle(acct(1), "Match Test Raffle".to_string(), 5000, 250, false, 25, acct(3), 1000)
        .unwrap();
    let raffle = reg.get_raffle(raffle_id).unwrap();
    match created_event(&fx) {
        RaffleEvent::RaffleCreated {
            raffle_id: id,
            creator,
            description,
            end_time,
            max_tickets,
            ticket_price,
            payment_token,
            ..
        } => {
            assert_eq!(id, raffle.id);
            assert_eq!(creator, raffle.creator);
            assert_eq!(end_time, raffle.end_time);
            assert_eq!(max_tickets, raffle.max_tickets);
            assert_eq!(ticket_price, raffle.ticket_price);
            assert_eq!(payment_token, raffle.payment_token);
            assert_eq!(description, raffle.description);
        }
        _ => unreachable!(),
    }
}

#[test]
fn test_raffle_created_event_emits_for_edge_cases() {
    let mut reg = RaffleRegistry::new(false);
    let (raffle_id_min, fx) =
        reg.create_raffle(acct(1), "A".to_string(), 1, 1, false, 1, acct(3), 1).unwrap();
    match created_event(&fx) {
        RaffleEvent::RaffleCreated { raffle_id, max_tickets, ticket_price, .. } => {
            assert_eq!(raffle_id, raffle_id_min);
            assert_eq!(max_tickets, 1);
            assert_eq!(ticket_price, 1);
        }
        _ => unreachable!(),
    }

    let long = "Very long description with lots of text to test maximum length handling in event emission";
    let (raffle_id_max, fx) = reg
        .create_raffle(acct(1), long.to_string(), u64::MAX, u32::MAX, true, i128::MAX, acct(3), i128::MAX)
        .unwrap();
    match created_event(&fx) {
        RaffleEvent::RaffleCreated { raffle_id, max_tickets, ticket_price, end_time, .. } => {
            assert_eq!(raffle_id, raffle_id_max);
            assert_eq!(max_tickets, u32::MAX);
            assert_eq!(ticket_price, i128::MAX);
            assert_eq!(end_time, u64::MAX);
        }
        _ => unreachable!(),
    }
}

#[test]
fn test_multiple_raffles_emit_separate_events() {
    let mut reg = RaffleRegistry::new(false);
    let creator1 = acct(1);
    let creator2 = acct(2);
    let token = acct(3);
    let mut events = Vec::new();
    let (raffle_id_1, fx) =
        reg.create_raffle(creator1, "First Raffle".to_string(), 1000, 50, true, 10, token, 500).unwrap();
    events.extend(fx.events);
    let (raffle_id_2, fx) = reg
        .create_raffle(creator2, "Second Raffle".to_string(), 2000, 100, false, 20, token, 1000)
        .unwrap();
    events.extend(fx.events);
    let (raffle_id_3, fx) =
        reg.create_raffle(creator1, "Third Raffle".to_string(), 3000, 75, true, 15, token, 750).unwrap();
    events.extend(fx.events);

    let created: Vec<(u64, AccountId, String)> = events
        .into_iter()
        .filter_map(|e| match e {
            RaffleEvent::RaffleCreated { raffle_id, creator, description, .. } => {
                Some((raffle_id, creator, description))
            }
            _ => None,
        })
        .collect();
    assert_eq!(created.len(), 3);
    assert_eq!(created[0], (raffle_id_1, creator1, "First Raffle".to_string()));
    assert_eq!(created[1], (raffle_id_2, creator2, "Second Raffle".to_string()));
    assert_eq!(created[2], (raffle_id_3, creator1, "Third Raffle".to_string()));

    assert_eq!(raffle_id_1, 0);
    assert_eq!(raffle_id_2, 1);
    assert_eq!(raffle_id_3, 2);
}

#[test]
fn test_event_provides_sufficient_indexing_data() {
    let mut reg = RaffleRegistry::new(false);
    let creator = acct(1);
    let payment_token = acct(3);
    let (_, fx) = reg
        .create_raffle(creator, "Indexing Test Raffle".to_string(), 10000, 500, true, 50, payment_token, 5000)
        .unwrap();
    match created_event(&fx) {
        RaffleEvent::RaffleCreated {
            creator: c,
            description,
            end_time,
            max_tickets,
            ticket_price,
            payment_token: t,
            ..
        } => {
            assert_eq!(c, creator);
            assert_eq!(end_time, 10000);
            assert_eq!(max_tickets, 500);
            assert_eq!(ticket_price, 50);
            assert_eq!(t, payment_token);
            assert_eq!(description, "Indexing Test Raffle".to_string());
        }
        _ => unreachable!(),
    }
}
