use bifrost::models::{Order, OrderKind, OrderRequest, OrderSide, OrderStatus};
use bifrost::repository::{InMemoryOrderRepo, OrderLog, OrderRepo};
use mongodb::bson::oid::ObjectId;
use std::sync::Arc;

fn numbered(number: u8) -> Order {
    Order {
        id: ObjectId::from_bytes([number; 12]),
        symbol: format!("SYM{}", number),
        quantity: format!("{}", number),
        price: format!("{}.50", number),
        side: if number % 2 == 0 { OrderSide::Buy } else { OrderSide::Sell },
        kind: if number % 3 == 0 { OrderKind::Market } else { OrderKind::Limit },
        status: Some(OrderStatus::Open),
        ttl: if number % 5 == 0 { None } else { Some(number as u64) },
    }
}

fn same_order(left: &Order, right: &Order) -> bool {
    left.id == right.id
        && left.symbol == right.symbol
        && left.quantity == right.quantity
        && left.price == right.price
        && left.side == right.side
        && left.kind == right.kind
        && left.status == right.status
        && left.ttl == right.ttl
}

#[test]
fn empty_log_fetches_nothing() {
    let log = OrderLog::new();
    assert_eq!(log.len(), 0);
    assert!(log.get_orders().is_empty());
}

#[test]
fn log_keeps_inserts_in_order() {
    let mut log = OrderLog::new();
    for number in 0..10u8 {
        log.insert_order(&numbered(number));
    }
    assert_eq!(log.len(), 10);
    let fetched = log.get_orders();
    assert_eq!(fetched.len(), 10);
    for number in 0..10u8 {
        assert!(same_order(&fetched[number as usize], &numbered(number)));
    }
}

#[test]
fn log_allows_the_same_identity_twice() {
    let mut log = OrderLog::new();
    log.insert_order(&numbered(4));
    log.insert_order(&numbered(4));
    let fetched = log.get_orders();
    assert_eq!(fetched.len(), 2);
    assert!(same_order(&fetched[0], &fetched[1]));
    assert_eq!(fetched[0].id, ObjectId::from_bytes([4; 12]));
}

#[test]
fn fetched_copy_is_not_reached_by_later_inserts() {
    let mut log = OrderLog::new();
    log.insert_order(&numbered(1));
    let mut before = log.get_orders();
    log.insert_order(&numbered(2));
    assert_eq!(before.len(), 1);
    before[0].symbol = String::from("changed");
    let after = log.get_orders();
    assert_eq!(after.len(), 2);
    assert_eq!(after[0].symbol, "SYM1");
    assert_eq!(after[1].symbol, "SYM2");
}

#[test]
fn insert_copies_and_leaves_the_callers_order() {
    let mut log = OrderLog::new();
    let mut order = numbered(7);
    log.insert_order(&order);
    order.price = String::from("0");
    let fetched = log.get_orders();
    assert_eq!(fetched[0].price, "7.50");
    assert_eq!(fetched[0].ttl, Some(7));
    assert_eq!(fetched[0].side, OrderSide::Sell);
    assert_eq!(fetched[0].kind, OrderKind::Limit);
}

#[test]
fn empty_repository_fetches_nothing_and_does_not_fail() {
    let repo = InMemoryOrderRepo::new();
    let fetched = repo.get_orders();
    assert!(fetched.is_ok());
    assert!(fetched.unwrap().is_empty());
}

#[test]
fn repository_keeps_every_insert() {
    let repo = InMemoryOrderRepo::new();
    for number in 0..25u8 {
        repo.insert_order(&numbered(number));
    }
    let fetched = repo.get_orders().unwrap();
    assert_eq!(fetched.len(), 25);
    for number in 0..25u8 {
        assert!(same_order(&fetched[number as usize], &numbered(number)));
    }
}

#[test]
fn repository_fetch_can_be_repeated() {
    let repo = InMemoryOrderRepo::new();
    repo.insert_order(&numbered(3));
    let first = repo.get_orders().unwrap();
    let second = repo.get_orders().unwrap();
    assert_eq!(first.len(), 1);
    assert_eq!(second.len(), 1);
    assert!(same_order(&first[0], &second[0]));
    repo.insert_order(&numbered(6));
    assert_eq!(first.len(), 1);
    assert_eq!(repo.get_orders().unwrap().len(), 2);
}

#[test]
fn holders_of_one_handle_share_one_store() {
    let repo = InMemoryOrderRepo::new_with_arc();
    let other = Arc::clone(&repo);
    repo.insert_order(&numbered(1));
    other.insert_order(&numbered(2));
    repo.insert_order(&numbered(3));
    let fetched = other.get_orders().unwrap();
    assert_eq!(fetched.len(), 3);
    assert!(same_order(&fetched[0], &numbered(1)));
    assert!(same_order(&fetched[1], &numbered(2)));
    assert!(same_order(&fetched[2], &numbered(3)));
}

#[test]
fn repository_serves_through_the_capability() {
    let repo: Arc<dyn OrderRepo> = InMemoryOrderRepo::new_with_arc();
    let request = OrderRequest {
        symbol: String::from("AAPL"),
        quantity: String::from("10"),
        price: String::from("150.25"),
        side: OrderSide::Buy,
        kind: OrderKind::Limit,
        ttl: None,
    };
    let order: Order = request.into();
    repo.insert_order(&order);
    let fetched = repo.get_orders().unwrap();
    assert_eq!(fetched.len(), 1);
    assert!(same_order(&fetched[0], &order));
    assert_eq!(fetched[0].status, Some(OrderStatus::Open));
    assert_eq!(fetched[0].quantity.as_bytes(), "10".as_bytes());
    assert_eq!(fetched[0].price.as_bytes(), "150.25".as_bytes());
}

#[test]
fn two_writers_of_fifty_leave_one_hundred() {
    let first = InMemoryOrderRepo::new_with_arc();
    let second = Arc::clone(&first);
    for number in 0..50u8 {
        first.insert_order(&numbered(number));
        second.insert_order(&numbered(50 + number));
    }
    let fetched = first.get_orders().unwrap();
    assert_eq!(fetched.len(), 100);
    for number in 0..50u8 {
        assert!(same_order(&fetched[2 * number as usize], &numbered(number)));
        assert!(same_order(&fetched[2 * number as usize + 1], &numbered(50 + number)));
    }
}

#[test]
fn two_workers_of_fifty_at_once_leave_one_hundred() {
    let runtime = tokio::runtime::Builder::new_multi_thread().worker_threads(2).build().unwrap();
    let repo = InMemoryOrderRepo::new_with_arc();
    let mut workers = Vec::new();
    for worker in 0..2u8 {
        let handle = Arc::clone(&repo);
        workers.push(runtime.spawn_blocking(move || {
            for number in 0..50u8 {
                handle.insert_order(&numbered(worker * 50 + number));
            }
        }));
    }
    for worker in workers {
        runtime.block_on(worker).unwrap();
    }
    let fetched = repo.get_orders().unwrap();
    assert_eq!(fetched.len(), 100);
    for number in 0..100u8 {
        let found: Vec<&Order> =
            fetched.iter().filter(|order| order.id == ObjectId::from_bytes([number; 12])).collect();
        assert_eq!(found.len(), 1);
        assert!(same_order(found[0], &numbered(number)));
    }
    let of_first: Vec<u8> =
        fetched.iter().map(|order| order.id.bytes()[0]).filter(|number| *number < 50).collect();
    assert_eq!(of_first, (0..50u8).collect::<Vec<u8>>());
}

#[test]
fn many_workers_at_once_lose_and_double_nothing() {
    let runtime = tokio::runtime::Builder::new_multi_thread().worker_threads(4).build().unwrap();
    let repo = InMemoryOrderRepo::new_with_arc();
    let mut workers = Vec::new();
    for worker in 0..8u8 {
        let handle = Arc::clone(&repo);
        workers.push(runtime.spawn_blocking(move || {
            for number in 0..25u8 {
                handle.insert_order(&numbered(worker * 25 + number));
                assert!(handle.get_orders().is_ok());
            }
        }));
    }
    for worker in workers {
        runtime.block_on(worker).unwrap();
    }
    let fetched = repo.get_orders().unwrap();
    assert_eq!(fetched.len(), 200);
    let mut numbers: Vec<u8> = fetched.iter().map(|order| order.id.bytes()[0]).collect();
    numbers.sort();
    assert_eq!(numbers, (0..200u8).collect::<Vec<u8>>());
    for order in fetched.iter() {
        assert!(same_order(order, &numbered(order.id.bytes()[0])));
    }
}
