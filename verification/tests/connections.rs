use rust_network::client::Client;
use rust_network::connections::{
    alphabet_char, token_of, Connections, MAINTENANCE_INTERVAL_SECS, MAX_FAILED_ATTEMPTS,
};
use std::time::Instant;

type Pool = Connections<u8, u32>;

fn id(s: &str) -> String {
    s.to_string()
}

fn fail(pool: &mut Pool, name: &str, times: u32) {
    let c: &mut Client<u8, u32> = pool.client_mut(&id(name)).unwrap();
    c.finished(true);
    for _ in 1..times {
        assert!(c.spawn());
        c.finished(true);
    }
}

fn connect(pool: &mut Pool, name: &str, tx: u8) {
    let c = pool.client_mut(&id(name)).unwrap();
    c.spawn();
    assert!(c.connected(tx, Instant::now()));
}

#[test]
fn random_string_has_the_length_and_the_alphabet() {
    for n in [0usize, 1, 16, 100] {
        let s = Pool::gen_random_string(n);
        assert_eq!(s.len(), n);
        assert!(s.chars().all(|c| c.is_ascii_lowercase() || c.is_ascii_digit()));
    }
}

#[test]
fn token_of_given_draws() {
    assert_eq!(token_of(&vec![0, 25, 26, 35, 36, 71, u64::MAX]), "az09a9p");
    assert_eq!(token_of(&Vec::new()), "");
    let alphabet = "abcdefghijklmnopqrstuvwxyz0123456789";
    for (i, c) in alphabet.chars().enumerate() {
        assert_eq!(alphabet_char(i as u64), c);
    }
}

#[test]
fn add_client_is_idempotent() {
    let mut pool = Pool::new();
    assert_eq!(pool.len(), 0);
    assert!(pool.add_client(id("a"), id("127.0.0.1:1")));
    assert_eq!(pool.len(), 1);
    assert!(!pool.add_client(id("a"), id("127.0.0.1:2")));
    assert_eq!(pool.len(), 1);
    let c = pool.client(&id("a")).unwrap();
    assert_eq!(c.addr(), "127.0.0.1:1");
    assert_eq!(c.client_id(), "a");
    assert!(!c.is_disconnected() && !c.is_connected() && !c.is_sleeping());
    assert!(pool.client(&id("b")).is_none());
    assert!(pool.add_client(id("b"), id("127.0.0.1:2")));
    assert_eq!(pool.position(&id("b")), Some(1));
    assert_eq!(pool.id_at(1), "b");
    assert_eq!(pool.position(&id("c")), None);
}

#[test]
fn unreachable_relay_is_dropped_while_another_is_connected() {
    assert_eq!(MAX_FAILED_ATTEMPTS, 1);
    assert_eq!(MAINTENANCE_INTERVAL_SECS, 1);
    let mut pool = Pool::new();
    pool.add_client(id("up"), id("127.0.0.1:1"));
    pool.add_client(id("down"), id("127.0.0.1:2"));
    connect(&mut pool, "up", 1);
    assert!(pool.is_any_connected());

    fail(&mut pool, "down", 1);
    assert_eq!(pool.main_loop(), vec![id("down")]);
    assert_eq!(pool.len(), 2);
    pool.client_mut(&id("down")).unwrap().finished(true);
    assert_eq!(pool.client(&id("down")).unwrap().connection_attempts(), 2);

    assert_eq!(pool.main_loop(), Vec::<String>::new());
    assert_eq!(pool.len(), 1);
    assert!(pool.client(&id("down")).is_none());
    assert!(pool.client(&id("up")).unwrap().is_connected());
}

#[test]
fn relay_is_retried_while_none_is_connected() {
    let mut pool = Pool::new();
    pool.add_client(id("a"), id("127.0.0.1:1"));
    pool.add_client(id("b"), id("127.0.0.1:2"));
    fail(&mut pool, "a", 5);
    fail(&mut pool, "b", 1);
    assert!(!pool.is_any_connected());
    assert_eq!(pool.client(&id("a")).unwrap().connection_attempts(), 5);
    assert_eq!(pool.main_loop(), vec![id("a"), id("b")]);
    assert_eq!(pool.len(), 2);
    let a = pool.client(&id("a")).unwrap();
    assert!(!a.is_disconnected() && !a.is_connected() && !a.is_sleeping());
    assert_eq!(pool.main_loop(), Vec::<String>::new());
}

#[test]
fn sleeping_relay_is_neither_retried_nor_dropped() {
    let mut pool = Pool::new();
    pool.add_client(id("up"), id("127.0.0.1:1"));
    pool.add_client(id("asleep"), id("127.0.0.1:2"));
    connect(&mut pool, "up", 1);
    fail(&mut pool, "asleep", 3);
    pool.client_mut(&id("asleep")).unwrap().sleep();
    for _ in 0..10 {
        assert_eq!(pool.main_loop(), Vec::<String>::new());
        assert_eq!(pool.len(), 2);
        let c = pool.client(&id("asleep")).unwrap();
        assert!(c.is_sleeping());
        assert_eq!(c.connection_attempts(), 3);
    }
    pool.client_mut(&id("asleep")).unwrap().disconnect();
    assert_eq!(pool.main_loop(), Vec::<String>::new());
    assert!(pool.client(&id("asleep")).is_none());
}

#[test]
fn connecting_relay_is_left_alone() {
    let mut pool = Pool::new();
    pool.add_client(id("a"), id("127.0.0.1:1"));
    assert_eq!(pool.main_loop(), Vec::<String>::new());
    assert_eq!(pool.len(), 1);
}

#[test]
fn broadcast_stops_at_the_first_relay_that_is_not_connected() {
    let mut pool = Pool::new();
    assert!(pool.send_data().is_empty());
    pool.add_client(id("a"), id("127.0.0.1:1"));
    pool.add_client(id("b"), id("127.0.0.1:2"));
    pool.add_client(id("c"), id("127.0.0.1:3"));
    pool.add_client(id("d"), id("127.0.0.1:4"));
    for (name, tx) in [("a", 1), ("b", 2), ("d", 4)] {
        let c = pool.client_mut(&id(name)).unwrap();
        assert!(c.connected(tx, Instant::now()));
    }
    assert_eq!(pool.send_data(), vec![&1, &2]);
    pool.client_mut(&id("c")).unwrap().connected(3, Instant::now());
    assert_eq!(pool.send_data(), vec![&1, &2, &3, &4]);
    pool.client_mut(&id("a")).unwrap().sleep();
    assert!(pool.send_data().is_empty());
}
