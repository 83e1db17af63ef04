use std::cell::Cell;

use wumpus::random::{empty_random, OsRandom, Random, WasmRandom};

#[test]
fn os_random_stays_in_range() {
    let random = OsRandom::new();
    for _ in 0..200 {
        let r = random.get_random(1..21);
        assert!((1..21).contains(&r));
        let t = random.get_random(0..3);
        assert!(t <= 2);
    }
}

#[test]
fn os_random_shuffle_is_a_permutation() {
    let random = OsRandom::new();
    let rooms: Vec<u8> = (1..20).collect();
    let mut shuffled = random.shuffle(rooms.clone());
    shuffled.sort();
    assert_eq!(shuffled, rooms);
}

#[test]
fn empty_random_draws_zero() {
    assert_eq!(empty_random(9), 0);
    let random = WasmRandom::new(empty_random);
    assert_eq!(random.get_random(1..20), 1);
    assert_eq!(random.get_random(0..2), 0);
}

#[test]
fn wasm_random_serves_the_half_open_range() {
    // The host draws below its bound: the largest draw gives the last number
    // before the end.
    let random = WasmRandom::new(|n: u8| n - 1);
    assert_eq!(random.get_random(1..21), 20);
    assert_eq!(random.get_random(0..3), 2);
    assert_eq!(random.get_random(1..101), 100);
}

#[test]
fn set_random_function_takes_any_host_function() {
    fn three(_: u8) -> u8 {
        3
    }
    let mut w = WasmRandom::new(empty_random as fn(u8) -> u8);
    assert_eq!(w.get_random(10..20), 10);
    w.set_random_function(three);
    assert_eq!(w.get_random(10..20), 13);
}

#[test]
fn os_random_shuffles_lists_of_any_length() {
    let random = OsRandom::new();
    assert_eq!(random.shuffle(Vec::new()), Vec::<u8>::new());
    let long: Vec<u8> = (0..600).map(|i: u32| (i % 256) as u8).collect();
    let mut shuffled = random.shuffle(long.clone());
    let mut sorted = long.clone();
    sorted.sort();
    shuffled.sort();
    assert_eq!(shuffled, sorted);
}

#[test]
fn set_random_function_replaces_the_host_function() {
    fn last(n: u8) -> u8 {
        n - 1
    }
    let mut random = WasmRandom::new(empty_random as fn(u8) -> u8);
    assert_eq!(random.get_random(5..9), 5);
    random.set_random_function(last);
    assert_eq!(random.get_random(5..9), 8);
}

#[test]
fn wasm_shuffle_swaps_and_keeps_every_element() {
    // Every draw is 0: each position from the last down to the second
    // swaps with position 0.
    let random = WasmRandom::new(empty_random);
    assert_eq!(random.shuffle(vec![10, 20, 30]), vec![20, 30, 10]);
    assert_eq!(random.shuffle(vec![1, 2, 3, 4]), vec![2, 3, 4, 1]);
    // With each draw equal to the position, nothing moves.
    let calls = Cell::new(0u8);
    let identity = WasmRandom::new(|n: u8| {
        calls.set(calls.get() + 1);
        n - 1
    });
    assert_eq!(identity.shuffle(vec![1, 2, 3, 4]), vec![1, 2, 3, 4]);
    assert_eq!(calls.get(), 3);
    assert_eq!(random.shuffle(vec![7]), vec![7]);
}
