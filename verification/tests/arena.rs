use ratelite::arena::{Arena, ArenaId, ArenaOp};

#[test]
fn insert_then_get_resolves() {
    let mut arena: Arena<u64> = Arena::new();
    let id = arena.insert(42);
    assert_eq!(id, ArenaId { index: 0, version: 0 });
    assert_eq!(arena.get(id), Some(&42));
}

#[test]
fn fresh_slots_number_upwards() {
    let mut arena: Arena<&str> = Arena::new();
    let a = arena.insert("a");
    let b = arena.insert("b");
    let c = arena.insert("c");
    assert_eq!(a, ArenaId { index: 0, version: 0 });
    assert_eq!(b, ArenaId { index: 1, version: 0 });
    assert_eq!(c, ArenaId { index: 2, version: 0 });
    assert_eq!(arena.get(b), Some(&"b"));
}

#[test]
fn slot_reuse_scenario() {
    // Fresh arena; one insert, remove, reinsert: the slot is reused with
    // a bumped version and the old handle stays dead.
    let mut arena: Arena<i32> = Arena::new();
    let first = arena.insert(7);
    assert_eq!(first, ArenaId { index: 0, version: 0 });
    assert_eq!(arena.remove(first), Some(7));
    assert_eq!(arena.get(first), None);
    let second = arena.insert(9);
    assert_eq!(second, ArenaId { index: 0, version: 1 });
    assert_eq!(arena.get(ArenaId { index: 0, version: 0 }), None);
    assert_eq!(arena.get(second), Some(&9));
}

#[test]
fn remove_is_idempotent() {
    let mut arena: Arena<String> = Arena::new();
    let id = arena.insert(String::from("once"));
    assert_eq!(arena.remove(id), Some(String::from("once")));
    assert_eq!(arena.remove(id), None);
}

#[test]
fn remove_twice_combinator() {
    let mut arena: Arena<u8> = Arena::new();
    let id = arena.insert(5);
    let (first, second) = ratelite::arena::remove_twice(&mut arena, id);
    assert_eq!(first, Some(5));
    assert_eq!(second, None);
}

#[test]
fn stale_and_unknown_handles_miss() {
    let mut arena: Arena<u64> = Arena::new();
    let id = arena.insert(1);
    assert_eq!(arena.get(ArenaId { index: 5, version: 0 }), None);
    assert_eq!(arena.get(ArenaId { index: 0, version: 3 }), None);
    assert_eq!(arena.remove(ArenaId { index: 5, version: 0 }), None);
    assert_eq!(arena.get(id), Some(&1));
}

#[test]
fn get_mut_updates_in_place() {
    let mut arena: Arena<u64> = Arena::new();
    let id = arena.insert(10);
    if let Some(v) = arena.get_mut(id) {
        *v = 99;
    }
    assert_eq!(arena.get(id), Some(&99));
}

#[test]
fn handle_survives_unrelated_removals() {
    let mut arena: Arena<u32> = Arena::new();
    let keep = arena.insert(1);
    let drop1 = arena.insert(2);
    let drop2 = arena.insert(3);
    arena.remove(drop1);
    arena.remove(drop2);
    let replacement = arena.insert(4);
    assert_eq!(arena.get(keep), Some(&1));
    assert_eq!(arena.get(drop1), None);
    assert_eq!(arena.get(drop2), None);
    // most recently freed slot is reused first
    assert_eq!(replacement.index, drop2.index);
    assert_eq!(replacement.version, 1);
}

#[test]
fn iter_walks_occupied_slots_in_index_order() {
    let mut arena: Arena<char> = Arena::new();
    let a = arena.insert('a');
    let b = arena.insert('b');
    let c = arena.insert('c');
    arena.remove(b);
    let ids = arena.iter();
    assert_eq!(ids.len(), 2);
    assert_eq!(ids[0], a);
    assert_eq!(ids[1], c);
}

#[test]
fn handle_survives_any_sequence_until_its_removal() {
    let mut arena: Arena<u32> = Arena::new();
    let noise = arena.insert(0);
    let ops = vec![
        ArenaOp::Insert(8),
        ArenaOp::Remove(noise),
        ArenaOp::Insert(9),
        ArenaOp::Remove(ArenaId { index: 17, version: 2 }),
    ];
    let (id, removed) = ratelite::arena::handle_lifecycle(&mut arena, 42, ops);
    assert!(!removed);
    assert_eq!(arena.get(id), Some(&42));

    let ops = vec![ArenaOp::Insert(1), ArenaOp::Remove(id), ArenaOp::Insert(2)];
    let (id2, removed2) = ratelite::arena::handle_lifecycle(&mut arena, 7, ops);
    assert!(!removed2);
    assert_eq!(arena.get(id), None);
    assert_eq!(arena.get(id2), Some(&7));
}
