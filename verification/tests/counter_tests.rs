use counters::{Counter, Registry, ShardList};

#[test]
fn test_counter_simple() {
    let mut reg = Registry::new();
    let counter = Counter::new(&mut reg);
    counter.inc(&mut reg);
    assert_eq!(counter.get(&reg), 1);
}

#[test]
fn test_counter_clone() {
    let mut reg = Registry::new();
    let counter = Counter::new(&mut reg);
    let mut handles = Vec::new();

    for _ in 0..10 {
        let counter_clone = counter.clone(&mut reg);
        handles.push(counter_clone);
    }

    for handle in handles {
        handle.inc(&mut reg);
    }

    assert_eq!(counter.get(&reg), 10);
}

#[test]
fn join_barrier_exactness_scenario() {
    // 4 clones, each incremented 5 times: the read reports exactly 4 * 5.
    let mut reg = Registry::new();
    let counter = Counter::new(&mut reg);
    let mut clones = Vec::new();
    for _ in 0..4 {
        clones.push(counter.clone(&mut reg));
    }
    for clone in &clones {
        for _ in 0..5 {
            clone.inc(&mut reg);
        }
    }
    assert_eq!(counter.get(&reg), 20);
    // Every clone reads the same aggregate.
    for clone in &clones {
        assert_eq!(clone.get(&reg), 20);
    }
}

#[test]
fn no_lost_updates_scenario() {
    // 6 clone-then-increment-once rounds: 6 new cells beside the origin cell,
    // and a total of exactly 6.
    let mut reg = Registry::new();
    let counter = Counter::new(&mut reg);
    for _ in 0..6 {
        let clone = counter.clone(&mut reg);
        clone.inc(&mut reg);
    }
    assert_eq!(reg.cell_count(0), 7);
    assert_eq!(counter.get(&reg), 6);
}

#[test]
fn idempotent_read() {
    let mut reg = Registry::new();
    let counter = Counter::new(&mut reg);
    counter.inc(&mut reg);
    counter.inc(&mut reg);
    let first = counter.get(&reg);
    let second = counter.get(&reg);
    assert_eq!(first, second);
    assert_eq!(first, 2);
}

#[test]
fn shard_independence() {
    let mut reg = Registry::new();
    let counter = Counter::new(&mut reg);
    let a = counter.clone(&mut reg);
    let b = counter.clone(&mut reg);

    a.inc(&mut reg);
    a.inc(&mut reg);

    // Only a's private cell moved; b's and the origin's stayed at zero.
    assert_eq!(a.cell_value(&reg), 2);
    assert_eq!(b.cell_value(&reg), 0);
    assert_eq!(counter.cell_value(&reg), 0);
    // The aggregate reflects the increments all the same.
    assert_eq!(b.get(&reg), 2);
}

#[test]
fn registry_growth() {
    let mut reg = Registry::new();
    assert_eq!(reg.list_count(), 0);

    let first = Counter::new(&mut reg);
    let second = Counter::new(&mut reg);
    let third = Counter::new(&mut reg);
    assert_eq!(reg.list_count(), 3);

    // Cloning adds no registry entry.
    let _first_clone = first.clone(&mut reg);
    let _second_clone = second.clone(&mut reg);
    assert_eq!(reg.list_count(), 3);

    // The counters are independent logical totals.
    first.inc(&mut reg);
    first.inc(&mut reg);
    third.inc(&mut reg);
    assert_eq!(first.get(&reg), 2);
    assert_eq!(second.get(&reg), 0);
    assert_eq!(third.get(&reg), 1);
}

#[test]
fn fresh_counter_reads_zero() {
    let mut reg = Registry::new();
    let counter = Counter::new(&mut reg);
    assert_eq!(counter.get(&reg), 0);
    assert_eq!(counter.cell_value(&reg), 0);
    assert_eq!(reg.cell_count(0), 1);
}

#[test]
fn shard_list_operations() {
    let mut list = ShardList::with_origin_cell();
    assert_eq!(list.cell_count(), 1);
    assert_eq!(list.cell_value(0), 0);
    assert_eq!(list.total(), 0);

    let second = list.add_cell();
    assert_eq!(second, 1);
    assert_eq!(list.cell_count(), 2);

    list.inc_cell(0);
    list.inc_cell(1);
    list.inc_cell(1);
    assert_eq!(list.cell_value(0), 1);
    assert_eq!(list.cell_value(1), 2);
    assert_eq!(list.total(), 3);
}

#[test]
fn registry_operations() {
    let mut reg = Registry::new();
    let l0 = reg.originate();
    let l1 = reg.originate();
    assert_eq!(l0, 0);
    assert_eq!(l1, 1);
    assert_eq!(reg.list_count(), 2);

    let s = reg.grow_list(l0);
    assert_eq!(s, 1);
    assert_eq!(reg.cell_count(l0), 2);
    assert_eq!(reg.cell_count(l1), 1);

    reg.inc_cell(l0, 0);
    reg.inc_cell(l0, 1);
    reg.inc_cell(l0, 1);
    assert_eq!(reg.cell_value(l0, 0), 1);
    assert_eq!(reg.cell_value(l0, 1), 2);
    assert_eq!(reg.list_total(l0), 3);
    assert_eq!(reg.list_total(l1), 0);
}
