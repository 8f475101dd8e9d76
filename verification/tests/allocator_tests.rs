use restaurant_app::allocator::SequenceAllocator;

#[test]
fn fresh_counter_hands_out_one_first() {
    let mut alloc = SequenceAllocator::new();
    assert_eq!(alloc.next(), 1);
}

#[test]
fn k_allocations_form_the_contiguous_range() {
    // Allocation is serialized by exclusive access; whatever the request
    // interleaving, the issued identifiers against a fresh counter are
    // exactly 1..=k, distinct and without gaps.
    let k = 50;
    let mut alloc = SequenceAllocator::new();
    let mut issued = Vec::new();
    for _ in 0..k {
        issued.push(alloc.next());
    }
    let expected: Vec<i64> = (1..=k as i64).collect();
    assert_eq!(issued, expected);
    let mut deduped = issued.clone();
    deduped.dedup();
    assert_eq!(deduped.len(), k);
}

#[test]
fn independent_counters_do_not_interfere() {
    let mut tables = SequenceAllocator::new();
    let mut orders = SequenceAllocator::new();
    assert_eq!(tables.next(), 1);
    assert_eq!(orders.next(), 1);
    assert_eq!(orders.next(), 2);
    assert_eq!(tables.next(), 2);
}

#[test]
fn peek_does_not_commit() {
    let mut alloc = SequenceAllocator::new();
    let peeked = alloc.peek_block(3);
    assert_eq!(peeked, vec![1, 2, 3]);
    // Nothing was committed: a second peek sees the same identifiers.
    assert_eq!(alloc.peek_block(2), vec![1, 2]);
    alloc.commit(3);
    assert_eq!(alloc.next(), 4);
}

#[test]
fn serialized_creation_flows_get_disjoint_blocks() {
    // The lock serializes concurrent creation requests; each holds the
    // counter for its whole block, so the blocks are contiguous, adjacent
    // and disjoint.
    let mut orders = SequenceAllocator::new();
    let first = orders.peek_block(3);
    orders.commit(3);
    let second = orders.peek_block(2);
    orders.commit(2);
    assert_eq!(first, vec![1, 2, 3]);
    assert_eq!(second, vec![4, 5]);
    assert!(first.iter().all(|id| !second.contains(id)));
}

#[test]
fn counters_restart_at_zero() {
    // Process-lifetime only: a fresh allocator starts over at one, with no
    // reconciliation against identifiers already persisted.
    let mut before_restart = SequenceAllocator::new();
    before_restart.next();
    before_restart.next();
    let mut after_restart = SequenceAllocator::new();
    assert_eq!(after_restart.next(), 1);
}
