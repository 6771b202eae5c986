use std::collections::HashSet;
use tetrs::bag::Bag;

#[test]
fn test_bag_contains_all_pieces() {
    let mut bag = Bag::new();
    let mut pieces = Vec::new();

    // Get 7 pieces
    for _ in 0..7 {
        pieces.push(bag.next());
    }

    // Should contain all 7 unique pieces
    let unique: HashSet<_> = pieces.iter().collect();
    assert_eq!(unique.len(), 7);
}

#[test]
fn test_fresh_bag_queues_two_full_shuffles() {
    // A fresh bag holds exactly 14 queued pieces: two full shuffled bags
    let bag = Bag::new();
    assert_eq!(bag.preview(20).len(), 14);
    // Each half is a permutation of the 7 kinds
    let queue = bag.preview(14);
    let first: std::collections::HashSet<_> = queue[..7].iter().collect();
    let second: std::collections::HashSet<_> = queue[7..].iter().collect();
    assert_eq!(first.len(), 7);
    assert_eq!(second.len(), 7);
}

#[test]
fn test_default_bag_is_fresh() {
    let bag = Bag::default();
    assert_eq!(bag.preview(20).len(), 14);
}

#[test]
fn test_preview() {
    let bag = Bag::new();
    let preview = bag.preview(5);
    assert_eq!(preview.len(), 5);
}

#[test]
fn test_many_pieces() {
    let mut bag = Bag::new();
    // Should be able to get many pieces without panicking
    for _ in 0..100 {
        let _ = bag.next();
    }
}

#[test]
fn test_seeded_bag_fairness() {
    // Every consecutive non-overlapping block of 7 draws is a permutation
    // of all 7 kinds.
    let mut bag = Bag::with_seed(0xDEADBEEF);
    for _ in 0..10 {
        let mut block = HashSet::new();
        for _ in 0..7 {
            block.insert(bag.next());
        }
        assert_eq!(block.len(), 7);
    }
}

#[test]
fn test_seeded_bag_determinism() {
    // Two bags built from the same seed deal identical sequences.
    let mut a = Bag::with_seed(12345);
    let mut b = Bag::with_seed(12345);
    for _ in 0..100 {
        assert_eq!(a.next(), b.next());
    }
}

#[test]
fn test_different_seeds_diverge() {
    // Different seeds almost surely shuffle differently somewhere early.
    let mut a = Bag::with_seed(1);
    let mut b = Bag::with_seed(2);
    let mut differs = false;
    for _ in 0..28 {
        if a.next() != b.next() {
            differs = true;
        }
    }
    assert!(differs);
}

#[test]
fn test_preview_matches_next() {
    let mut bag = Bag::with_seed(7);
    let preview = bag.preview(5);
    for kind in preview {
        assert_eq!(bag.next(), kind);
    }
}
