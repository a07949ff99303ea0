use fastgen::branches::{count_lookup, Branches, GlobalBranches};
use fastgen::config::BRANCHES_SIZE;
use fastgen::shm::SHM;
use fastgen::status_type::StatusType;
use std::collections::HashSet;

fn fresh() -> Branches {
    Branches::new(SHM::new(11, BRANCHES_SIZE, 4096, Vec::new()), SHM::new(12, 8, 8192, 5))
}

fn trace_with(hits: &[(usize, u8)]) -> Vec<u8> {
    let mut t = vec![0u8; BRANCHES_SIZE];
    for &(i, v) in hits {
        t[i] = v;
    }
    t
}

#[test]
fn bucket_lookup_table() {
    assert_eq!(count_lookup(0), 0);
    assert_eq!(count_lookup(1), 1);
    assert_eq!(count_lookup(2), 2);
    assert_eq!(count_lookup(3), 4);
    for v in 4..=7u8 {
        assert_eq!(count_lookup(v), 8);
    }
    for v in 8..=15u8 {
        assert_eq!(count_lookup(v), 16);
    }
    for v in 16..=31u8 {
        assert_eq!(count_lookup(v), 32);
    }
    for v in 32..=127u8 {
        assert_eq!(count_lookup(v), 64);
    }
    for v in 128..=255u8 {
        assert_eq!(count_lookup(v), 128);
    }
}

#[test]
fn fresh_state_is_fully_virgin() {
    let g = GlobalBranches::new();
    assert_eq!(g.edges_seen(), 0);
    assert_eq!(g.get_density(), 0);
    for s in [StatusType::Normal, StatusType::Timeout, StatusType::Crash] {
        assert_eq!(g.virgin_byte(s, 0), Some(255));
        assert_eq!(g.virgin_byte(s, BRANCHES_SIZE - 1), Some(255));
        assert_eq!(g.virgin_byte(s, BRANCHES_SIZE), None);
    }
    assert_eq!(g.virgin_byte(StatusType::Skip, 0), None);
    assert_eq!(g.virgin_byte(StatusType::Error, 0), None);
    assert_eq!(g.total_hit_byte(5), Some(0));
    assert_eq!(g.total_hit_byte(BRANCHES_SIZE), None);
}

#[test]
fn edge_discovery() {
    let mut g = GlobalBranches::new();
    let mut br = fresh();
    let mut seen = HashSet::new();
    assert!(br.load(trace_with(&[(4, 1), (5, 1), (8, 3)]), 77));
    let n = br.has_new_unique_path(&mut g, StatusType::Normal, &mut seen);
    assert_eq!(n.level, 2);
    assert!(n.path_unique);
    assert_eq!(g.edges_seen(), 3);
    assert_eq!(g.virgin_byte(StatusType::Normal, 4), Some(0xFE));
    assert_eq!(g.virgin_byte(StatusType::Normal, 5), Some(0xFE));
    assert_eq!(g.virgin_byte(StatusType::Normal, 8), Some(0xFB));
    assert_eq!(g.virgin_byte(StatusType::Normal, 6), Some(0xFF));
    assert_eq!(g.virgin_byte(StatusType::Timeout, 4), Some(0xFF));
    assert_eq!(g.virgin_byte(StatusType::Crash, 4), Some(0xFF));
    assert_eq!(n.hits.len(), 3);

    let again = br.has_new_unique_path(&mut g, StatusType::Normal, &mut seen);
    assert_eq!(again.level, 0);
    assert!(!again.path_unique);
    assert_eq!(g.edges_seen(), 3);
}

#[test]
fn path_only_novelty() {
    let mut g = GlobalBranches::new();
    let mut br = fresh();
    let mut seen = HashSet::new();
    assert!(br.load(trace_with(&[(4, 1), (5, 1), (8, 3)]), 1));
    assert_eq!(br.has_new_unique_path(&mut g, StatusType::Normal, &mut seen).level, 2);
    assert!(br.load(trace_with(&[(4, 1), (5, 1), (8, 3)]), 2));
    let second = br.has_new_unique_path(&mut g, StatusType::Normal, &mut seen);
    assert_eq!(second.level, 1);
    assert_eq!(g.edges_seen(), 3);
    assert!(seen.contains(&1) && seen.contains(&2));
}

#[test]
fn new_bucket_on_a_known_edge() {
    let mut g = GlobalBranches::new();
    let mut br = fresh();
    let mut seen = HashSet::new();
    assert!(br.load(trace_with(&[(9, 1)]), 5));
    assert_eq!(br.has_new_unique_path(&mut g, StatusType::Normal, &mut seen).level, 2);
    assert!(br.load(trace_with(&[(9, 200)]), 5));
    let n = br.has_new_unique_path(&mut g, StatusType::Normal, &mut seen);
    assert_eq!(n.level, 2);
    assert!(!n.path_unique);
    assert_eq!(g.virgin_byte(StatusType::Normal, 9), Some(0x7E));
    assert_eq!(g.edges_seen(), 1);
}

#[test]
fn has_new_reports_new_buckets_only() {
    let mut g = GlobalBranches::new();
    let mut br = fresh();
    assert!(!br.has_new(&mut g, StatusType::Normal));
    assert!(br.load(trace_with(&[(100, 4)]), 0));
    assert!(br.has_new(&mut g, StatusType::Crash));
    assert!(!br.has_new(&mut g, StatusType::Crash));
    assert_eq!(g.virgin_byte(StatusType::Crash, 100), Some(0xF7));
    assert_eq!(g.virgin_byte(StatusType::Normal, 100), Some(0xFF));
    assert_eq!(g.edges_seen(), 0);
    assert!(br.has_new(&mut g, StatusType::Timeout));
    assert!(br.has_new(&mut g, StatusType::Normal));
    assert_eq!(g.edges_seen(), 1);
}

#[test]
fn untracked_status_changes_nothing() {
    let mut g = GlobalBranches::new();
    let mut br = fresh();
    let mut seen = HashSet::new();
    assert!(br.load(trace_with(&[(3, 9)]), 42));
    for s in [StatusType::Skip, StatusType::Error] {
        let n = br.has_new_unique_path(&mut g, s, &mut seen);
        assert_eq!(n.level, 0);
        assert!(n.hits.is_empty());
        assert!(!br.has_new(&mut g, s));
    }
    assert!(seen.is_empty());
    assert_eq!(g.virgin_byte(StatusType::Normal, 3), Some(0xFF));
}

#[test]
fn virgin_bytes_only_lose_bits() {
    let mut g = GlobalBranches::new();
    let mut br = fresh();
    let mut before = 0xFFu8;
    for v in [1u8, 3, 3, 17, 1, 255, 64] {
        assert!(br.load(trace_with(&[(77, v)]), 0));
        br.has_new(&mut g, StatusType::Normal);
        let after = g.virgin_byte(StatusType::Normal, 77).unwrap();
        assert_eq!(after & !before, 0);
        assert_eq!(after, before & !count_lookup(v));
        before = after;
    }
    assert_eq!(before, 0xFF & !(1 | 4 | 32 | 128 | 64));
}

#[test]
fn fingerprint_lists_hit_edges_in_order() {
    let mut g = GlobalBranches::new();
    let mut br = fresh();
    assert!(br.load(trace_with(&[(8, 3), (4, 1), (BRANCHES_SIZE - 1, 130)]), 0));
    let (path, hits) = br.get_path(&mut g);
    assert_eq!(path, vec![(4, 1), (8, 4), (BRANCHES_SIZE - 1, 128)]);
    assert_eq!(hits, vec![(1, 1), (3, 3), (130, 130)]);
    assert_eq!(g.total_hit_byte(4), Some(1));
    assert_eq!(g.total_hit_byte(0), Some(0));
}

#[test]
fn observing_adds_the_trace_to_the_totals() {
    let mut g = GlobalBranches::new();
    let mut br = fresh();
    assert!(br.load(trace_with(&[(1, 100), (2, 7), (3, 255)]), 0));
    let (_, hits) = br.get_path(&mut g);
    assert_eq!(hits, vec![(100, 100), (7, 7), (255, 255)]);
    assert_eq!(g.total_hit_byte(1), Some(100));
    assert_eq!(g.total_hit_byte(2), Some(7));
    assert_eq!(g.total_hit_byte(3), Some(255));
    assert_eq!(g.total_hit_byte(4), Some(0));
    let (_, hits) = br.get_path(&mut g);
    assert_eq!(hits, vec![(100, 200), (7, 14), (255, 255)]);
    let (_, hits) = br.get_path(&mut g);
    assert_eq!(hits, vec![(100, 255), (7, 21), (255, 255)]);
    assert_eq!(g.total_hit_byte(1), Some(255));
    assert_eq!(g.total_hit_byte(2), Some(21));
    assert_eq!(g.edges_seen(), 0);
    assert_eq!(g.virgin_byte(StatusType::Normal, 1), Some(0xFF));
}

#[test]
fn wrong_trace_length_is_refused() {
    let mut br = fresh();
    assert!(!br.load(vec![1u8; 10], 9));
    let mut g = GlobalBranches::new();
    assert!(!br.has_new(&mut g, StatusType::Normal));
    assert_eq!(br.get_id(), 11);
    assert_eq!(br.get_path_id(), 12);
}

#[test]
fn clear_trace_zeroes_everything() {
    let mut g = GlobalBranches::new();
    let mut br = fresh();
    assert!(br.load(trace_with(&[(1, 1)]), 3));
    br.clear_trace();
    let (path, _) = br.get_path(&mut g);
    assert!(path.is_empty());
}

#[test]
fn density_in_hundredths_of_a_percent() {
    let mut g = GlobalBranches::new();
    let mut br = fresh();
    let mut t = vec![0u8; BRANCHES_SIZE];
    for i in 0..(BRANCHES_SIZE / 2) {
        t[i] = 1;
    }
    assert!(br.load(t, 0));
    assert!(br.has_new(&mut g, StatusType::Normal));
    assert_eq!(g.edges_seen(), BRANCHES_SIZE / 2);
    assert_eq!(g.get_density(), 5000);
}
