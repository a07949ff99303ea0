use fastgen::bcount_queue::BcountPriorityValue;
use fastgen::depot::{find_name, score_seed, Depot, DepotSync, InputStep, SeedSource};
use fastgen::depot_dir::{DepotDir, DepotSyncDir};
use fastgen::status_type::StatusType;
use std::cmp::Ordering;

fn b(s: &str) -> Vec<u8> {
    s.as_bytes().to_vec()
}

fn names(list: &[&str]) -> Vec<Vec<u8>> {
    list.iter().map(|s| b(s)).collect()
}

fn entry(queue_id: u32, rare_score: u32, seed_id: u32) -> BcountPriorityValue {
    BcountPriorityValue { queue_id, rare_score, seed_id, path: b("p") }
}

#[test]
fn priority_order() {
    let mut d = DepotSync::new(&b("out"));
    d.enqueue(b("a"), 0, 0, 5);
    d.enqueue(b("b"), 100, 1, 0);
    d.enqueue(b("c"), 0, 0, 7);
    assert_eq!(d.qlen(), 3);
    assert_eq!(d.pop_input(), Some((b("c"), 0, 7, 0)));
    assert_eq!(d.pop_input(), Some((b("a"), 0, 5, 0)));
    assert_eq!(d.pop_input(), Some((b("b"), 1, 0, 1)));
    assert_eq!(d.pop_input(), None);
    assert!(d.isempty());
}

#[test]
fn seeds_whose_file_is_gone_are_dropped() {
    let mut d = DepotSync::new(&b("out"));
    d.enqueue(b("a"), 0, 0, 5);
    d.enqueue(b("b"), 100, 1, 0);
    d.enqueue(b("c"), 0, 0, 7);
    let first = (b("c"), 0, 7, 0);
    assert_eq!(d.get_next_input_rare(None), InputStep::Check(first.clone()));
    assert_eq!(d.qlen(), 2);
    let second = (b("a"), 0, 5, 0);
    assert_eq!(d.get_next_input_rare(Some((first, false))), InputStep::Check(second.clone()));
    assert_eq!(d.qlen(), 1);
    assert_eq!(d.get_next_input_rare(Some((second.clone(), true))), InputStep::Take(second));
    assert_eq!(d.qlen(), 1);
    let third = (b("b"), 1, 0, 1);
    assert_eq!(d.get_next_input_rare(None), InputStep::Check(third.clone()));
    assert_eq!(d.get_next_input_rare(Some((third, false))), InputStep::Empty);
    assert_eq!(d.get_next_input_rare(None), InputStep::Empty);
    assert!(d.isempty());
}

#[test]
fn rarer_seed_of_a_queue_goes_first() {
    let mut d = DepotSync::new(&b("out"));
    d.enqueue(b("low"), 10, 1, 9);
    d.enqueue(b("high"), 500, 1, 1);
    d.enqueue(b("other"), 9999, 2, 1);
    let e = d.pop_max().unwrap();
    assert_eq!((e.queue_id, e.rare_score, e.seed_id, e.path), (1, 500, 1, b("high")));
    let e = d.pop_max().unwrap();
    assert_eq!((e.queue_id, e.rare_score, e.seed_id, e.path), (1, 10, 9, b("low")));
    let e = d.pop_max().unwrap();
    assert_eq!((e.queue_id, e.rare_score, e.seed_id, e.path), (2, 9999, 1, b("other")));
    assert!(d.pop_max().is_none());
}

#[test]
fn pops_never_go_up_in_priority() {
    let mut d = DepotSync::new(&b("out"));
    let mut x: u32 = 12345;
    for i in 0..200u32 {
        x = x.wrapping_mul(1103515245).wrapping_add(12345);
        d.enqueue(b("s"), (x >> 8) % 50, (x >> 3) % 4, i % 17);
    }
    let mut last: Option<BcountPriorityValue> = None;
    let mut count = 0;
    while let Some(e) = d.pop_max() {
        if let Some(prev) = &last {
            assert_ne!(prev.cmp(&e), Ordering::Less);
        }
        last = Some(e);
        count += 1;
    }
    assert_eq!(count, 200);
}

#[test]
fn comparison_follows_queue_then_rarity_then_index() {
    assert_eq!(entry(0, 0, 0).cmp(&entry(1, 100, 9)), Ordering::Greater);
    assert_eq!(entry(2, 100, 9).cmp(&entry(1, 0, 0)), Ordering::Less);
    assert_eq!(entry(1, 5, 0).cmp(&entry(1, 4, 9)), Ordering::Greater);
    assert_eq!(entry(1, 4, 9).cmp(&entry(1, 5, 0)), Ordering::Less);
    assert_eq!(entry(1, 5, 3).cmp(&entry(1, 5, 2)), Ordering::Greater);
    assert_eq!(entry(1, 5, 2).cmp(&entry(1, 5, 3)), Ordering::Less);
    assert_eq!(entry(1, 5, 2).cmp(&entry(1, 5, 2)), Ordering::Equal);
    assert_eq!(entry(1, 5, 2).partial_cmp(&entry(1, 5, 3)), Some(Ordering::Less));
    assert!(entry(1, 5, 2).eq(&entry(1, 5, 2)));
    assert!(entry(1, 5, 2) == entry(1, 5, 2));
    assert!(entry(1, 5, 2) != entry(0, 5, 2));
    assert!(entry(0, 0, 0) > entry(1, 100, 9));
    assert!(entry(1, 4, 9) < entry(1, 5, 0));
    assert!(entry(1, 5, 2) <= entry(1, 5, 2));
    assert!(!entry(1, 5, 2).eq(&entry(1, 5, 3)));
}

#[test]
fn filename_filtering() {
    let mut d = DepotSync::new(&b("out"));
    let listing = names(&["id:000000_orig", "id:000001_nocov", "id:000002+cov"]);
    assert!(d.sync_new(0, &listing));
    assert_eq!(d.next_seed_id(SeedSource::Fuzzer), 3);
    assert_eq!(d.qlen(), 2);
    assert_eq!(
        d.pop_input(),
        Some((b("out/afl-slave/queue/id:000002+cov"), 0, 2, 0))
    );
    assert_eq!(
        d.pop_input(),
        Some((b("out/afl-slave/queue/id:000000_orig"), 0, 0, 1))
    );
    assert_eq!(d.pop_input(), None);
}

#[test]
fn sync_stops_at_the_first_gap() {
    let mut d = DepotSync::new(&b("out"));
    let listing = names(&["id:000000_0.50", "id:000001_1.25", "id:000003_9.00"]);
    assert!(d.sync_new(1, &listing));
    assert_eq!(d.next_seed_id(SeedSource::Grader), 2);
    assert_eq!(d.next_seed_id(SeedSource::Fuzzer), 0);
    assert_eq!(d.qlen(), 2);
    assert!(!d.sync_new(1, &listing));
    assert_eq!(d.qlen(), 2);
    let more = names(&["id:000002_0.01", "id:000003_9.00", "id:000000_0.50", "id:000001_1.25"]);
    assert!(d.sync_new(1, &more));
    assert_eq!(d.next_seed_id(SeedSource::Grader), 4);
    assert_eq!(d.qlen(), 4);
    let e = d.pop_max().unwrap();
    assert_eq!((e.queue_id, e.rare_score, e.seed_id), (1, 900, 3));
    assert_eq!(e.path, b("out/grader/queue/id:000003_9.00"));
    let e = d.pop_max().unwrap();
    assert_eq!((e.queue_id, e.rare_score, e.seed_id), (1, 125, 1));
    let e = d.pop_max().unwrap();
    assert_eq!((e.queue_id, e.rare_score, e.seed_id), (1, 50, 0));
    let e = d.pop_max().unwrap();
    assert_eq!((e.queue_id, e.rare_score, e.seed_id), (1, 1, 2));
}

#[test]
fn path_grader_is_queue_two() {
    let mut d = DepotSync::new(&b("/w"));
    assert!(d.sync_new(2, &names(&["id:000000_inf", "id:000001"])));
    assert_eq!(d.next_seed_id(SeedSource::GraderPath), 2);
    let e = d.pop_max().unwrap();
    assert_eq!((e.queue_id, e.rare_score, e.seed_id), (2, 0, 1));
    assert_eq!(e.path, b("/w/grader-path/queue/id:000001"));
    let e = d.pop_max().unwrap();
    assert_eq!((e.queue_id, e.rare_score, e.seed_id), (2, 0, 0));
}

#[test]
fn unknown_category_is_ignored() {
    let mut d = DepotSync::new(&b("out"));
    let listing = names(&["id:000000_orig"]);
    assert!(!d.sync_new(3, &listing));
    assert!(!d.sync_new(-1, &listing));
    d.sync_fz_cefifo(2, &listing);
    assert!(d.isempty());
    for s in [SeedSource::Fuzzer, SeedSource::Grader, SeedSource::GraderPath, SeedSource::CeOutput] {
        assert_eq!(d.next_seed_id(s), 0);
    }
}

#[test]
fn fifo_mode_serves_solver_outputs_oldest_first() {
    let mut d = DepotSync::new(&b("out"));
    d.sync_fz_cefifo(1, &names(&["id:000000", "id:000001", "id:000002"]));
    assert_eq!(d.next_seed_id(SeedSource::CeOutput), 3);
    d.sync_fz_cefifo(0, &names(&["id:000000,orig", "id:000001,havoc"]));
    assert_eq!(d.next_seed_id(SeedSource::Fuzzer), 2);
    assert_eq!(d.qlen(), 4);
    assert_eq!(d.pop_input(), Some((b("out/afl-slave/queue/id:000000,orig"), 0, 0, 0)));
    let e = d.pop_max().unwrap();
    assert_eq!((e.queue_id, e.rare_score, e.seed_id), (1, 999_999, 0));
    assert_eq!(e.path, b("out/fifo/queue/id:000000"));
    let e = d.pop_max().unwrap();
    assert_eq!((e.queue_id, e.rare_score, e.seed_id), (1, 999_998, 1));
    let e = d.pop_max().unwrap();
    assert_eq!((e.queue_id, e.rare_score, e.seed_id), (1, 999_997, 2));
}

#[test]
fn next_seed_is_looked_up_without_queueing() {
    let mut d = DepotSync::new(&b("out"));
    let listing = names(&["id:000000_a", "id:000001_b"]);
    assert_eq!(d.check_seed(1, &listing), Some(b("out/grader/queue/id:000000_a")));
    assert_eq!(d.check_seed(1, &listing), Some(b("out/grader/queue/id:000001_b")));
    assert_eq!(d.check_seed(1, &listing), None);
    assert_eq!(d.next_seed_id(SeedSource::Grader), 2);
    assert_eq!(d.check_seed(0, &listing), Some(b("out/afl-slave/queue/id:000000_a")));
    assert_eq!(d.check_seed(7, &listing), None);
    assert!(d.isempty());
}

#[test]
fn first_file_in_listing_order_is_taken() {
    let listing = names(&["zz", "id:000004_b", "id:000004_a"]);
    assert_eq!(find_name(&listing, &b("id:000004")), 1);
    assert_eq!(find_name(&listing, &b("id:000005")), 3);
    assert_eq!(find_name(&listing, &b("")), 0);
}

#[test]
fn scores_by_source() {
    assert_eq!(score_seed(SeedSource::Fuzzer, &b("id:000000,orig:x"), 0), Some(0));
    assert_eq!(score_seed(SeedSource::Fuzzer, &b("id:000009,+cov"), 9), Some(0));
    assert_eq!(score_seed(SeedSource::Fuzzer, &b("id:000009,havoc"), 9), None);
    assert_eq!(score_seed(SeedSource::Grader, &b("id:000001_0.35"), 1), Some(35));
    assert_eq!(score_seed(SeedSource::GraderPath, &b("id:000001_12.5_x"), 1), Some(1250));
    assert_eq!(score_seed(SeedSource::Grader, &b("id:000001_inf"), 1), Some(0));
    assert_eq!(score_seed(SeedSource::Grader, &b("id:000001_abc"), 1), None);
    assert_eq!(score_seed(SeedSource::CeOutput, &b("id:000007"), 7), Some(999_992));
    assert_eq!(score_seed(SeedSource::CeOutput, &b("x"), 999_999), Some(0));
    assert_eq!(score_seed(SeedSource::CeOutput, &b("x"), 1_000_000), Some(0));
}

#[test]
fn directories_of_the_peers() {
    let d = DepotSyncDir::new(&b("/out"));
    assert_eq!(d.grader_queue_dir, b("/out/grader/queue"));
    assert_eq!(d.grader_path_dir, b("/out/grader-path/queue"));
    assert_eq!(d.afl_queue_dir, b("/out/afl-slave/queue"));
    assert_eq!(d.ce_queue_dir, b("/out/fifo/queue"));
    assert_eq!(d.greenlight, b("/out/greenlight"));
    let d = DepotDir::new(b("seeds"), &b("out/"));
    assert_eq!(d.inputs_dir, b("out/queue"));
    assert_eq!(d.hangs_dir, b("out/hangs"));
    assert_eq!(d.crashes_dir, b("out/crashes"));
    assert_eq!(d.seeds_dir, b("seeds"));
}

#[test]
fn finds_are_counted_by_outcome() {
    let mut depot = Depot::new(b("in"), &b("out"));
    assert!(depot.empty());
    assert_eq!(depot.next_random(17), None);
    assert_eq!(depot.next_path(StatusType::Timeout), Some(b("out/hangs/id:000000")));
    assert_eq!(depot.index_after_save(StatusType::Timeout), 1);
    assert_eq!(depot.index_after_save(StatusType::Skip), 0);
    assert_eq!(depot.save(StatusType::Timeout), 1);
    assert_eq!(depot.save(StatusType::Timeout), 2);
    assert_eq!(depot.next_path(StatusType::Timeout), Some(b("out/hangs/id:000002")));
    assert_eq!(depot.next_path(StatusType::Crash), Some(b("out/crashes/id:000000")));
    assert_eq!(depot.save(StatusType::Crash), 1);
    assert_eq!(depot.save(StatusType::Skip), 0);
    assert_eq!(depot.save(StatusType::Error), 0);
    assert_eq!(depot.next_path(StatusType::Skip), None);
    assert!(depot.empty());
    assert_eq!(depot.save(StatusType::Normal), 1);
    assert_eq!(depot.save(StatusType::Normal), 2);
    assert_eq!(depot.save(StatusType::Normal), 3);
    assert!(!depot.empty());
    assert_eq!(depot.get_num_inputs(), 3);
    assert_eq!(depot.next_random(17), Some(2));
    assert_eq!(depot.get_input_path(12), b("out/queue/id:000012"));
}
