use fastgen::file::{
    contains_bytes, find_byte, get_file_name, join_path, parse_decimal_score, parse_grader_score,
    seed_file_name, slice_to_vec, starts_with, wanted_fuzzer_seed,
};
use fastgen::util::xxhash;

fn b(s: &str) -> Vec<u8> {
    s.as_bytes().to_vec()
}

#[test]
fn seed_names_have_six_digits_at_least() {
    assert_eq!(seed_file_name(0), b("id:000000"));
    assert_eq!(seed_file_name(7), b("id:000007"));
    assert_eq!(seed_file_name(123456), b("id:123456"));
    assert_eq!(seed_file_name(999999), b("id:999999"));
    assert_eq!(seed_file_name(1000000), b("id:1000000"));
    assert_eq!(seed_file_name(4294967295), b("id:4294967295"));
}

#[test]
fn file_name_in_directory() {
    assert_eq!(get_file_name(&b("out/queue"), 12), b("out/queue/id:000012"));
    assert_eq!(get_file_name(&b("out/queue/"), 12), b("out/queue/id:000012"));
    assert_eq!(get_file_name(&b(""), 3), b("id:000003"));
    assert_eq!(join_path(&b("/"), &b("x")), b("/x"));
    let expect = std::path::Path::new("out/queue").join(format!("id:{:06}", 12));
    assert_eq!(get_file_name(&b("out/queue"), 12), b(expect.to_str().unwrap()));
}

#[test]
fn decimal_scores() {
    assert_eq!(parse_decimal_score(&b("0.35")), Some(35));
    assert_eq!(parse_decimal_score(&b("1.25")), Some(125));
    assert_eq!(parse_decimal_score(&b("12")), Some(1200));
    assert_eq!(parse_decimal_score(&b("12.")), Some(1200));
    assert_eq!(parse_decimal_score(&b(".5")), Some(50));
    assert_eq!(parse_decimal_score(&b("0.004")), Some(0));
    assert_eq!(parse_decimal_score(&b("0.005")), Some(1));
    assert_eq!(parse_decimal_score(&b("1.005")), Some(101));
    assert_eq!(parse_decimal_score(&b("0.999")), Some(100));
    assert_eq!(parse_decimal_score(&b("0.0049999")), Some(0));
    assert_eq!(parse_decimal_score(&b("42949672.95")), Some(4294967295));
    assert_eq!(parse_decimal_score(&b("42949672.96")), Some(4294967295));
    assert_eq!(parse_decimal_score(&b("99999999999999999999999999")), Some(4294967295));
    assert_eq!(parse_decimal_score(&b("")), None);
    assert_eq!(parse_decimal_score(&b(".")), None);
    assert_eq!(parse_decimal_score(&b("1.2.3")), None);
    assert_eq!(parse_decimal_score(&b("-1")), None);
    assert_eq!(parse_decimal_score(&b("1e3")), None);
    assert_eq!(parse_decimal_score(&b(" 1")), None);
}

#[test]
fn grader_scores() {
    assert_eq!(parse_grader_score(&b("id:000001_0.35")), Some(35));
    assert_eq!(parse_grader_score(&b("id:000001_0.35_tail")), Some(35));
    assert_eq!(parse_grader_score(&b("id:000001")), Some(0));
    assert_eq!(parse_grader_score(&b("id:000001_inf")), Some(0));
    assert_eq!(parse_grader_score(&b("id:000001,inf_x")), Some(0));
    assert_eq!(parse_grader_score(&b("id:000001_")), None);
    assert_eq!(parse_grader_score(&b("id:000001__2.0")), None);
    assert_eq!(parse_grader_score(&b("id:000001_x")), None);
}

#[test]
fn fuzzer_seeds_wanted() {
    assert!(wanted_fuzzer_seed(&b("id:000000,orig:seed")));
    assert!(wanted_fuzzer_seed(&b("id:000002,src:000000,op:havoc,+cov")));
    assert!(!wanted_fuzzer_seed(&b("id:000001,src:000000,op:havoc")));
    assert!(!wanted_fuzzer_seed(&b("")));
}

#[test]
fn byte_search() {
    assert!(contains_bytes(&b("hello"), &b("ell")));
    assert!(contains_bytes(&b("hello"), &b("")));
    assert!(contains_bytes(&b("hello"), &b("hello")));
    assert!(contains_bytes(&b("hello"), &b("o")));
    assert!(!contains_bytes(&b("hello"), &b("hello!")));
    assert!(!contains_bytes(&b("hello"), &b("lx")));
    assert!(starts_with(&b("id:000001_x"), &b("id:000001")));
    assert!(!starts_with(&b("id:000001_x"), &b("id:000002")));
    assert!(!starts_with(&b("id"), &b("id:")));
    assert_eq!(find_byte(&b("a_b_c"), b'_', 0), 1);
    assert_eq!(find_byte(&b("a_b_c"), b'_', 2), 3);
    assert_eq!(find_byte(&b("a_b_c"), b'_', 4), 5);
    assert_eq!(find_byte(&b("a_b_c"), b'_', 9), 5);
    assert_eq!(slice_to_vec(&b("abcdef"), 2, 4), b("cd"));
    assert_eq!(slice_to_vec(&b("abcdef"), 4, 2), b(""));
    assert_eq!(slice_to_vec(&b("abcdef"), 2, 7), b(""));
}

#[test]
fn hash_of_three_words() {
    assert_eq!(xxhash(1, 2, 3), 3414603688);
    assert_eq!(xxhash(0, 0, 0), 2200658740);
    assert_eq!(xxhash(0xffff_ffff, 7, 123456789), 3997423432);
}
