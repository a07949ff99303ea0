use fastgen::fifo::{parse_payload, parse_record, pipe_path, read_field_at, read_pipe};
use fastgen::file::parse_u64;
use fastgen::forkcli::{after_fork, encode_reply, exit_code_on_failure, parse_shm_id, ClientAction};
use fastgen::forksrv::decode_reply;
use fastgen::fuzz_main::initialize_directories_sync;
use fastgen::job_queue::SeedFilePath;
use fastgen::limit::{mem_limit, CORE_LIMIT};
use fastgen::sync::{fits_input_limit, get_afl_id, sync_one_afl_dir, wanted_peer_dir, PeerFile};

fn b(s: &str) -> Vec<u8> {
    s.as_bytes().to_vec()
}

fn file(name: &str, len: u64) -> PeerFile {
    PeerFile { name: b(name), is_file: true, len }
}

#[test]
fn record_lines() {
    assert_eq!(
        parse_record(&b("1,77,1,4198400,12345678901234,9,0,42\n")),
        Some((1, 77, 1, 4198400, 12345678901234, 9, 0, 42))
    );
    assert_eq!(
        parse_record(&b(" 0 , 5 ,0, 18446744073709551615 ,0,4294967295,2,3 ,extra")),
        Some((0, 5, 0, u64::MAX, 0, u32::MAX, 2, 3))
    );
    assert_eq!(parse_record(&b("1,2,3,4,5,6,7")), None);
    assert_eq!(parse_record(&b("1,2,3,4,5,6,7,")), None);
    assert_eq!(parse_record(&b("4294967296,2,3,4,5,6,7,8")), None);
    assert_eq!(parse_record(&b("1,2,18446744073709551616,4,5,6,7,8")), None);
    assert_eq!(parse_record(&b("1,2,3,x,5,6,7,8")), None);
    assert_eq!(parse_record(&b("1,2,3,-4,5,6,7,8")), None);
    assert_eq!(parse_record(&b("\n")), None);
    assert_eq!(parse_record(&b("")), None);
}

#[test]
fn fields_of_a_line() {
    let line = b("10, 20 ,,300\n");
    assert_eq!(read_field_at(&line, 0, 255), Some(10));
    assert_eq!(read_field_at(&line, 1, 255), Some(20));
    assert_eq!(read_field_at(&line, 2, 255), None);
    assert_eq!(read_field_at(&line, 3, 255), None);
    assert_eq!(read_field_at(&line, 3, 300), Some(300));
    assert_eq!(read_field_at(&line, 4, 300), None);
    assert_eq!(parse_u64(&b("18446744073709551615")), Some(u64::MAX));
    assert_eq!(parse_u64(&b("18446744073709551616")), None);
    assert_eq!(parse_u64(&b("000")), Some(0));
    assert_eq!(parse_u64(&b("")), None);
    assert_eq!(parse_u64(&b("12a")), None);
}

#[test]
fn inline_payloads() {
    let data = parse_payload(&b("1,2,255\n"), 3).unwrap();
    assert_eq!(data.len(), 1024);
    assert_eq!(&data[..4], &[1, 2, 255, 0]);
    assert!(data[4..].iter().all(|&x| x == 0));
    let data = parse_payload(&b("9,8,7,6"), 2).unwrap();
    assert_eq!(&data[..3], &[9, 8, 0]);
    assert_eq!(parse_payload(&b("anything"), 0), Some(vec![0u8; 1024]));
    assert_eq!(parse_payload(&b("1,2"), 3), None);
    assert_eq!(parse_payload(&b("1,256,3"), 3), None);
    assert_eq!(parse_payload(&b("1,,3"), 3), None);
    let long: Vec<String> = (0..1100).map(|i| (i % 256).to_string()).collect();
    let data = parse_payload(&b(&long.join(",")), 1100).unwrap();
    assert_eq!(data.len(), 1024);
    assert_eq!(data[1023], (1023 % 256) as u8);
    assert_eq!(data[300], 44);
    assert_eq!(parse_payload(&b(&long[..1024].join(",")), 4000).map(|d| d.len()), Some(1024));
    assert_eq!(parse_payload(&b(&long[..1023].join(",")), 4000), None);
}

#[test]
fn streams_of_records() {
    let lines = vec![
        b("0,1,1,100,200,0,0,5\n"),
        b("0,3,0,0,0,1,2,5\n"),
        b("65,66,67\n"),
        b("0,2,1,101,201,2,1,5\n"),
    ];
    let (recs, datas) = read_pipe(&lines).unwrap();
    assert_eq!(
        recs,
        vec![(0, 1, 1, 100, 200, 0, 0, 5), (0, 3, 0, 0, 0, 1, 2, 5), (0, 2, 1, 101, 201, 2, 1, 5)]
    );
    assert_eq!(datas.len(), 1);
    assert_eq!(&datas[0][..4], &[65, 66, 67, 0]);

    let cut = vec![b("0,1,1,100,200,0,0,5\n"), b("0,3,0,0,0,1,2,5\n")];
    let (recs, datas) = read_pipe(&cut).unwrap();
    assert_eq!(recs.len(), 2);
    assert!(datas.is_empty());

    assert_eq!(read_pipe(&Vec::new()), Some((Vec::new(), Vec::new())));
    assert_eq!(read_pipe(&vec![b("0,1,1,100,200,0,0,5\n"), b("bad\n")]), None);
    assert_eq!(read_pipe(&vec![b("0,3,0,0,0,1,2,5\n"), b("1,2\n")]), None);
    assert_eq!(pipe_path(2), b("/tmp/wp2"));
    assert_eq!(pipe_path(3), b("/tmp/wp3"));
    assert_eq!(pipe_path(0), b("/tmp/wp2"));
}

#[test]
fn test_read_pipe() {
    assert_eq!(pipe_path(2), b("/tmp/wp2"));
    let v = read_pipe(&vec![b("2,9,1,4096,77,0,0,1\n")]);
    assert_eq!(v, Some((vec![(2, 9, 1, 4096, 77, 0, 0, 1)], Vec::new())));
}

#[test]
fn replies_survive_the_channel() {
    for v in [0, 1, -1, 12345, i32::MAX, i32::MIN, 86 << 8, 0x0102_0304] {
        let bytes = encode_reply(v);
        assert_eq!(bytes.len(), 4);
        assert_eq!(decode_reply(&bytes), Some(v));
    }
    assert_eq!(encode_reply(0x0102_0304), vec![4, 3, 2, 1]);
    assert_eq!(encode_reply(-2), vec![0xfe, 0xff, 0xff, 0xff]);
}

#[test]
fn fork_client_decisions() {
    assert_eq!(after_fork(0), ClientAction::RunAsChild);
    assert_eq!(after_fork(4711), ClientAction::ReportPid(4711));
    assert_eq!(after_fork(-1), ClientAction::ReportPid(-1));
    assert_eq!(exit_code_on_failure(true), 0);
    assert_eq!(exit_code_on_failure(false), 1);
    assert_eq!(parse_shm_id(&b("0")), Some(0));
    assert_eq!(parse_shm_id(&b("98307")), Some(98307));
    assert_eq!(parse_shm_id(&b("-1")), Some(-1));
    assert_eq!(parse_shm_id(&b("2147483647")), Some(i32::MAX));
    assert_eq!(parse_shm_id(&b("2147483648")), None);
    assert_eq!(parse_shm_id(&b("-2147483648")), Some(i32::MIN));
    assert_eq!(parse_shm_id(&b("-2147483649")), None);
    assert_eq!(parse_shm_id(&b("-")), None);
    assert_eq!(parse_shm_id(&b("")), None);
    assert_eq!(parse_shm_id(&b("12x")), None);
}

#[test]
fn peer_sync_plan() {
    assert_eq!(get_afl_id(&b("id:000123,src:000001")), Some(123));
    assert_eq!(get_afl_id(&b("id:999999")), Some(999999));
    assert_eq!(get_afl_id(&b("id:00012")), None);
    assert_eq!(get_afl_id(&b("id:00012x,")), None);
    assert_eq!(get_afl_id(&b("xyz000007")), Some(7));
    assert!(wanted_peer_dir(&b("afl-master")));
    assert!(!wanted_peer_dir(&b("angora")));
    assert!(!wanted_peer_dir(&b("my-angora-2")));
    assert!(!wanted_peer_dir(&b(".cache")));
    assert!(fits_input_limit(14999));
    assert!(!fits_input_limit(15000));

    let entries = vec![
        file("id:000003,a", 10),
        file("id:000001,b", 10),
        PeerFile { name: b("id:000009,dir"), is_file: false, len: 0 },
        file("id:000007,big", 15000),
        file("README", 10),
        file("id:000005,c", 14999),
    ];
    assert_eq!(sync_one_afl_dir(&entries, 0), (vec![0, 1, 5], 8));
    assert_eq!(sync_one_afl_dir(&entries, 4), (vec![5], 8));
    assert_eq!(sync_one_afl_dir(&entries, 8), (vec![], 9));
    assert_eq!(sync_one_afl_dir(&Vec::new(), 0), (vec![], 1));
}

#[test]
fn small_things() {
    assert_eq!(initialize_directories_sync(&b("in"), &b("out")), (b("in"), b("out")));
    assert_eq!(mem_limit(0), None);
    assert_eq!(mem_limit(200), Some(200 << 20));
    assert_eq!(mem_limit(u64::MAX), Some(u64::MAX));
    assert_eq!(mem_limit((1 << 44) - 1), Some(((1u64 << 44) - 1) << 20));
    assert_eq!(mem_limit(1 << 44), Some(u64::MAX));
    assert_eq!(CORE_LIMIT, 0);
    assert_eq!(SeedFilePath { file_id: 3 }, SeedFilePath { file_id: 3 });
    assert_ne!(SeedFilePath { file_id: 3 }, SeedFilePath { file_id: 4 });
}
