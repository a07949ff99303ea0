use fastgen::branches::{Branches, GlobalBranches};
use fastgen::check_dep::{
    check_asan, check_crash_handling, check_dep, check_fast, check_io_dir, check_target_binary,
    check_track_llvm, containt_string, DepError,
};
use fastgen::command::{CommandOpt, InstrumentationMode};
use fastgen::file::trim;
use fastgen::config::BRANCHES_SIZE;
use fastgen::depot::{Depot, SeedSource};
use fastgen::executor::{Executor, ExecutorSync};
use fastgen::forksrv::{
    classify_exit, classify_wait_status, decode_reply, fin_request, new_child_request, Action,
    Event, Forksrv,
};
use fastgen::fuzz_loop::{add_round_time, round_is_over, solver_shm_key, sources_of_round};
use fastgen::op_def::RGD;
use fastgen::shm::SHM;
use fastgen::status_type::StatusType;

fn b(s: &str) -> Vec<u8> {
    s.as_bytes().to_vec()
}

fn template(args: &[&str]) -> CommandOpt {
    let pargs: Vec<Vec<u8>> = args.iter().map(|s| b(s)).collect();
    CommandOpt::new(&b("/bin/track"), &pargs, &b("out"), 200, 1, &b("/usr/lib/llvm\n"), false).unwrap()
}

fn executor() -> Executor {
    let branches = Branches::new(SHM::new(31, BRANCHES_SIZE, 4096, Vec::new()), SHM::new(32, 8, 8192, 0));
    Executor::new(template(&["/bin/fast", "@@"]).specify(1), branches, 5)
}

#[test]
fn timeout_escalation() {
    let mut e = executor();
    assert_eq!(e.check_timeout(StatusType::Timeout), (StatusType::Timeout, false));
    assert_eq!(e.check_timeout(StatusType::Timeout), (StatusType::Timeout, false));
    assert_eq!(e.check_timeout(StatusType::Timeout), (StatusType::Skip, false));
    assert_eq!(e.check_timeout(StatusType::Normal), (StatusType::Normal, false));
    assert_eq!(e.check_timeout(StatusType::Timeout), (StatusType::Timeout, false));
    assert_eq!(e.check_timeout(StatusType::Timeout), (StatusType::Timeout, false));
    assert_eq!(e.check_timeout(StatusType::Crash), (StatusType::Crash, false));
    assert_eq!(e.check_timeout(StatusType::Timeout), (StatusType::Timeout, false));
}

#[test]
fn failed_channel_is_an_error_and_rebinds() {
    let mut e = executor();
    assert_eq!(e.check_timeout(StatusType::Error), (StatusType::Error, true));
    assert_eq!(e.check_timeout(StatusType::Timeout), (StatusType::Timeout, false));
    assert_eq!(e.check_timeout(StatusType::Timeout), (StatusType::Timeout, false));
    assert_eq!(e.check_timeout(StatusType::Error), (StatusType::Error, true));
    assert_eq!(e.check_timeout(StatusType::Timeout), (StatusType::Timeout, false));
    assert_eq!(e.check_timeout(StatusType::Timeout), (StatusType::Timeout, false));
    assert_eq!(e.check_timeout(StatusType::Timeout), (StatusType::Skip, false));
    assert_eq!(e.check_timeout(StatusType::Skip), (StatusType::Skip, false));
    assert_eq!(e.check_timeout(StatusType::Normal), (StatusType::Normal, false));
}

#[test]
fn run_after_a_killed_fork_server() {
    let mut e = executor();
    let mut g = GlobalBranches::new();
    let depot = Depot::new(b("in"), &b("out"));
    let r = e.run(&mut g, &depot, StatusType::Error);
    assert_eq!(r.status, StatusType::Error);
    assert!(r.rebind);
    assert_eq!((r.level, r.save_to, r.new_id), (0, None, 0));
    let mut t = vec![0u8; BRANCHES_SIZE];
    t[3] = 1;
    assert!(e.load_trace(t, 8));
    let r = e.run(&mut g, &depot, StatusType::Normal);
    assert_eq!(r.status, StatusType::Normal);
    assert!(!r.rebind);
}

#[test]
fn new_bucket_is_kept_and_new_path_alone_is_not() {
    let mut e = executor();
    let mut g = GlobalBranches::new();
    let mut depot = Depot::new(b("in"), &b("out"));
    e.clear_trace();
    let mut t = vec![0u8; BRANCHES_SIZE];
    t[10] = 2;
    assert!(e.load_trace(t.clone(), 99));
    assert!(!e.new_edge_with_known_path(&g, StatusType::Normal));
    let r = e.run(&mut g, &depot, StatusType::Normal);
    assert_eq!(r.status, StatusType::Normal);
    assert_eq!(r.level, 2);
    assert_eq!(r.save_to, Some(b("out/queue/id:000000")));
    assert_eq!(r.new_id, 1);
    assert!(!r.rebind);
    assert_eq!(r.hits, vec![(2, 2)]);
    assert!(e.has_new_path());
    assert_eq!(depot.get_num_inputs(), 0);
    assert_eq!(depot.save(StatusType::Normal), r.new_id);

    let r = e.run(&mut g, &depot, StatusType::Normal);
    assert_eq!((r.level, r.save_to, r.new_id), (0, None, 0));
    assert!(!e.has_new_path());

    assert!(e.load_trace(t.clone(), 100));
    assert!(!e.new_edge_with_known_path(&g, StatusType::Normal));
    let r = e.run(&mut g, &depot, StatusType::Normal);
    assert_eq!((r.level, r.save_to, r.new_id), (1, None, 0));
    assert!(!e.has_new_path());
    assert!(e.load_trace(t.clone(), 101));
    assert_eq!(e.run_sync(&mut g, &depot, StatusType::Normal), (false, 0, None));

    t[10] = 9;
    assert!(e.load_trace(t.clone(), 101));
    assert_eq!(
        e.run_sync(&mut g, &depot, StatusType::Normal),
        (true, 2, Some(b("out/queue/id:000001")))
    );
    assert!(e.has_new_path());
    assert_eq!(depot.save(StatusType::Normal), 2);

    assert!(e.new_edge_with_known_path(&g, StatusType::Timeout));
    assert!(e.load_trace(t.clone(), 102));
    assert!(!e.new_edge_with_known_path(&g, StatusType::Timeout));
    let r = e.run(&mut g, &depot, StatusType::Timeout);
    assert_eq!(r.status, StatusType::Timeout);
    assert_eq!(r.level, 2);
    assert_eq!(r.save_to, Some(b("out/hangs/id:000000")));

    e.run_init();
    assert!(!e.has_new_path());
    assert_eq!(e.command().id, 1);
    assert!(!e.load_trace(vec![0u8; 3], 1));
    assert_eq!(e.run_norun(&depot), b("out/queue/id:000002"));
    assert_eq!(depot.get_num_inputs(), 2);
}

#[test]
fn tracker_options() {
    let cmd = template(&["/bin/fast", "-D", "@@"]).specify(2);
    let e = ExecutorSync::new(cmd, -7);
    assert_eq!(
        e.track(41, 1),
        b("taint_file=out/tmp/cur_input_2 tid=1 shmid=-7 pipeid=2 inputid=41")
    );
    let cmd = template(&["/bin/fast"]).specify(3);
    let e = ExecutorSync::new(cmd, 65538);
    assert_eq!(e.track(0, 2), b("taint_file=stdin tid=2 shmid=65538 pipeid=3 inputid=0"));
    let x = executor();
    assert_eq!(x.track(9), b("taint_file=out/tmp/cur_input_1 tid=9 shmid=5 pipeid=1 inputid=9"));
}

#[test]
fn environment_of_the_targets() {
    let envs = executor().envs();
    let text: Vec<(String, String)> = envs
        .into_iter()
        .map(|(k, v)| (String::from_utf8(k).unwrap(), String::from_utf8(v).unwrap()))
        .collect();
    assert_eq!(text.len(), 5);
    assert_eq!(text[0].0, "ASAN_OPTIONS");
    assert_eq!(text[0].1, "abort_on_error=1:detect_leaks=0:symbolize=0:allocator_may_return_null=1");
    assert_eq!(text[1].0, "MSAN_OPTIONS");
    assert!(text[1].1.starts_with("exit_code=86:"));
    assert_eq!(text[2].0, "LD_LIBRARY_PATH");
    assert!(text[2].1.ends_with(":/usr/local/lib:/usr/lib/llvm"));
    assert_eq!(text[3], ("ANGORA_BRANCHES_SHM_ID".to_string(), "31".to_string()));
    assert_eq!(text[4], ("PATH_HASH_SHM_ID".to_string(), "32".to_string()));
    let sync = ExecutorSync::new(template(&["/bin/fast"]), 0);
    assert_eq!(sync.envs().len(), 3);
}

#[test]
fn template_and_its_copies() {
    let raw = template(&["/bin/fast", "-D", "@@", "-o", "@@"]);
    assert_eq!(raw.id, 0);
    assert!(raw.is_raw);
    assert!(!raw.is_stdin);
    assert_eq!(raw.main.0, b("/bin/fast"));
    assert_eq!(raw.main.1, vec![b("-D"), b("@@"), b("-o"), b("@@")]);
    assert_eq!(raw.track.0, b("/bin/track"));
    assert_eq!(raw.track.1, raw.main.1);
    assert_eq!(raw.tmp_dir, b("out/tmp"));
    assert_eq!(raw.out_file, b("out/tmp/cur_input"));
    assert_eq!(raw.forksrv_socket_path, b("out/tmp/forksrv_socket"));
    assert_eq!(raw.track_path, b("out/tmp/track"));
    assert_eq!((raw.mem_limit, raw.time_limit, raw.uses_asan), (200, 1, false));

    let copy = raw.specify(12);
    assert_eq!(copy.id, 12);
    assert!(!copy.is_raw);
    assert_eq!(copy.out_file, b("out/tmp/cur_input_12"));
    assert_eq!(copy.forksrv_socket_path, b("out/tmp/forksrv_socket_12"));
    assert_eq!(copy.track_path, b("out/tmp/track_12"));
    let want = vec![b("-D"), b("out/tmp/cur_input_12"), b("-o"), b("out/tmp/cur_input_12")];
    assert_eq!(copy.main.1, want);
    assert_eq!(copy.track.1, want);
    assert_eq!(copy.ld_library, raw.ld_library);

    let stdin = template(&["/bin/fast", "-x"]);
    assert!(stdin.is_stdin);
    assert_eq!(stdin.specify(1).main.1, vec![b("-x")]);
}

#[test]
fn template_needs_a_target_and_a_tracker() {
    let pargs = vec![b("/bin/fast")];
    assert!(CommandOpt::new(&b("-"), &pargs, &b("out"), 1, 1, &b(""), false).is_none());
    assert!(CommandOpt::new(&b("/t"), &Vec::new(), &b("out"), 1, 1, &b(""), false).is_none());
    let asan = CommandOpt::new(&b("/t"), &pargs, &b("out"), 200, 3, &b(" /l \t"), true).unwrap();
    assert_eq!(asan.mem_limit, 0);
    assert_eq!(asan.time_limit, 3);
    assert!(asan.uses_asan);
    assert!(asan.ld_library.ends_with(b":/usr/local/lib:/l"));
    assert_eq!(trim(&b("  a b \n")), b("a b"));
    assert_eq!(trim(&b(" \t\r\n")), b(""));
    assert_eq!(trim(&b("")), b(""));
}

#[test]
fn instrumentation_modes() {
    assert_eq!(InstrumentationMode::from("llvm"), InstrumentationMode::LLVM);
    assert_eq!(InstrumentationMode::from("pin"), InstrumentationMode::Pin);
    assert!(InstrumentationMode::Pin.is_pin_mode());
    assert!(!InstrumentationMode::LLVM.is_pin_mode());
}

#[test]
fn replies_are_little_endian() {
    assert_eq!(decode_reply(&vec![1, 0, 0, 0]), Some(1));
    assert_eq!(decode_reply(&vec![0x39, 0x30, 0, 0]), Some(12345));
    assert_eq!(decode_reply(&vec![0xff, 0xff, 0xff, 0xff]), Some(-1));
    assert_eq!(decode_reply(&vec![0, 0, 0, 0x80]), Some(i32::MIN));
    assert_eq!(decode_reply(&vec![4, 3, 2, 1, 9, 9]), Some(0x01020304));
    assert_eq!(decode_reply(&vec![1, 0, 0]), None);
    assert_eq!(decode_reply(&Vec::new()), None);
    assert_eq!(new_child_request(), vec![8, 8, 8, 8]);
    assert_eq!(fin_request(), vec![0, 0]);
}

#[test]
fn wait_status_classes() {
    assert_eq!(classify_wait_status(0, false), StatusType::Normal);
    assert_eq!(classify_wait_status(1 << 8, true), StatusType::Normal);
    assert_eq!(classify_wait_status(9, false), StatusType::Crash);
    assert_eq!(classify_wait_status(11 | 0x80, false), StatusType::Crash);
    assert_eq!(classify_wait_status(0x7f, false), StatusType::Normal);
    assert_eq!(classify_wait_status((5 << 8) | 0x7f, true), StatusType::Normal);
    assert_eq!(classify_wait_status(86 << 8, true), StatusType::Crash);
    assert_eq!(classify_wait_status(86 << 8, false), StatusType::Normal);
    assert_eq!(classify_wait_status(86, true), StatusType::Crash);
    assert_eq!(classify_wait_status(126, false), StatusType::Crash);
}

#[test]
fn timeout_is_not_a_crash() {
    assert_eq!(classify_exit(None, false), StatusType::Timeout);
    assert_eq!(classify_exit(None, true), StatusType::Timeout);
    assert_eq!(classify_exit(Some(None), false), StatusType::Crash);
    assert_eq!(classify_exit(Some(Some(0)), true), StatusType::Normal);
    assert_eq!(classify_exit(Some(Some(86)), true), StatusType::Crash);
    assert_eq!(classify_exit(Some(Some(86)), false), StatusType::Normal);

    let mut f = Forksrv::new(b("sock"), false);
    assert_eq!(f.run(Event::Begin), Action::SendRequest);
    assert_eq!(f.run(Event::Sent(true)), Action::Receive);
    assert_eq!(f.run(Event::Reply(vec![0x39, 0x30, 0, 0])), Action::Receive);
    assert_eq!(f.run(Event::ReadTimedOut), Action::KillAndDrain(12345));

    assert_eq!(f.run(Event::Begin), Action::SendRequest);
    assert_eq!(f.run(Event::Sent(true)), Action::Receive);
    assert_eq!(f.run(Event::Reply(vec![0x39, 0x30, 0, 0])), Action::Receive);
    assert_eq!(f.run(Event::ReadFailed), Action::Done(StatusType::Error));
}

#[test]
fn fork_exchange() {
    let mut f = Forksrv::new(b("sock"), true);
    assert_eq!(
        f.envs(),
        vec![(b("ANGORA_ENABLE_FORKSRV"), b("TRUE")), (b("ANGORA_FORKSRV_SOCKET_PATH"), b("sock"))]
    );
    assert_eq!(f.run(Event::Begin), Action::SendRequest);
    assert_eq!(f.run(Event::Sent(true)), Action::Receive);
    assert_eq!(f.run(Event::Reply(vec![7, 0, 0, 0])), Action::Receive);
    assert_eq!(f.run(Event::Reply(vec![0, 86, 0, 0])), Action::Done(StatusType::Crash));

    assert_eq!(f.run(Event::Begin), Action::SendRequest);
    assert_eq!(f.run(Event::Sent(true)), Action::Receive);
    assert_eq!(f.run(Event::Reply(vec![7, 0, 0, 0])), Action::Receive);
    assert_eq!(f.run(Event::Reply(vec![0, 0, 0, 0])), Action::Done(StatusType::Normal));

    assert_eq!(f.run(Event::Begin), Action::SendRequest);
    assert_eq!(f.run(Event::Sent(false)), Action::Done(StatusType::Error));

    assert_eq!(f.run(Event::Begin), Action::SendRequest);
    assert_eq!(f.run(Event::Sent(true)), Action::Receive);
    assert_eq!(f.run(Event::ReadFailed), Action::Done(StatusType::Error));

    assert_eq!(f.run(Event::Begin), Action::SendRequest);
    assert_eq!(f.run(Event::Sent(true)), Action::Receive);
    assert_eq!(f.run(Event::ReadTimedOut), Action::Done(StatusType::Error));

    assert_eq!(f.run(Event::Begin), Action::SendRequest);
    assert_eq!(f.run(Event::Sent(true)), Action::Receive);
    assert_eq!(f.run(Event::Reply(Vec::new())), Action::Done(StatusType::Error));

    assert_eq!(f.run(Event::Begin), Action::SendRequest);
    assert_eq!(f.run(Event::Sent(true)), Action::Receive);
    assert_eq!(f.run(Event::Reply(vec![0, 0, 0, 0])), Action::Done(StatusType::Error));

    assert_eq!(f.run(Event::Begin), Action::SendRequest);
    assert_eq!(f.run(Event::Sent(true)), Action::Receive);
    assert_eq!(f.run(Event::Reply(vec![0xff, 0xff, 0xff, 0xff])), Action::Done(StatusType::Error));

    assert_eq!(f.run(Event::Begin), Action::SendRequest);
    assert_eq!(f.run(Event::Sent(true)), Action::Receive);
    assert_eq!(f.run(Event::Reply(vec![7, 0])), Action::Done(StatusType::Error));

    assert_eq!(f.run(Event::Begin), Action::SendRequest);
    assert_eq!(f.run(Event::Sent(true)), Action::Receive);
    assert_eq!(f.run(Event::Reply(vec![7, 0, 0, 0])), Action::Receive);
    assert_eq!(f.run(Event::Reply(vec![9])), Action::Done(StatusType::Error));

    assert_eq!(f.run(Event::Sent(true)), Action::Done(StatusType::Error));
    assert_eq!(f.run(Event::Begin), Action::SendRequest);
    assert_eq!(f.run(Event::Begin), Action::Done(StatusType::Error));
}

#[test]
fn preflight_checks() {
    let mut binary = vec![0u8; 64];
    binary.extend_from_slice(b"xx__taint_trace_cmp\0libasan.so.5\0");
    assert!(check_asan(&binary));
    assert!(check_asan(&b("..__msan_init..")));
    assert!(!check_asan(&b("libasan.s")));
    assert!(containt_string(&binary, "__taint_trace_cmp"));
    assert!(!containt_string(&binary, "__taint_trace_cmq"));
    assert!(containt_string(&binary, ""));
    assert!(check_target_binary(true, true));
    assert!(!check_target_binary(true, false));
    assert_eq!(check_track_llvm(true, true, &binary), None);
    assert_eq!(check_track_llvm(false, false, &binary), Some(DepError::BadTarget));
    assert_eq!(check_track_llvm(true, true, &b("plain")), Some(DepError::NotInstrumented));
    assert_eq!(check_fast(true, true, &b("a__angora_cond_cmpid")), None);
    assert_eq!(check_fast(true, true, &binary), Some(DepError::NotInstrumented));
    assert_eq!(check_io_dir(&b("-"), true, false, false), None);
    assert_eq!(check_io_dir(&b("-"), false, true, true), Some(DepError::NoOutputToResume));
    assert_eq!(check_io_dir(&b("in"), false, true, true), None);
    assert_eq!(check_io_dir(&b("in"), true, true, false), Some(DepError::BadInputDir));
    assert!(check_crash_handling(&b("core\n")));
    assert!(check_crash_handling(&b("")));
    assert!(!check_crash_handling(&b("|/usr/share/apport/apport %p")));
    assert_eq!(check_dep(&b("in"), false, true, true, &b("core"), true, true, &binary), Ok(()));
    assert_eq!(
        check_dep(&b("in"), false, false, true, &b("|x"), false, true, &binary),
        Err(DepError::BadInputDir)
    );
    assert_eq!(
        check_dep(&b("in"), false, true, true, &b("|x"), false, true, &binary),
        Err(DepError::PipedCorePattern)
    );
    assert_eq!(
        check_dep(&b("in"), false, true, true, &b("core"), false, true, &binary),
        Err(DepError::BadTarget)
    );
    assert_eq!(
        check_dep(&b("-"), true, false, false, &b("core"), true, true, &b("x")),
        Err(DepError::NotInstrumented)
    );
}

#[test]
fn round_decisions() {
    assert_eq!(solver_shm_key(2), Some(0x9876));
    assert_eq!(solver_shm_key(3), Some(0x8765));
    assert_eq!(solver_shm_key(0), None);
    assert_eq!(sources_of_round(0), vec![SeedSource::Fuzzer, SeedSource::Grader, SeedSource::GraderPath]);
    assert_eq!(sources_of_round(1), vec![SeedSource::Fuzzer, SeedSource::CeOutput]);
    assert!(!round_is_over(30));
    assert!(round_is_over(31));
    assert_eq!(add_round_time(10, 31), 41);
    assert_eq!(add_round_time(u32::MAX - 1, 5), u32::MAX);
}

#[test]
fn operator_codes() {
    assert_eq!(RGD::Bool.code(), 0);
    assert_eq!(RGD::Add.code(), 7);
    assert_eq!(RGD::Memcmp.code(), 37);
    assert_eq!(RGD::from_u32(0), Some(RGD::Bool));
    assert_eq!(RGD::from_u32(22), Some(RGD::Equal));
    assert_eq!(RGD::from_u32(37), Some(RGD::Memcmp));
    assert_eq!(RGD::from_u32(38), None);
    for n in 0..38 {
        assert_eq!(RGD::from_u32(n).unwrap().code(), n);
    }
}
