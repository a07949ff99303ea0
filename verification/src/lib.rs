//! Core of a concolic-execution driver for hybrid fuzzing: coverage
//! bookkeeping, seed scheduling, execution-status classification and the
//! record formats exchanged with the tracker.

pub mod config;
pub mod defs;
pub mod status_type;
pub mod shm;
pub mod branches;
pub mod bcount_queue;
pub mod heap;
pub mod file;
pub mod depot_dir;
pub mod depot;
pub mod util;
pub mod forksrv;
pub mod command;
pub mod executor;
pub mod fuzz_loop;
pub mod job_queue;
pub mod op_def;
pub mod check_dep;
pub mod fifo;
pub mod sync;
pub mod forkcli;
pub mod fuzz_main;
pub mod limit;
