//! The template from which the target is started.

use vstd::prelude::*;
use crate::file::{
    append, ascii_bytes, ascii_of, copy_bytes, digits, join_path, joined, push_digits, same_bytes, trim,
    trimmed,
};

verus! {

/// How the target was instrumented.
#[derive(Debug, Clone, Copy, PartialEq, Eq, Structural)]
pub enum InstrumentationMode {
    /// Compiler instrumentation.
    LLVM,
    /// Binary instrumentation.
    Pin,
}

impl InstrumentationMode {
    /// The mode named `llvm` or `pin`. No other name is a mode.
    pub fn from(mode: &str) -> (r: Self)
        requires
            mode@ == "llvm"@ || mode@ == "pin"@,
        ensures
            r == if mode@ == "llvm"@ {
                InstrumentationMode::LLVM
            } else {
                InstrumentationMode::Pin
            },
    {
        proof {
            reveal_strlit("llvm");
            reveal_strlit("pin");
        }
        if mode.unicode_len() == 4 {
            InstrumentationMode::LLVM
        } else {
            InstrumentationMode::Pin
        }
    }

    /// Whether this is binary instrumentation.
    pub fn is_pin_mode(&self) -> (r: bool)
        ensures
            r == (*self == InstrumentationMode::Pin),
    {
        match self {
            InstrumentationMode::Pin => true,
            InstrumentationMode::LLVM => false,
        }
    }
}

/// `@@`, the argument that stands for the input file.
pub open spec fn input_token() -> Seq<u8> {
    seq![64u8, 64u8]
}

/// `tmp`
pub open spec fn tmp_dir_name() -> Seq<u8> {
    seq![116u8, 109u8, 112u8]
}

/// `cur_input`
pub open spec fn input_file_name() -> Seq<u8> {
    seq![99u8, 117u8, 114u8, 95u8, 105u8, 110u8, 112u8, 117u8, 116u8]
}

/// `forksrv_socket`
pub open spec fn socket_file_name() -> Seq<u8> {
    seq![102u8, 111u8, 114u8, 107u8, 115u8, 114u8, 118u8, 95u8, 115u8, 111u8, 99u8, 107u8, 101u8, 116u8]
}

/// `track`
pub open spec fn track_file_name() -> Seq<u8> {
    seq![116u8, 114u8, 97u8, 99u8, 107u8]
}

/// `s`, an underscore and the decimal digits of `id`.
pub open spec fn suffixed(s: Seq<u8>, id: nat) -> Seq<u8> {
    s.push(95u8) + digits(id)
}

/// The views of a list of byte strings.
pub open spec fn views(list: Seq<Vec<u8>>) -> Seq<Seq<u8>> {
    Seq::new(list.len(), |i: int| list[i]@)
}

/// `args` with every [`input_token`] replaced by `file`.
pub open spec fn substituted(args: Seq<Seq<u8>>, file: Seq<u8>) -> Seq<Seq<u8>> {
    Seq::new(
        args.len(),
        |i: int|
            if args[i] == input_token() {
                file
            } else {
                args[i]
            },
    )
}

/// Whether one of `args` is the [`input_token`].
pub open spec fn names_input_file(args: Seq<Seq<u8>>) -> bool {
    exists|i: int| 0 <= i < args.len() && #[trigger] args[i] == input_token()
}

/// The library search path that targets are run with, before the
/// compiler's own library directory is added.
pub open spec fn library_path_prefix() -> Seq<char> {
    "$LD_LIBRARY_PATH:/workdir/track3/include:/workdir/track3/include/tiny-AES128-C:/usr/local/lib:"@
}

fn copy_list(list: &Vec<Vec<u8>>, from: usize) -> (r: Vec<Vec<u8>>)
    requires
        from <= list@.len(),
    ensures
        views(r@) == views(list@).subrange(from as int, list@.len() as int),
{
    let mut r: Vec<Vec<u8>> = Vec::new();
    let mut i: usize = from;
    while i < list.len()
        invariant
            from <= i <= list@.len(),
            r@.len() == i - from,
            forall|k: int| 0 <= k < r@.len() ==> (#[trigger] r@[k])@ == list@[from + k]@,
        decreases list@.len() - i,
    {
        r.push(copy_bytes(&list[i]));
        i += 1;
    }
    proof {
        assert(views(r@) =~= views(list@).subrange(from as int, list@.len() as int));
    }
    r
}

fn substitute(args: &Vec<Vec<u8>>, file: &Vec<u8>) -> (r: Vec<Vec<u8>>)
    ensures
        views(r@) == substituted(views(args@), file@),
{
    let mut token: Vec<u8> = Vec::new();
    token.push(64u8);
    token.push(64u8);
    proof {
        assert(token@ =~= input_token());
    }
    let mut r: Vec<Vec<u8>> = Vec::new();
    let mut i: usize = 0;
    while i < args.len()
        invariant
            i <= args@.len(),
            token@ == input_token(),
            r@.len() == i,
            forall|k: int|
                0 <= k < r@.len() ==> (#[trigger] r@[k])@ == if args@[k]@ == input_token() {
                    file@
                } else {
                    args@[k]@
                },
        decreases args@.len() - i,
    {
        if same_bytes(&args[i], &token) {
            r.push(copy_bytes(file));
        } else {
            r.push(copy_bytes(&args[i]));
        }
        i += 1;
    }
    proof {
        assert(views(r@) =~= substituted(views(args@), file@));
    }
    r
}

fn has_input_token(args: &Vec<Vec<u8>>) -> (r: bool)
    ensures
        r == names_input_file(views(args@)),
{
    let mut token: Vec<u8> = Vec::new();
    token.push(64u8);
    token.push(64u8);
    proof {
        assert(token@ =~= input_token());
    }
    let mut i: usize = 0;
    while i < args.len()
        invariant
            i <= args@.len(),
            token@ == input_token(),
            forall|k: int| 0 <= k < i ==> (#[trigger] views(args@)[k]) != input_token(),
        decreases args@.len() - i,
    {
        if same_bytes(&args[i], &token) {
            proof {
                assert(views(args@)[i as int] == input_token());
            }
            return true;
        }
        i += 1;
    }
    false
}

fn with_suffix(s: &Vec<u8>, id: usize) -> (r: Vec<u8>)
    ensures
        r@ == suffixed(s@, id as nat),
{
    let mut r = copy_bytes(s);
    r.push(95u8);
    push_digits(id, &mut r);
    r
}

/// How the fast target and the tracking target are started.
pub struct CommandOpt {
    /// Number of the executor this template is for; 0 for the template they
    /// are all made from.
    pub id: usize,
    /// The fast target and its arguments.
    pub main: (Vec<u8>, Vec<Vec<u8>>),
    /// The tracking target and its arguments.
    pub track: (Vec<u8>, Vec<Vec<u8>>),
    /// Scratch directory.
    pub tmp_dir: Vec<u8>,
    /// File the input is fed through.
    pub out_file: Vec<u8>,
    /// Socket of the fork server.
    pub forksrv_socket_path: Vec<u8>,
    /// File the tracker writes to.
    pub track_path: Vec<u8>,
    /// Whether the target reads its input from standard input.
    pub is_stdin: bool,
    /// Memory limit in megabytes; 0 for none.
    pub mem_limit: u64,
    /// Time limit in seconds.
    pub time_limit: u64,
    /// Whether this is the template the others are made from, which owns
    /// the scratch directory.
    pub is_raw: bool,
    /// Whether the fast target is a sanitizer build.
    pub uses_asan: bool,
    /// Library search path for the targets.
    pub ld_library: Vec<u8>,
}

impl CommandOpt {
    /// The template all others are made from. `pargs` is the fast target
    /// followed by its arguments, `clang_lib` the compiler's library
    /// directory as its tool printed it, `uses_asan` whether the fast
    /// target is a sanitizer build. There is no template without a fast
    /// target, nor with `-` for a tracking target.
    pub fn new(
        track_target: &Vec<u8>,
        pargs: &Vec<Vec<u8>>,
        out_dir: &Vec<u8>,
        mem_limit: u64,
        time_limit: u64,
        clang_lib: &Vec<u8>,
        uses_asan: bool,
    ) -> (r: Option<Self>)
        ensures
            r is Some <==> pargs@.len() > 0 && track_target@ != seq![45u8],
            r is Some ==> {
                let c = r.unwrap();
                let tmp = joined(out_dir@, tmp_dir_name());
                &&& c.id == 0
                &&& c.is_raw
                &&& c.main.0@ == pargs@[0]@
                &&& views(c.main.1@) == views(pargs@).subrange(1, pargs@.len() as int)
                &&& c.track.0@ == track_target@
                &&& views(c.track.1@) == views(c.main.1@)
                &&& c.tmp_dir@ == tmp
                &&& c.out_file@ == joined(tmp, input_file_name())
                &&& c.forksrv_socket_path@ == joined(tmp, socket_file_name())
                &&& c.track_path@ == joined(tmp, track_file_name())
                &&& c.is_stdin == !names_input_file(views(pargs@))
                &&& c.mem_limit == if uses_asan {
                    0
                } else {
                    mem_limit
                }
                &&& c.time_limit == time_limit
                &&& c.uses_asan == uses_asan
                &&& c.ld_library@ == ascii_of(library_path_prefix()) + trimmed(clang_lib@)
            },
    {
        let mut dash: Vec<u8> = Vec::new();
        dash.push(45u8);
        proof {
            assert(dash@ =~= seq![45u8]);
        }
        if pargs.len() == 0 || same_bytes(track_target, &dash) {
            return None;
        }
        proof {
            reveal_strlit("tmp");
            reveal_strlit("cur_input");
            reveal_strlit("forksrv_socket");
            reveal_strlit("track");
            reveal_strlit(
                "$LD_LIBRARY_PATH:/workdir/track3/include:/workdir/track3/include/tiny-AES128-C:/usr/local/lib:",
            );
        }
        let tmp_name = ascii_bytes("tmp");
        let input_name = ascii_bytes("cur_input");
        let socket_name = ascii_bytes("forksrv_socket");
        let track_name = ascii_bytes("track");
        proof {
            assert(tmp_name@ =~= tmp_dir_name());
            assert(input_name@ =~= input_file_name());
            assert(socket_name@ =~= socket_file_name());
            assert(track_name@ =~= track_file_name());
        }
        let tmp_dir = join_path(out_dir, &tmp_name);
        let out_file = join_path(&tmp_dir, &input_name);
        let forksrv_socket_path = join_path(&tmp_dir, &socket_name);
        let track_path = join_path(&tmp_dir, &track_name);
        let has_input_arg = has_input_token(pargs);
        let mut ld_library = ascii_bytes(
            "$LD_LIBRARY_PATH:/workdir/track3/include:/workdir/track3/include/tiny-AES128-C:/usr/local/lib:",
        );
        let lib = trim(clang_lib);
        append(&mut ld_library, &lib);
        let main_bin = copy_bytes(&pargs[0]);
        let main_args = copy_list(pargs, 1);
        let track_args = copy_list(&main_args, 0);
        proof {
            assert(views(main_args@).subrange(0, main_args@.len() as int) =~= views(main_args@));
        }
        Some(
            Self {
                id: 0,
                main: (main_bin, main_args),
                track: (copy_bytes(track_target), track_args),
                tmp_dir,
                out_file,
                forksrv_socket_path,
                track_path,
                is_stdin: !has_input_arg,
                mem_limit: if uses_asan {
                    0
                } else {
                    mem_limit
                },
                time_limit,
                uses_asan,
                is_raw: true,
                ld_library,
            },
        )
    }

    /// The template of executor `id`: the input file, the socket and the
    /// tracker's file get `_` and `id` appended, and, where the target
    /// takes its input from a file, every `@@` among the arguments becomes
    /// the new input file. The copy does not own the scratch directory.
    pub fn specify(&self, id: usize) -> (r: Self)
        ensures
            r.id == id,
            !r.is_raw,
            r.out_file@ == suffixed(self.out_file@, id as nat),
            r.forksrv_socket_path@ == suffixed(self.forksrv_socket_path@, id as nat),
            r.track_path@ == suffixed(self.track_path@, id as nat),
            r.main.0@ == self.main.0@,
            r.track.0@ == self.track.0@,
            views(r.main.1@) == if self.is_stdin {
                views(self.main.1@)
            } else {
                substituted(views(self.main.1@), r.out_file@)
            },
            views(r.track.1@) == if self.is_stdin {
                views(self.track.1@)
            } else {
                substituted(views(self.track.1@), r.out_file@)
            },
            r.tmp_dir@ == self.tmp_dir@,
            r.is_stdin == self.is_stdin,
            r.mem_limit == self.mem_limit,
            r.time_limit == self.time_limit,
            r.uses_asan == self.uses_asan,
            r.ld_library@ == self.ld_library@,
    {
        let new_file = with_suffix(&self.out_file, id);
        let new_forksrv_socket_path = with_suffix(&self.forksrv_socket_path, id);
        let new_track_path = with_suffix(&self.track_path, id);
        let main_args = if self.is_stdin {
            copy_list(&self.main.1, 0)
        } else {
            substitute(&self.main.1, &new_file)
        };
        let track_args = if self.is_stdin {
            copy_list(&self.track.1, 0)
        } else {
            substitute(&self.track.1, &new_file)
        };
        proof {
            assert(views(self.main.1@).subrange(0, self.main.1@.len() as int) =~= views(self.main.1@));
            assert(views(self.track.1@).subrange(0, self.track.1@.len() as int) =~= views(
                self.track.1@,
            ));
        }
        Self {
            id,
            main: (copy_bytes(&self.main.0), main_args),
            track: (copy_bytes(&self.track.0), track_args),
            tmp_dir: copy_bytes(&self.tmp_dir),
            out_file: new_file,
            forksrv_socket_path: new_forksrv_socket_path,
            track_path: new_track_path,
            is_stdin: self.is_stdin,
            mem_limit: self.mem_limit,
            time_limit: self.time_limit,
            is_raw: false,
            uses_asan: self.uses_asan,
            ld_library: copy_bytes(&self.ld_library),
        }
    }
}

} // verus!
