use vstd::prelude::*;
use vstd::string::*;

use crate::cmd::CmdOutput;
use crate::cmd::Invocation;
use crate::error::Error;
use crate::hook::IoctlCall;
use crate::hook::IoctlCallV;
use crate::hook::UPATCH_HACK_NUM;
use crate::hook::UPATCH_REGISTER_ASSEMBLER;
use crate::hook::UPATCH_REGISTER_COMPILER;
use crate::hook::UPATCH_UNREGISTER_ASSEMBLER;
use crate::hook::UPATCH_UNREGISTER_COMPILER;
use crate::hook::spec_apply;
use crate::hook::spec_apply_all;
use crate::text::spec_tokens;
use crate::text::split_tokens;

verus! {

/// The toolchain identity the interception engine works on: the
/// canonical paths of the compiler, of the assembler it uses, and of
/// the linker it uses. The linker is tracked but never hooked.
#[derive(Clone)]
pub struct Compiler {
    compiler: String,
    assembler: String,
    linker: String,
}

/// Mathematical value of a `Compiler`.
#[verifier::ext_equal]
pub ghost struct CompilerV {
    pub compiler: Seq<char>,
    pub assembler: Seq<char>,
    pub linker: Seq<char>,
}

impl View for Compiler {
    type V = CompilerV;

    closed spec fn view(&self) -> CompilerV {
        CompilerV { compiler: self.compiler@, assembler: self.assembler@, linker: self.linker@ }
    }
}

/// Relies on which::CanonicalPath::new: looks the name up on the
/// executable search path and canonicalizes the found path, following
/// symbolic links. The outcome depends on the machine's state, so
/// nothing is promised of it; the error value is the lookup failure
/// rendered as text.
#[verifier::external_body]
fn lookup_canonical(name: &str) -> (r: Result<String, String>) {
    match which::CanonicalPath::new(name) {
        Ok(p) => Ok(p.to_string_lossy().into_owned()),
        Err(e) => Err(e.to_string()),
    }
}

/// The message reported when a compiler introspection query failed.
pub open spec fn spec_query_failed_msg(name: Seq<char>, compiler: Seq<char>) -> Seq<char> {
    "get "@ + name + " from compiler "@ + compiler + " failed"@
}

/// The fixed start of the message reported when a tool name could not
/// be resolved; the rest is the lookup's own error rendered as text.
pub open spec fn spec_lookup_failed_prefix(name: Seq<char>) -> Seq<char> {
    "get "@ + name + " failed: "@
}

/// The message reported when the probe compile of `check_version`'s
/// first step exited nonzero; it carries the captured standard error.
pub open spec fn spec_probe_build_error_msg(code: int, stderr: Seq<char>) -> Seq<char> {
    "compiler build test error "@ + crate::text::spec_decimal_signed(code) + ": "@ + stderr
}

/// The message reported when the relocatable relink exited nonzero; it
/// carries the exit code and the captured standard error.
pub open spec fn spec_link_error_msg(code: int, stderr: Seq<char>) -> Seq<char> {
    "link object file error "@ + crate::text::spec_decimal_signed(code) + ": "@ + stderr
}

/// Judges the probe compile's outcome: success exactly on exit code
/// zero, otherwise a Compiler error carrying code and standard error.
pub fn check_probe_build(output: &CmdOutput) -> (r: Result<(), Error>)
    ensures
        r is Ok <==> output.exit_code == 0,
        r matches Err(e) ==> e matches Error::Compiler(m) && m@ == spec_probe_build_error_msg(
            output.exit_code as int,
            output.stderr@,
        ),
{
    if output.exit_code == 0 {
        Ok(())
    } else {
        let mut msg = String::from_str("compiler build test error ");
        let code = crate::text::i32_to_string(output.exit_code);
        msg.append(code.as_str());
        msg.append(": ");
        msg.append(output.stderr.as_str());
        Err(Error::Compiler(msg))
    }
}

/// Judges the relocatable relink's outcome: success exactly on exit
/// code zero, otherwise a Compiler error carrying code and standard
/// error. The output file's existence is not verified here.
pub fn check_link_result(output: &CmdOutput) -> (r: Result<(), Error>)
    ensures
        r is Ok <==> output.exit_code == 0,
        r matches Err(e) ==> e matches Error::Compiler(m) && m@ == spec_link_error_msg(
            output.exit_code as int,
            output.stderr@,
        ),
{
    if output.exit_code == 0 {
        Ok(())
    } else {
        let mut msg = String::from_str("link object file error ");
        let code = crate::text::i32_to_string(output.exit_code);
        msg.append(code.as_str());
        msg.append(": ");
        msg.append(output.stderr.as_str());
        Err(Error::Compiler(msg))
    }
}

/// The message reported when the two producer version tokens differ or
/// cannot both be extracted; it carries both full producer strings.
pub open spec fn spec_version_mismatch_msg(a: Seq<char>, b: Seq<char>) -> Seq<char> {
    "compiler version is different\n       debug_info compiler_version: "@ + a
        + "\n       system compiler_version: "@ + b
}

/// Both producer strings split on spaces into at least three pieces,
/// and the pieces at index 2, the version tokens, agree.
pub open spec fn version_matches(a: Seq<char>, b: Seq<char>) -> bool {
    &&& spec_tokens(a).len() >= 3
    &&& spec_tokens(b).len() >= 3
    &&& spec_tokens(a)[2] == spec_tokens(b)[2]
}

/// The version token of a producer string: the third space-separated
/// piece, by the fixed `GNU <standard> <version> ...` convention.
pub fn extract_version_token(producer: &str) -> (r: Option<String>)
    ensures
        r is Some <==> spec_tokens(producer@).len() >= 3,
        r matches Some(t) ==> t@ == spec_tokens(producer@)[2],
{
    let toks = split_tokens(producer);
    proof {
        assert(toks.deep_view().len() == toks@.len());
    }
    if toks.len() < 3 {
        None
    } else {
        let t = toks[2].clone();
        proof {
            assert(toks.deep_view()[2] == toks@[2]@);
        }
        Some(t)
    }
}

/// The relocatable relink argument list: `-r -o <output> <objects...>`
/// with the objects in caller-given order.
pub open spec fn spec_linker_args(objs: Seq<Seq<char>>, out: Seq<char>) -> Seq<Seq<char>> {
    seq!["-r"@, "-o"@, out] + objs
}

/// The probe compile's argument list: debug info preserved, a section
/// per function and per data item, a C program read from standard
/// input, the object written into the cache directory.
pub open spec fn spec_probe_args(cache_dir: Seq<char>) -> Seq<Seq<char>> {
    seq![
        "-gdwarf"@,
        "-ffunction-sections"@,
        "-fdata-sections"@,
        "-x"@,
        "c"@,
        "-"@,
        "-o"@,
        cache_dir + "/test.o"@,
    ]
}

/// The trivial fixed program the probe compile reads from standard
/// input.
pub fn version_probe_source() -> (r: &'static str)
    ensures
        r@ == "int main() {return 0;}"@,
{
    "int main() {return 0;}"
}

impl Compiler {
    /// A probe that has not analyzed any compiler yet: all paths empty.
    pub fn new() -> (r: Self)
        ensures
            r@ == (CompilerV {
                compiler: Seq::empty(),
                assembler: Seq::empty(),
                linker: Seq::empty(),
            }),
    {
        Compiler { compiler: String::new(), assembler: String::new(), linker: String::new() }
    }

    /// Resolves a tool name to the canonical binary identity on the
    /// executable search path, symbolic links followed. The hook
    /// operates on real file identity, not on names, so the canonical
    /// path is what matters. Lookup asks the machine, so success cannot
    /// be promised; failure is a Compiler error naming the tool and
    /// carrying the underlying lookup error.
    pub fn readlink(&self, name: &str) -> (r: Result<String, Error>)
        ensures
            r matches Err(e) ==> (e matches Error::Compiler(m) && exists|detail: Seq<char>|
                m@ == spec_lookup_failed_prefix(name@) + detail),
    {
        match lookup_canonical(name) {
            Ok(p) => Ok(p),
            Err(e) => {
                let ghost detail = e@;
                let mut msg = String::from_str("get ");
                msg.append(name);
                msg.append(" failed: ");
                msg.append(e.as_str());
                proof {
                    assert(msg@ =~= spec_lookup_failed_prefix(name@) + detail);
                }
                Err(Error::Compiler(msg))
            },
        }
    }

    /// Judges one compiler introspection query (`-print-prog-name=...`,
    /// run by the runtime): the tool name is the captured standard
    /// output, owed exactly when the compiler exited zero.
    pub fn read_from_compiler(&self, name: &str, output: &CmdOutput) -> (r: Result<String, Error>)
        ensures
            r is Ok <==> output.exit_code == 0,
            r matches Ok(s) ==> s@ == output.stdout@,
            r matches Err(e) ==> e matches Error::Compiler(m) && m@ == spec_query_failed_msg(
                name@,
                self@.compiler,
            ),
    {
        if output.exit_code == 0 {
            Ok(output.stdout.clone())
        } else {
            let mut msg = String::from_str("get ");
            msg.append(name);
            msg.append(" from compiler ");
            msg.append(self.compiler.as_str());
            msg.append(" failed");
            Err(Error::Compiler(msg))
        }
    }

    /// Stores the compiler path and resolves the assembler and linker
    /// that compiler reports for itself to canonical binary identities.
    /// The two introspection queries are run by the runtime and their
    /// outcomes handed in; a nonzero exit on either fails the analysis,
    /// and so does a failed search-path resolution, which the machine
    /// decides.
    pub fn analyze(
        &mut self,
        compiler_file: String,
        as_query: &CmdOutput,
        ld_query: &CmdOutput,
    ) -> (r: Result<(), Error>)
        ensures
            final(self)@.compiler == compiler_file@,
            r is Ok ==> as_query.exit_code == 0 && ld_query.exit_code == 0,
            as_query.exit_code != 0 || ld_query.exit_code != 0 ==> r is Err,
            as_query.exit_code != 0 ==> final(self)@.assembler == old(self)@.assembler
                && final(self)@.linker == old(self)@.linker,
            as_query.exit_code != 0 ==> (r matches Err(e) && e matches Error::Compiler(m)
                && m@ == spec_query_failed_msg("-print-prog-name=as"@, compiler_file@)),
            r matches Err(e) ==> e is Compiler,
    {
        self.compiler = compiler_file;
        let as_name = match self.read_from_compiler("-print-prog-name=as", as_query) {
            Ok(v) => v,
            Err(e) => {
                return Err(e);
            },
        };
        let assembler = match self.readlink(as_name.as_str()) {
            Ok(v) => v,
            Err(e) => {
                return Err(e);
            },
        };
        self.assembler = assembler;
        let ld_name = match self.read_from_compiler("-print-prog-name=ld", ld_query) {
            Ok(v) => v,
            Err(e) => {
                return Err(e);
            },
        };
        let linker = match self.readlink(ld_name.as_str()) {
            Ok(v) => v,
            Err(e) => {
                return Err(e);
            },
        };
        self.linker = linker;
        Ok(())
    }

    /// The throwaway probe compile, the first step of version
    /// verification: the probed compiler compiling the fixed program to
    /// an object inside the cache directory. The runtime spawns it,
    /// feeding `version_probe_source` on standard input, and judges the
    /// exit with `check_probe_build`; the probe object's producer
    /// string then goes to `check_version`.
    pub fn version_probe_cmd(&self, cache_dir: &str) -> (r: Invocation)
        ensures
            r.program@ == self@.compiler,
            r.args.deep_view() == spec_probe_args(cache_dir@),
            r.envs@.len() == 0,
    {
        let mut out_path = String::from_str(cache_dir);
        out_path.append("/test.o");
        let mut args: Vec<String> = Vec::new();
        args.push(String::from_str("-gdwarf"));
        args.push(String::from_str("-ffunction-sections"));
        args.push(String::from_str("-fdata-sections"));
        args.push(String::from_str("-x"));
        args.push(String::from_str("c"));
        args.push(String::from_str("-"));
        args.push(String::from_str("-o"));
        args.push(out_path);
        proof {
            assert(args.deep_view() =~~= spec_probe_args(cache_dir@));
        }
        Invocation { program: self.compiler.clone(), args, envs: Vec::new() }
    }

    /// Compares the producer version of the reference debug binary with
    /// the producer version of the freshly compiled probe object: each
    /// producer string must split on spaces into at least three pieces,
    /// and the pieces at index 2 must agree; trailing pieces may differ.
    /// On failure the Compiler error carries both full producer strings.
    pub fn check_version(&self, debug_info_producer: &str, test_obj_producer: &str) -> (r: Result<
        (),
        Error,
    >)
        ensures
            r is Ok <==> version_matches(debug_info_producer@, test_obj_producer@),
            r matches Err(e) ==> e matches Error::Compiler(m) && m@ == spec_version_mismatch_msg(
                debug_info_producer@,
                test_obj_producer@,
            ),
    {
        let a = extract_version_token(debug_info_producer);
        let b = extract_version_token(test_obj_producer);
        let matched = match (a, b) {
            (Some(x), Some(y)) => x == y,
            _ => false,
        };
        if matched {
            Ok(())
        } else {
            let mut msg = String::from_str(
                "compiler version is different\n       debug_info compiler_version: ",
            );
            msg.append(debug_info_producer);
            msg.append("\n       system compiler_version: ");
            msg.append(test_obj_producer);
            Err(Error::Compiler(msg))
        }
    }

    /// The relocatable relink invocation: the resolved linker, called
    /// with `-r -o <output> <objects...>` in caller-given order, no
    /// environment overlay. Issued even for an empty object list; the
    /// linker's own policy decides that case.
    pub fn linker(&self, link_list: &Vec<String>, output_file: &str) -> (r: Invocation)
        ensures
            r.program@ == self@.linker,
            r.args.deep_view() == spec_linker_args(link_list.deep_view(), output_file@),
            r.envs@.len() == 0,
    {
        let mut args: Vec<String> = Vec::new();
        args.push(String::from_str("-r"));
        args.push(String::from_str("-o"));
        args.push(String::from_str(output_file));
        let mut i: usize = 0;
        while i < link_list.len()
            invariant
                0 <= i <= link_list.len(),
                args@.len() == 3 + i,
                args@[0]@ == "-r"@,
                args@[1]@ == "-o"@,
                args@[2]@ == output_file@,
                forall|j: int|
                    3 <= j < 3 + i ==> (#[trigger] args@[j])@ == link_list.deep_view()[j - 3],
            decreases link_list.len() - i,
        {
            let ghost pre = args@;
            args.push(link_list[i].clone());
            proof {
                assert forall|j: int| 3 <= j < 3 + i as int + 1 implies (#[trigger] args@[j])@
                    == link_list.deep_view()[j - 3] by {
                    if j < 3 + i as int {
                        assert(args@[j] == pre[j]);
                    }
                }
            }
            i = i + 1;
        }
        proof {
            assert(args.deep_view() =~~= spec_linker_args(link_list.deep_view(), output_file@));
        }
        Invocation { program: self.linker_path(), args, envs: Vec::new() }
    }

    /// The stored canonical linker path.
    fn linker_path(&self) -> (r: String)
        ensures
            r@ == self@.linker,
    {
        self.linker.clone()
    }

    /// The registration calls that `hack` issues, in the fixed order
    /// [compiler, assembler], one distinct request code per role.
    pub fn hack_calls(&self) -> (r: Vec<IoctlCall>)
        ensures
            r@.map_values(|c: IoctlCall| c@) == spec_hack_calls(self@),
    {
        let mut calls: Vec<IoctlCall> = Vec::new();
        calls.push(IoctlCall { request: UPATCH_REGISTER_COMPILER, path: self.compiler.clone() });
        calls.push(IoctlCall { request: UPATCH_REGISTER_ASSEMBLER, path: self.assembler.clone() });
        proof {
            assert(calls@.map_values(|c: IoctlCall| c@) =~~= spec_hack_calls(self@));
        }
        calls
    }

    /// The rollback or teardown calls: unregister the first `num`
    /// registered roles, in reverse registration order. With `num` the
    /// index at which registration failed this is the rollback plan;
    /// with `num` equal to the full role count it is `unhack`.
    pub fn unregister_calls(&self, num: usize) -> (r: Vec<IoctlCall>)
        requires
            num <= UPATCH_HACK_NUM,
        ensures
            r@.map_values(|c: IoctlCall| c@) == spec_unregister_calls(self@, num as int),
    {
        let mut calls: Vec<IoctlCall> = Vec::new();
        if num >= 2 {
            calls.push(
                IoctlCall { request: UPATCH_UNREGISTER_ASSEMBLER, path: self.assembler.clone() },
            );
        }
        if num >= 1 {
            calls.push(
                IoctlCall { request: UPATCH_UNREGISTER_COMPILER, path: self.compiler.clone() },
            );
        }
        proof {
            assert(spec_unregister_calls(self@, 0) =~~= Seq::<IoctlCallV>::empty());
            assert(spec_unregister_calls(self@, 1) =~~= seq![spec_unregister_call(self@, 0)]);
            assert(spec_unregister_calls(self@, 2) =~~= seq![
                spec_unregister_call(self@, 1),
                spec_unregister_call(self@, 0),
            ]);
            assert(calls@.map_values(|c: IoctlCall| c@) =~~= spec_unregister_calls(
                self@,
                num as int,
            ));
        }
        calls
    }

    /// The teardown calls that `unhack` issues: both roles unregistered,
    /// in reverse registration order.
    pub fn unhack_calls(&self) -> (r: Vec<IoctlCall>)
        ensures
            r@.map_values(|c: IoctlCall| c@) == spec_unregister_calls(self@, UPATCH_HACK_NUM as int),
    {
        self.unregister_calls(UPATCH_HACK_NUM)
    }
}

/// The registration calls of `hack`, in fixed order.
pub open spec fn spec_hack_calls(v: CompilerV) -> Seq<IoctlCallV> {
    seq![
        IoctlCallV { request: UPATCH_REGISTER_COMPILER, path: v.compiler },
        IoctlCallV { request: UPATCH_REGISTER_ASSEMBLER, path: v.assembler },
    ]
}

/// The unregister call for the role at registration index `i`.
pub open spec fn spec_unregister_call(v: CompilerV, i: int) -> IoctlCallV {
    if i == 0 {
        IoctlCallV { request: UPATCH_UNREGISTER_COMPILER, path: v.compiler }
    } else {
        IoctlCallV { request: UPATCH_UNREGISTER_ASSEMBLER, path: v.assembler }
    }
}

/// The unregister calls for the first `num` roles, in reverse
/// registration order.
pub open spec fn spec_unregister_calls(v: CompilerV, num: int) -> Seq<IoctlCallV>
    decreases num,
{
    if num <= 0 {
        Seq::empty()
    } else {
        seq![spec_unregister_call(v, num - 1)] + spec_unregister_calls(v, num - 1)
    }
}

/// A sequence of control calls acts on the device state one call at a
/// time, front first.
pub proof fn lemma_apply_all_step(s: Set<int>, calls: Seq<IoctlCallV>)
    requires
        calls.len() > 0,
    ensures
        spec_apply_all(s, calls) == spec_apply_all(spec_apply(s, calls[0]), calls.skip(1)),
{
}

/// The device state a sequence of calls reaches, chained explicitly
/// over a concrete call list.
proof fn lemma_apply_cons(s: Set<int>, c: IoctlCallV, rest: Seq<IoctlCallV>)
    ensures
        spec_apply_all(s, seq![c] + rest) == spec_apply_all(spec_apply(s, c), rest),
{
    assert((seq![c] + rest)[0] == c);
    assert((seq![c] + rest).skip(1) =~= rest);
    lemma_apply_all_step(s, seq![c] + rest);
}

/// Hook registration is all-or-nothing: starting from a device with
/// nothing hooked, however far registration got before its first
/// failure (`failed` calls succeeded, the failing call itself hooked
/// nothing), issuing the rollback plan leaves the device again with
/// nothing hooked.
pub proof fn lemma_rollback_all_or_nothing(v: CompilerV, failed: int)
    requires
        0 <= failed <= UPATCH_HACK_NUM,
    ensures
        spec_apply_all(
            Set::empty(),
            spec_hack_calls(v).take(failed) + spec_unregister_calls(v, failed),
        ) == Set::<int>::empty(),
{
    let reg_c = spec_hack_calls(v)[0];
    let reg_a = spec_hack_calls(v)[1];
    let unreg_c = spec_unregister_call(v, 0);
    let unreg_a = spec_unregister_call(v, 1);
    let trace = spec_hack_calls(v).take(failed) + spec_unregister_calls(v, failed);
    if failed == 0 {
        assert(trace =~= Seq::<IoctlCallV>::empty());
    } else if failed == 1 {
        assert(spec_unregister_calls(v, 0) =~= Seq::<IoctlCallV>::empty());
        assert(trace =~= seq![reg_c] + (seq![unreg_c] + Seq::<IoctlCallV>::empty()));
        let s1 = spec_apply(Set::empty(), reg_c);
        lemma_apply_cons(Set::empty(), reg_c, seq![unreg_c] + Seq::<IoctlCallV>::empty());
        lemma_apply_cons(s1, unreg_c, Seq::<IoctlCallV>::empty());
        assert(spec_apply(s1, unreg_c) =~= Set::<int>::empty());
    } else {
        assert(spec_unregister_calls(v, 0) =~= Seq::<IoctlCallV>::empty());
        assert(spec_unregister_calls(v, 1) =~= seq![unreg_c]);
        assert(spec_unregister_calls(v, 2) =~= seq![unreg_a] + seq![unreg_c]);
        assert(trace =~= seq![reg_c] + (seq![reg_a] + (seq![unreg_a] + seq![unreg_c])));
        let s1 = spec_apply(Set::empty(), reg_c);
        let s2 = spec_apply(s1, reg_a);
        let s3 = spec_apply(s2, unreg_a);
        let s4 = spec_apply(s3, unreg_c);
        lemma_apply_cons(Set::empty(), reg_c, seq![reg_a] + (seq![unreg_a] + seq![unreg_c]));
        lemma_apply_cons(s1, reg_a, seq![unreg_a] + seq![unreg_c]);
        lemma_apply_cons(s2, unreg_a, seq![unreg_c]);
        assert(seq![unreg_c] =~= seq![unreg_c] + Seq::<IoctlCallV>::empty());
        lemma_apply_cons(s3, unreg_c, Seq::<IoctlCallV>::empty());
        assert(s4 =~= Set::<int>::empty());
    }
}

/// A fully successful registration leaves exactly the two roles hooked.
pub proof fn lemma_hack_complete(v: CompilerV)
    ensures
        spec_apply_all(Set::empty(), spec_hack_calls(v)) == set![0int, 1int],
{
    let reg_c = spec_hack_calls(v)[0];
    let reg_a = spec_hack_calls(v)[1];
    assert(spec_hack_calls(v) =~= seq![reg_c] + (seq![reg_a] + Seq::<IoctlCallV>::empty()));
    let s1 = spec_apply(Set::empty(), reg_c);
    let s2 = spec_apply(s1, reg_a);
    lemma_apply_cons(Set::empty(), reg_c, seq![reg_a] + Seq::<IoctlCallV>::empty());
    lemma_apply_cons(s1, reg_a, Seq::<IoctlCallV>::empty());
    assert(s2 =~= set![0int, 1int]);
}

/// Teardown from a fully hooked device leaves nothing hooked.
pub proof fn lemma_unhack_clears(v: CompilerV)
    ensures
        spec_apply_all(set![0int, 1int], spec_unregister_calls(v, UPATCH_HACK_NUM as int))
            == Set::<int>::empty(),
{
    let unreg_c = spec_unregister_call(v, 0);
    let unreg_a = spec_unregister_call(v, 1);
    assert(spec_unregister_calls(v, 0) =~= Seq::<IoctlCallV>::empty());
    assert(spec_unregister_calls(v, 1) =~= seq![unreg_c]);
    assert(spec_unregister_calls(v, 2) =~= seq![unreg_a] + (seq![unreg_c]
        + Seq::<IoctlCallV>::empty()));
    let s0 = set![0int, 1int];
    let s1 = spec_apply(s0, unreg_a);
    let s2 = spec_apply(s1, unreg_c);
    lemma_apply_cons(s0, unreg_a, seq![unreg_c] + Seq::<IoctlCallV>::empty());
    lemma_apply_cons(s1, unreg_c, Seq::<IoctlCallV>::empty());
    assert(s2 =~= Set::<int>::empty());
}

} // verus!
