use patch_build::cmd::check_exit_code;
use patch_build::cmd::CmdOutput;
use patch_build::compiler::check_link_result;
use patch_build::compiler::check_probe_build;
use patch_build::compiler::extract_version_token;
use patch_build::compiler::version_probe_source;
use patch_build::compiler::Compiler;
use patch_build::error::Error;
use patch_build::hook::ioctl_error;
use patch_build::hook::registration_failure;
use patch_build::hook::open_device_error;
use patch_build::hook::seal_device_session;
use patch_build::hook::upatch_dev_path;
use patch_build::hook::IoctlCall;
use patch_build::hook::UPATCH_REGISTER_ASSEMBLER;
use patch_build::hook::UPATCH_REGISTER_COMPILER;
use patch_build::hook::UPATCH_UNREGISTER_ASSEMBLER;
use patch_build::hook::UPATCH_UNREGISTER_COMPILER;
use patch_build::text::i32_to_string;
use patch_build::text::split_tokens;
use patch_build::text::u64_to_string;
use patch_build::text::usize_to_string;

fn output(exit_code: i32, stdout: &str, stderr: &str) -> CmdOutput {
    CmdOutput {
        exit_code,
        stdout: stdout.to_string(),
        stderr: stderr.to_string(),
    }
}

fn bare_compiler() -> Compiler {
    // `analyze` resolves through the live search path, so the plan and
    // judgement tests feed the outcome records in directly instead.
    Compiler::new()
}

#[test]
fn split_tokens_matches_single_space_splitting() {
    let t = split_tokens("GNU C17 9.3.0 -mtune=generic");
    assert_eq!(t, vec!["GNU", "C17", "9.3.0", "-mtune=generic"]);
    assert_eq!(split_tokens(""), vec![""]);
    assert_eq!(split_tokens("a  b"), vec!["a", "", "b"]);
    assert_eq!(split_tokens(" a "), vec!["", "a", ""]);
}

#[test]
fn extract_version_token_takes_the_third_piece() {
    assert_eq!(
        extract_version_token("GNU C17 9.3.0 -mtune=generic"),
        Some("9.3.0".to_string())
    );
    assert_eq!(extract_version_token("GNU C"), None);
    assert_eq!(extract_version_token(""), None);
}

#[test]
fn check_version_succeeds_only_on_equal_version_tokens() {
    let c = bare_compiler();
    assert!(c
        .check_version("GNU C17 9.3.0 -mtune=generic", "GNU C17 9.3.0 -O2")
        .is_ok());
    let r = c.check_version("GNU C17 9.3.0", "GNU C17 10.2.0");
    match r {
        Err(Error::Compiler(m)) => {
            assert_eq!(
                m,
                "compiler version is different\n       debug_info compiler_version: \
                 GNU C17 9.3.0\n       system compiler_version: GNU C17 10.2.0"
            );
        }
        _ => panic!("expected a Compiler error"),
    }
    assert!(c.check_version("GNU C", "GNU C17 9.3.0").is_err());
    assert!(c.check_version("GNU C17 9.3.0", "GNU C").is_err());
    assert!(c.check_version("", "").is_err());
}

#[test]
fn read_from_compiler_takes_stdout_on_success() {
    let c = bare_compiler();
    let ok = c.read_from_compiler("-print-prog-name=as", &output(0, "as", ""));
    assert_eq!(ok.unwrap(), "as");
    let err = c.read_from_compiler("-print-prog-name=as", &output(1, "", ""));
    match err {
        Err(Error::Compiler(m)) => {
            assert_eq!(m, "get -print-prog-name=as from compiler  failed");
        }
        _ => panic!("expected a Compiler error"),
    }
}

#[test]
fn readlink_reports_a_compiler_error_for_an_unknown_tool() {
    let c = bare_compiler();
    let r = c.readlink("no-such-tool-ever-exists-here");
    match r {
        Err(Error::Compiler(m)) => {
            assert!(m.starts_with("get no-such-tool-ever-exists-here failed: "));
        }
        _ => panic!("expected a Compiler error"),
    }
}

#[test]
fn linker_invocation_is_well_formed_even_with_no_objects() {
    let c = bare_compiler();
    let inv = c.linker(&Vec::new(), "/tmp/out.o");
    assert_eq!(inv.args, vec!["-r", "-o", "/tmp/out.o"]);
    assert!(inv.envs.is_empty());
}

#[test]
fn linker_invocation_keeps_object_order() {
    let c = bare_compiler();
    let objs = vec!["b.o".to_string(), "a.o".to_string(), "c.o".to_string()];
    let inv = c.linker(&objs, "all.o");
    assert_eq!(inv.args, vec!["-r", "-o", "all.o", "b.o", "a.o", "c.o"]);
}

#[test]
fn version_probe_compile_is_the_fixed_invocation() {
    let c = bare_compiler();
    let inv = c.version_probe_cmd("/tmp/cache");
    assert_eq!(
        inv.args,
        vec![
            "-gdwarf",
            "-ffunction-sections",
            "-fdata-sections",
            "-x",
            "c",
            "-",
            "-o",
            "/tmp/cache/test.o",
        ]
    );
    assert!(inv.envs.is_empty());
    assert_eq!(version_probe_source(), "int main() {return 0;}");
}

#[test]
fn probe_build_failure_carries_code_and_stderr() {
    assert!(check_probe_build(&output(0, "", "")).is_ok());
    match check_probe_build(&output(1, "", "nope")) {
        Err(Error::Compiler(m)) => assert_eq!(m, "compiler build test error 1: nope"),
        _ => panic!("expected a Compiler error"),
    }
}

#[test]
fn link_failure_carries_code_and_stderr() {
    assert!(check_link_result(&output(0, "", "")).is_ok());
    match check_link_result(&output(3, "", "undefined symbol")) {
        Err(Error::Compiler(m)) => {
            assert_eq!(m, "link object file error 3: undefined symbol");
        }
        _ => panic!("expected a Compiler error"),
    }
}

#[test]
fn registration_failure_surfaces_the_original_error() {
    let register_error = Error::Mod("hack /usr/bin/cc error -1".to_string());
    let after_clean_rollback = registration_failure(register_error.clone(), Ok(()));
    match after_clean_rollback {
        Error::Mod(m) => assert_eq!(m, "hack /usr/bin/cc error -1"),
        _ => panic!("expected a Mod error"),
    }
    let rollback_error = Err(Error::Mod("unhack /usr/bin/cc error -1".to_string()));
    match registration_failure(register_error, rollback_error) {
        Error::Mod(m) => assert_eq!(m, "hack /usr/bin/cc error -1"),
        _ => panic!("expected the registration error"),
    }
}

#[test]
fn check_exit_code_judges_zero_as_success() {
    assert!(check_exit_code(&output(0, "", "")).is_ok());
    match check_exit_code(&output(2, "", "boom")) {
        Err(Error::Compiler(m)) => assert_eq!(m, "command exited with code 2"),
        _ => panic!("expected a Compiler error"),
    }
}

#[test]
fn decimal_rendering_is_exact() {
    assert_eq!(u64_to_string(0), "0");
    assert_eq!(u64_to_string(7), "7");
    assert_eq!(u64_to_string(10), "10");
    assert_eq!(u64_to_string(40960), "40960");
    assert_eq!(usize_to_string(12345), "12345");
    assert_eq!(i32_to_string(-17), "-17");
    assert_eq!(i32_to_string(0), "0");
    assert_eq!(i32_to_string(i32::MIN), "-2147483648");
}

fn apply(registered: &mut Vec<u64>, call: &IoctlCall) {
    match call.request {
        UPATCH_REGISTER_COMPILER => registered.push(0),
        UPATCH_REGISTER_ASSEMBLER => registered.push(1),
        UPATCH_UNREGISTER_COMPILER => registered.retain(|r| *r != 0),
        UPATCH_UNREGISTER_ASSEMBLER => registered.retain(|r| *r != 1),
        _ => panic!("unknown request code"),
    }
}

#[test]
fn hack_plan_registers_compiler_then_assembler() {
    let c = bare_compiler();
    let calls = c.hack_calls();
    assert_eq!(calls.len(), 2);
    assert_eq!(calls[0].request, UPATCH_REGISTER_COMPILER);
    assert_eq!(calls[1].request, UPATCH_REGISTER_ASSEMBLER);
}

#[test]
fn rollback_after_partial_registration_leaves_nothing_hooked() {
    let c = bare_compiler();
    let plan = c.hack_calls();
    let mut registered: Vec<u64> = Vec::new();
    // The first registration succeeds, the second fails at the device:
    // only the first call took effect.
    apply(&mut registered, &plan[0]);
    assert_eq!(registered, vec![0]);
    // Roll back the one registered element, in reverse order.
    let rollback = c.unregister_calls(1);
    assert_eq!(rollback.len(), 1);
    assert_eq!(rollback[0].request, UPATCH_UNREGISTER_COMPILER);
    for call in &rollback {
        apply(&mut registered, call);
    }
    assert!(registered.is_empty());
}

#[test]
fn unhack_tears_down_in_reverse_order() {
    let c = bare_compiler();
    let mut registered: Vec<u64> = Vec::new();
    for call in &c.hack_calls() {
        apply(&mut registered, call);
    }
    assert_eq!(registered, vec![0, 1]);
    let teardown = c.unhack_calls();
    assert_eq!(teardown.len(), 2);
    assert_eq!(teardown[0].request, UPATCH_UNREGISTER_ASSEMBLER);
    assert_eq!(teardown[1].request, UPATCH_UNREGISTER_COMPILER);
    for call in &teardown {
        apply(&mut registered, call);
    }
    assert!(registered.is_empty());
}

#[test]
fn device_session_errors_name_the_failure() {
    assert_eq!(upatch_dev_path(), "/dev/upatch");
    match open_device_error() {
        Error::Mod(m) => assert_eq!(m, "open /dev/upatch error"),
        _ => panic!("expected a Mod error"),
    }
    match ioctl_error("hack", "/usr/bin/cc", -1) {
        Error::Mod(m) => assert_eq!(m, "hack /usr/bin/cc error -1"),
        _ => panic!("expected a Mod error"),
    }
    assert!(seal_device_session(Ok(()), true).is_ok());
    match seal_device_session(Ok(()), false) {
        Err(Error::Mod(m)) => assert_eq!(m, "close /dev/upatch error"),
        _ => panic!("expected a Mod error"),
    }
    match seal_device_session(Err(Error::Mod("hack x error 5".to_string())), false) {
        Err(Error::Mod(m)) => assert_eq!(m, "hack x error 5"),
        _ => panic!("expected the original error"),
    }
}
