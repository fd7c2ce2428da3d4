use vstd::prelude::*;
use vstd::string::*;

use crate::error::Error;
use crate::text::{i32_to_string, spec_decimal_signed};

verus! {

/// Captured outcome of one external process invocation: exit code and
/// decoded standard output and standard error. The runtime spawns the
/// process and hands the outcome in through this record.
pub struct CmdOutput {
    pub exit_code: i32,
    pub stdout: String,
    pub stderr: String,
}

/// A fully constructed external command: program, arguments in order,
/// and the environment overlay, ready for the runtime to spawn.
pub struct Invocation {
    pub program: String,
    pub args: Vec<String>,
    pub envs: Vec<(String, String)>,
}

/// The message of the error reported for a failed external command.
pub open spec fn spec_exit_error_msg(code: int) -> Seq<char> {
    "command exited with code "@ + spec_decimal_signed(code)
}

/// Judges an external command outcome: success exactly on exit code
/// zero, an error carrying the exit code otherwise.
pub fn check_exit_code(output: &CmdOutput) -> (r: Result<(), Error>)
    ensures
        r is Ok <==> output.exit_code == 0,
        r matches Err(e) ==> e matches Error::Compiler(m) && m@ == spec_exit_error_msg(
            output.exit_code as int,
        ),
{
    if output.exit_code == 0 {
        Ok(())
    } else {
        let mut msg = String::from_str("command exited with code ");
        let code = i32_to_string(output.exit_code);
        msg.append(code.as_str());
        Err(Error::Compiler(msg))
    }
}

} // verus!
