use vstd::prelude::*;
use vstd::string::*;

use crate::error::Error;
use crate::text::{i32_to_string, spec_decimal_signed};

verus! {

/// Request codes of the interception control device, one per role and
/// direction.
pub const UPATCH_REGISTER_COMPILER: u64 = 1074324737;

pub const UPATCH_UNREGISTER_COMPILER: u64 = 1074324738;

pub const UPATCH_REGISTER_ASSEMBLER: u64 = 1074324739;

pub const UPATCH_UNREGISTER_ASSEMBLER: u64 = 1074324740;

/// Number of hooked roles: the compiler and the assembler.
pub const UPATCH_HACK_NUM: usize = 2;

/// Path of the hook control device.
pub fn upatch_dev_path() -> (r: &'static str)
    ensures
        r@ == "/dev/upatch"@,
{
    "/dev/upatch"
}

/// One device control call: a request code and the path the runtime
/// passes to the device as a NUL-terminated string.
pub struct IoctlCall {
    pub request: u64,
    pub path: String,
}

/// Mathematical value of an `IoctlCall`.
#[verifier::ext_equal]
pub ghost struct IoctlCallV {
    pub request: u64,
    pub path: Seq<char>,
}

impl View for IoctlCall {
    type V = IoctlCallV;

    open spec fn view(&self) -> IoctlCallV {
        IoctlCallV { request: self.request, path: self.path@ }
    }
}

/// In the device state model the compiler is role 0, the assembler
/// role 1.
pub open spec fn spec_role_of(request: u64) -> int {
    if request == UPATCH_REGISTER_COMPILER || request == UPATCH_UNREGISTER_COMPILER {
        0
    } else {
        1
    }
}

pub open spec fn spec_is_register(request: u64) -> bool {
    request == UPATCH_REGISTER_COMPILER || request == UPATCH_REGISTER_ASSEMBLER
}

pub open spec fn spec_is_unregister(request: u64) -> bool {
    request == UPATCH_UNREGISTER_COMPILER || request == UPATCH_UNREGISTER_ASSEMBLER
}

/// The device's registration state after one successful control call:
/// the model the rollback argument is made against.
pub open spec fn spec_apply(hooked: Set<int>, c: IoctlCallV) -> Set<int> {
    if spec_is_register(c.request) {
        hooked.insert(spec_role_of(c.request))
    } else if spec_is_unregister(c.request) {
        hooked.remove(spec_role_of(c.request))
    } else {
        hooked
    }
}

/// The device's registration state after a sequence of successful
/// control calls, applied in order.
pub open spec fn spec_apply_all(hooked: Set<int>, calls: Seq<IoctlCallV>) -> Set<int>
    decreases calls.len(),
{
    if calls.len() == 0 {
        hooked
    } else {
        spec_apply_all(spec_apply(hooked, calls[0]), calls.skip(1))
    }
}

/// The message of the error reported when a control call on `path`
/// returned the nonzero value `ret`; `verb` names the direction.
pub open spec fn spec_ioctl_error_msg(verb: Seq<char>, path: Seq<char>, ret: int) -> Seq<char> {
    verb + " "@ + path + " error "@ + spec_decimal_signed(ret)
}

/// The Mod error for a failed control call.
pub fn ioctl_error(verb: &str, path: &str, ret: i32) -> (r: Error)
    ensures
        r matches Error::Mod(m) && m@ == spec_ioctl_error_msg(verb@, path@, ret as int),
{
    let mut msg = String::from_str(verb);
    msg.append(" ");
    msg.append(path);
    msg.append(" error ");
    let code = i32_to_string(ret);
    msg.append(code.as_str());
    Error::Mod(msg)
}

/// The Mod error for a hook control device that could not be opened.
pub fn open_device_error() -> (r: Error)
    ensures
        r matches Error::Mod(m) && m@ == "open /dev/upatch error"@,
{
    Error::Mod(String::from_str("open /dev/upatch error"))
}

/// Combines a failed registration call with the outcome of its
/// best-effort rollback: the original registration error surfaces,
/// whatever the rollback itself did.
pub fn registration_failure(register_error: Error, rollback_result: Result<(), Error>) -> (r:
    Error)
    ensures
        r == register_error,
{
    let _ = rollback_result;
    register_error
}

/// Combines a device session's registration or teardown outcome with
/// the close outcome: the device is always closed, and a close failure
/// is reported only when no earlier error exists.
pub fn seal_device_session(result: Result<(), Error>, close_ok: bool) -> (r: Result<(), Error>)
    ensures
        result is Err ==> r == result,
        result is Ok && close_ok ==> r is Ok,
        result is Ok && !close_ok ==> (r matches Err(e) && e matches Error::Mod(m) && m@
            == "close /dev/upatch error"@),
{
    match result {
        Err(e) => Err(e),
        Ok(()) => {
            if close_ok {
                Ok(())
            } else {
                Err(Error::Mod(String::from_str("close /dev/upatch error")))
            }
        },
    }
}

} // verus!
