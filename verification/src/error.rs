use vstd::prelude::*;

verus! {

/// The error kinds of the patch build subsystem.
///
/// Each variant carries a human-readable message with enough context
/// (which file, which tool, which request code) to diagnose the failure.
#[derive(Debug, Clone)]
pub enum Error {
    /// Toolchain probing, version mismatch, build or link failure.
    Compiler(String),
    /// Hook device open, ioctl, or close failure.
    Mod(String),
    /// Filesystem resolution failure: missing source, config, image,
    /// or an unreadable patch input file.
    Io(String),
}

impl Error {
    /// The message carried by the error, whatever its kind.
    pub fn message(&self) -> (r: &String)
        ensures
            r@ == self.spec_message(),
    {
        match self {
            Error::Compiler(m) => m,
            Error::Mod(m) => m,
            Error::Io(m) => m,
        }
    }

    /// The message as a mathematical value.
    pub open spec fn spec_message(&self) -> Seq<char> {
        match self {
            Error::Compiler(m) => m@,
            Error::Mod(m) => m@,
            Error::Io(m) => m@,
        }
    }
}

} // verus!
