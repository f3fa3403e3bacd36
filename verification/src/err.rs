//! The error taxonomy of the hypervisor core.

use vstd::prelude::*;

verus! {

/// Every fallible operation of the library reports one of these.
#[derive(Debug)]
pub enum Error {
    /// A host I/O failure (reading a guest image, writing the console).
    IO(String),
    /// A nonzero return from the host hypervisor primitive:
    /// (error code, name of the operation).
    FFI(u32, String),
    /// A vm-exit the dispatcher does not implement:
    /// (exit reason code, explanation).
    Unhandled(u64, String),
    /// A panic propagated from a worker thread at its join point.
    Thread(String),
    /// A precondition failure, policy violation, decoder rejection, or a
    /// page-walk miss.
    Program(String),
}

impl Error {
    /// A short label naming the error kind, for host-side reporting.
    pub fn kind(&self) -> (r: &'static str)
        ensures
            r@ == self.kind_spec(),
    {
        match self {
            Error::IO(_) => "io",
            Error::FFI(_, _) => "ffi",
            Error::Unhandled(_, _) => "unhandled",
            Error::Thread(_) => "thread",
            Error::Program(_) => "program",
        }
    }

    pub open spec fn kind_spec(&self) -> Seq<char> {
        match self {
            Error::IO(_) => "io"@,
            Error::FFI(_, _) => "ffi"@,
            Error::Unhandled(_, _) => "unhandled"@,
            Error::Thread(_) => "thread"@,
            Error::Program(_) => "program"@,
        }
    }
}

} // verus!
