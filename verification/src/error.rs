use vstd::prelude::*;

verus! {

/// The failure taxonomy of the bridge.
///
/// Every fallible operation of this library reports one of these; the host
/// boundary turns them into a single host-visible failure signal.
#[derive(Debug)]
pub enum Error {
    /// Malformed or unsupported guest bytecode.
    CompilationError(String),
    /// Missing or mismatched imports, or a trap in the guest's start routine.
    InstantiationError(String),
    /// An unrecognized or null boxed value at the value-codec boundary.
    ConversionError(String),
    /// An exported function name that the instance does not define.
    LookupError(String),
    /// A growth request beyond the region's page limit.
    OutOfMemory,
    /// A guest-level runtime fault, including a host callback's failure
    /// surfaced back through the import trampoline.
    Trap(String),
    /// A host-side failure (allocation, field access), fatal for the call.
    EnvironmentError(String),
}

/// An optional result as the host boundary sees it: either a value to hand
/// back, or nothing because a failure has been signalled on the host side.
pub enum JOption<T> {
    Present(T),
    Absent,
}

impl<T> JOption<T> {
    /// The held value, or `default` when no value is present.
    pub fn unwrap_or(self, default: T) -> (r: T)
        ensures
            r == match self {
                JOption::Present(v) => v,
                JOption::Absent => default,
            },
    {
        match self {
            JOption::Present(result) => result,
            JOption::Absent => default,
        }
    }
}

} // verus!
