use vstd::prelude::*;

verus! {

/// Why a connection was given up.
#[derive(Debug, Clone, Copy, PartialEq, Eq, Structural)]
pub enum MyError {
    IO,
    Parse,
    Timeout,
    Unknown,
}

} // verus!
