use vstd::prelude::*;

verus! {

/// Why an operation on the interface did not succeed.
#[derive(Clone, Copy, Debug, PartialEq, Eq, Structural)]
pub enum Error {
    /// An operating-system call failed; the value is the OS error code.
    Os(i32),
    /// No adapter unit could be opened within the search range.
    NotFound,
    /// A non-waiting operation found the device not ready.
    WouldBlock,
    /// The device accepted no bytes while data was still to be sent.
    WriteZero,
}

} // verus!
