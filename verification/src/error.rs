use vstd::prelude::*;

verus! {

/// Every way a validation run can reject, each surfaced verbatim to the
/// host as the rejection reason; the first failing check short-circuits.
#[derive(Clone, Copy, Debug, PartialEq, Eq, Structural)]
pub enum Error {
    /// Malformed debug-mode invocation: an external-argument count other
    /// than zero or two.
    WrongArgv,
    /// A hex string handed to the debug-mode loader does not decode.
    Encoding,
    /// The fee validator's script args are not exactly 40 bytes.
    InvalidArgsLen,
    /// The matched-cell scan found no cell, or more than one, on one side.
    InvalidCellCount,
    /// More capacity was destroyed than the configured cap allows.
    InvalidFee,
    /// A non-data attribute of the tracked cell changed.
    CellChanged,
    /// The data payload pair is not an edge of the transition table.
    InvalidStateTransition,
}

} // verus!
