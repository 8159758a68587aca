//! Fatal conditions.  Nothing in the core recovers from any of these:
//! every one unwinds to the driving loop, which terminates the run.

use vstd::prelude::*;
use crate::datatypes::Byte;

verus! {

/// A fatal condition, propagated up through the dispatch call chain.
///
/// The first three variants are decode faults: an encoding did not match
/// any recognized pattern, at the stage the variant names, with the raw
/// offending value as payload.  The next three are contract violations: a
/// decode/dispatch-table inconsistency inside the emulator itself, not
/// malformed input.  `Breakpoint` is the designated halt opcode, an
/// intentional stop rather than an error.
#[derive(Clone, Copy, PartialEq, Eq, Structural, Debug)]
pub enum Fault {
    /// The opcode byte is absent from the category table.
    UnknownOpcode(Byte),
    /// The opcode byte matched a category but no case inside that
    /// category's handler.
    UnhandledOpcode(Byte),
    /// A group-extended opcode's sub-selector (the `reg` field of its
    /// addressing-mode byte) names no implemented sub-operation.
    UnknownGroupOp(Byte),
    /// A write was attempted through an immediate operand.
    WriteToImmediate,
    /// An operand descriptor was accessed at the wrong width.
    WidthMismatch,
    /// A register operand was required but the descriptor is not one.
    NotARegister,
    /// The halt/breakpoint opcode was executed.
    Breakpoint,
}

impl Fault {
    /// Whether this is a decode fault: input that matches no recognized
    /// encoding pattern.
    pub open spec fn spec_is_decode_fault(self) -> bool {
        match self {
            Fault::UnknownOpcode(_) | Fault::UnhandledOpcode(_) | Fault::UnknownGroupOp(_) => true,
            _ => false,
        }
    }

    /// Whether this is a contract violation: a defect in the
    /// decode/dispatch tables themselves.
    pub open spec fn spec_is_contract_violation(self) -> bool {
        match self {
            Fault::WriteToImmediate | Fault::WidthMismatch | Fault::NotARegister => true,
            _ => false,
        }
    }

    /// Tell a decode fault apart from the other fatal conditions.
    pub fn is_decode_fault(&self) -> (r: bool)
        ensures
            r == self.spec_is_decode_fault(),
    {
        match self {
            Fault::UnknownOpcode(_) | Fault::UnhandledOpcode(_) | Fault::UnknownGroupOp(_) => true,
            _ => false,
        }
    }

    /// Tell a contract violation apart from the other fatal conditions.
    pub fn is_contract_violation(&self) -> (r: bool)
        ensures
            r == self.spec_is_contract_violation(),
    {
        match self {
            Fault::WriteToImmediate | Fault::WidthMismatch | Fault::NotARegister => true,
            _ => false,
        }
    }
}

} // verus!
