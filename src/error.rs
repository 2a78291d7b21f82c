use crate::machine::MachineError;
use crate::program::{CommandKind, Id, VariableType};
use vstd::prelude::*;

verus! {

/// Why a step of the emulation failed.
#[derive(Debug, PartialEq, Eq, Structural, Clone, Copy)]
pub enum EmulatorError {
    /// No method is running.
    EmptyExecutionStack,
    MachineError(MachineError),
    /// The expected type, then the type found.
    TypeMismatch(VariableType, VariableType),
    UnknownLayout(Id),
    UnknownLayoutPosition(Id),
    UnknownMethod(Id),
    /// The method, then the line.
    UnknownInstruction(Id, usize),
    UnknownVariable(Id),
    UnsupportedCommand(CommandKind),
}

impl From<MachineError> for EmulatorError {
    fn from(error: MachineError) -> (r: EmulatorError)
        ensures
            r == EmulatorError::MachineError(error),
    {
        EmulatorError::MachineError(error)
    }
}

impl vstd::std_specs::convert::FromSpecImpl<MachineError> for EmulatorError {
    open spec fn obeys_from_spec() -> bool {
        true
    }

    open spec fn from_spec(error: MachineError) -> EmulatorError {
        EmulatorError::MachineError(error)
    }
}

} // verus!
