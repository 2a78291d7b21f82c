//! Step-by-step emulation of saved liquid-handling programs against a
//! simulated pipetting machine.

pub mod emulator;
pub mod error;
pub mod machine;
pub mod program;
pub mod resolver;

pub use emulator::{Action, Emulator, Frame, ScicloneG3Emulator};
pub use error::EmulatorError;
pub use machine::{Execute, Machine, MachineError, ScicloneG3};
pub use program::{
    Command, CommandKind, Comparator, Id, Instruction, InstructionValue, Layout, Location,
    LoadEjectTipsHead, Method, Operator, Parameter, PositionHead, SavedApplication, Variable,
    VariableType, VariableValue, VariablesPool,
};
pub use resolver::Scope;
