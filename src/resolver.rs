use crate::error::EmulatorError;
use crate::machine::Execute;
use crate::program::{
    Command, CommandKind, Id, InstructionValue, Layout, Variable, VariableType, VariableValue,
};
use std::collections::HashMap;
use vstd::prelude::*;

verus! {

broadcast use vstd::std_specs::hash::group_hash_axioms;

/// What operands are resolved against: the running method's local variables
/// and parameters, the global variables, and the layout bound to the running
/// method.
pub struct Scope<'b> {
    pub locals: &'b HashMap<Id, Variable>,
    pub params: &'b HashMap<Id, Variable>,
    pub globals: &'b HashMap<Id, Variable>,
    pub layouts: &'b HashMap<Id, Layout>,
    pub layout: Id,
}

/// The contents of a [`Scope`].
pub struct ScopeView {
    pub locals: Map<Id, Variable>,
    pub params: Map<Id, Variable>,
    pub globals: Map<Id, Variable>,
    pub layouts: Map<Id, Layout>,
    pub layout: Id,
}

impl<'b> View for Scope<'b> {
    type V = ScopeView;

    open spec fn view(&self) -> ScopeView {
        ScopeView {
            locals: self.locals@,
            params: self.params@,
            globals: self.globals@,
            layouts: self.layouts@,
            layout: self.layout,
        }
    }
}

/// `value` where it has the type `expected`.
pub open spec fn typed(value: VariableValue, expected: VariableType) -> Result<
    VariableValue,
    EmulatorError,
> {
    if value.value_type() == expected {
        Ok(value)
    } else {
        Err(EmulatorError::TypeMismatch(expected, value.value_type()))
    }
}

impl ScopeView {
    /// The variable `id`: a local variable first, then a parameter, then a
    /// global variable.
    pub open spec fn lookup(self, id: Id) -> Option<Variable> {
        if self.locals.contains_key(id) {
            Some(self.locals[id])
        } else if self.params.contains_key(id) {
            Some(self.params[id])
        } else if self.globals.contains_key(id) {
            Some(self.globals[id])
        } else {
            None
        }
    }

    /// The value of `operand`: that of the variable it refers to, else its
    /// literal; in either case of the type `expected`.
    pub open spec fn value_of(self, operand: InstructionValue, expected: VariableType) -> Result<
        VariableValue,
        EmulatorError,
    > {
        match operand.variable {
            Some(id) => match self.lookup(id) {
                Some(v) => typed(v.value, expected),
                None => Err(EmulatorError::UnknownVariable(id)),
            },
            None => typed(operand.direct, expected),
        }
    }

    /// The decimal number that `operand` stands for, in thousandths.
    pub open spec fn float_of(self, operand: InstructionValue) -> Result<i64, EmulatorError> {
        match self.value_of(operand, VariableType::Float) {
            Ok(VariableValue::Float(f)) => Ok(f),
            Ok(v) => Err(EmulatorError::TypeMismatch(VariableType::Float, v.value_type())),
            Err(e) => Err(e),
        }
    }

    /// The location label of the deck parameter `deck_parameter` in the bound
    /// layout. A position given without a deck parameter is not supported
    /// for a command of kind `kind`.
    pub open spec fn position_of(self, deck_parameter: Option<Id>, kind: CommandKind) -> Result<
        String,
        EmulatorError,
    > {
        match deck_parameter {
            None => Err(EmulatorError::UnsupportedCommand(kind)),
            Some(p) => if !self.layouts.contains_key(self.layout) {
                Err(EmulatorError::UnknownLayout(self.layout))
            } else if !self.layouts[self.layout].positions@.contains_key(p) {
                Err(EmulatorError::UnknownLayoutPosition(p))
            } else {
                Ok(self.layouts[self.layout].positions@[p].position)
            },
        }
    }

    /// The operation that `command` resolves to. Only aspirating,
    /// dispensing, loading and ejecting tips, mixing, comments and method
    /// calls are supported; a call's arguments are bound by the engine.
    pub open spec fn execute_of(self, command: Command) -> Result<Execute, EmulatorError> {
        match command {
            Command::Aspirate { position_head, volume } => match self.position_of(
                position_head.deck_parameter,
                CommandKind::Aspirate,
            ) {
                Err(e) => Err(e),
                Ok(position) => match self.float_of(volume) {
                    Err(e) => Err(e),
                    Ok(v) => Ok(Execute::Aspirate { position, volume: v }),
                },
            },
            Command::Dispense { position_head, volume, dispense_all } => match self.position_of(
                position_head.deck_parameter,
                CommandKind::Dispense,
            ) {
                Err(e) => Err(e),
                Ok(position) => if dispense_all {
                    Ok(Execute::Dispense { position, volume: None })
                } else {
                    match self.float_of(volume) {
                        Err(e) => Err(e),
                        Ok(v) => Ok(Execute::Dispense { position, volume: Some(v) }),
                    }
                },
            },
            Command::EjectTips { load_eject_tips_head } => match self.position_of(
                load_eject_tips_head.deck_parameter,
                CommandKind::EjectTips,
            ) {
                Err(e) => Err(e),
                Ok(position) => Ok(Execute::EjectTips { position }),
            },
            Command::LoadTips { load_eject_tips_head } => match self.position_of(
                load_eject_tips_head.deck_parameter,
                CommandKind::LoadTips,
            ) {
                Err(e) => Err(e),
                Ok(position) => Ok(Execute::LoadTips { position }),
            },
            Command::Mix { position_head } => match self.position_of(
                position_head.deck_parameter,
                CommandKind::Mix,
            ) {
                Err(e) => Err(e),
                Ok(position) => Ok(Execute::Mix { position }),
            },
            Command::REM { comment } => Ok(Execute::REM { comment }),
            Command::RunMethod { method, parameters } => Ok(Execute::RunMethod { method }),
            _ => Err(EmulatorError::UnsupportedCommand(command.kind())),
        }
    }
}

/// Whether commands of kind `kind` can be carried out.
pub open spec fn is_supported(kind: CommandKind) -> bool {
    match kind {
        CommandKind::Aspirate | CommandKind::Dispense | CommandKind::EjectTips
        | CommandKind::LoadTips | CommandKind::Mix | CommandKind::REM
        | CommandKind::RunMethod => true,
        _ => false,
    }
}


/// An operand without a variable reference resolves to its literal, checked
/// against the expected type, whatever the variables in scope.
pub proof fn literal_resolves_to_itself(
    scope: ScopeView,
    other: ScopeView,
    operand: InstructionValue,
    expected: VariableType,
)
    requires
        operand.variable is None,
    ensures
        scope.value_of(operand, expected) == other.value_of(operand, expected),
        operand.direct.value_type() == expected ==> scope.value_of(operand, expected) == Ok::<
            VariableValue,
            EmulatorError,
        >(operand.direct),
{
}

/// A command outside the supported ones is refused with
/// `UnsupportedCommand`, naming its kind.
pub proof fn unsupported_command_is_refused(scope: ScopeView, command: Command)
    requires
        !is_supported(command.kind()),
    ensures
        scope.execute_of(command) == Err::<Execute, EmulatorError>(
            EmulatorError::UnsupportedCommand(command.kind()),
        ),
{
}

impl<'b> Scope<'b> {
    /// The variable `id`, looked up in the order of [`ScopeView::lookup`].
    pub fn lookup_variable(&self, id: Id) -> (r: Option<&'b Variable>)
        ensures
            match r {
                Some(v) => self@.lookup(id) == Some(*v),
                None => self@.lookup(id) is None,
            },
    {
        match self.locals.get(&id) {
            Some(v) => Some(v),
            None => match self.params.get(&id) {
                Some(v) => Some(v),
                None => self.globals.get(&id),
            },
        }
    }

    pub fn resolve_value(&self, operand: &'b InstructionValue, expected: VariableType) -> (r: Result<
        &'b VariableValue,
        EmulatorError,
    >)
        ensures
            match r {
                Ok(v) => self@.value_of(*operand, expected) == Ok::<VariableValue, EmulatorError>(
                    *v,
                ),
                Err(e) => self@.value_of(*operand, expected) == Err::<VariableValue, EmulatorError>(
                    e,
                ),
            },
    {
        let value = match operand.variable {
            Some(id) => match self.lookup_variable(id) {
                Some(var) => &var.value,
                None => {
                    return Err(EmulatorError::UnknownVariable(id));
                },
            },
            None => &operand.direct,
        };
        let found = value.value_type();
        if found == expected {
            Ok(value)
        } else {
            Err(EmulatorError::TypeMismatch(expected, found))
        }
    }

    /// The decimal number (in thousandths) that `operand` stands for.
    pub fn resolve_float(&self, operand: &'b InstructionValue) -> (r: Result<i64, EmulatorError>)
        ensures
            r == self@.float_of(*operand),
    {
        match self.resolve_value(operand, VariableType::Float)? {
            VariableValue::Float(f) => Ok(*f),
            v => Err(EmulatorError::TypeMismatch(VariableType::Float, v.value_type())),
        }
    }

    pub fn resolve_position(&self, deck_parameter: Option<Id>, kind: CommandKind) -> (r: Result<
        &'b String,
        EmulatorError,
    >)
        ensures
            match r {
                Ok(s) => self@.position_of(deck_parameter, kind) == Ok::<String, EmulatorError>(*s),
                Err(e) => self@.position_of(deck_parameter, kind) == Err::<String, EmulatorError>(
                    e,
                ),
            },
    {
        match deck_parameter {
            None => Err(EmulatorError::UnsupportedCommand(kind)),
            Some(p) => match self.layouts.get(&self.layout) {
                None => Err(EmulatorError::UnknownLayout(self.layout)),
                Some(layout) => match layout.position(p) {
                    None => Err(EmulatorError::UnknownLayoutPosition(p)),
                    Some(s) => Ok(s),
                },
            },
        }
    }

    /// The operation that `command` resolves to; every command outside the
    /// supported ones is refused with `UnsupportedCommand`.
    pub fn build_execute(&self, command: &'b Command) -> (r: Result<Execute, EmulatorError>)
        ensures
            r == self@.execute_of(*command),
            !is_supported(command.kind()) ==> r == Err::<Execute, EmulatorError>(
                EmulatorError::UnsupportedCommand(command.kind()),
            ),
    {
        match command {
            Command::Aspirate { position_head, volume } => {
                let position = self.resolve_position(
                    position_head.deck_parameter,
                    CommandKind::Aspirate,
                )?.clone();
                let volume = self.resolve_float(volume)?;
                Ok(Execute::Aspirate { position, volume })
            },
            Command::Dispense { position_head, volume, dispense_all } => {
                let position = self.resolve_position(
                    position_head.deck_parameter,
                    CommandKind::Dispense,
                )?.clone();
                if *dispense_all {
                    Ok(Execute::Dispense { position, volume: None })
                } else {
                    let volume = self.resolve_float(volume)?;
                    Ok(Execute::Dispense { position, volume: Some(volume) })
                }
            },
            Command::EjectTips { load_eject_tips_head } => {
                let position = self.resolve_position(
                    load_eject_tips_head.deck_parameter,
                    CommandKind::EjectTips,
                )?.clone();
                Ok(Execute::EjectTips { position })
            },
            Command::LoadTips { load_eject_tips_head } => {
                let position = self.resolve_position(
                    load_eject_tips_head.deck_parameter,
                    CommandKind::LoadTips,
                )?.clone();
                Ok(Execute::LoadTips { position })
            },
            Command::Mix { position_head } => {
                let position = self.resolve_position(
                    position_head.deck_parameter,
                    CommandKind::Mix,
                )?.clone();
                Ok(Execute::Mix { position })
            },
            Command::REM { comment } => Ok(Execute::REM { comment: comment.clone() }),
            Command::RunMethod { method, parameters: _ } => Ok(Execute::RunMethod { method: *method }),
            _ => Err(EmulatorError::UnsupportedCommand(command.kind())),
        }
    }
}

} // verus!
