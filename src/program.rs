use std::collections::HashMap;
use vstd::prelude::*;

verus! {

broadcast use vstd::std_specs::hash::group_hash_axioms;

/// Identifies a method, layout, variable or deck position (the 128 bits of a
/// UUID).
pub type Id = u128;

/// A typed value. A decimal number is held as whole thousandths (`Float(2500)`
/// stands for 2.5).
#[derive(Debug, Clone)]
pub enum VariableValue {
    Bool(bool),
    Float(i64),
    Int(u32),
    String(String),
    Seconds(u32),
}

#[derive(Debug, PartialEq, Eq, Structural, Clone, Copy)]
pub enum VariableType {
    Bool,
    Float,
    Int,
    String,
    Seconds,
}

impl VariableValue {
    pub open spec fn spec_value_type(&self) -> VariableType {
        match self {
            VariableValue::Bool(_) => VariableType::Bool,
            VariableValue::Float(_) => VariableType::Float,
            VariableValue::Int(_) => VariableType::Int,
            VariableValue::String(_) => VariableType::String,
            VariableValue::Seconds(_) => VariableType::Seconds,
        }
    }

    /// An equal value of its own.
    pub fn copy(&self) -> (r: VariableValue)
        ensures
            r == *self,
    {
        match self {
            VariableValue::Bool(b) => VariableValue::Bool(*b),
            VariableValue::Float(f) => VariableValue::Float(*f),
            VariableValue::Int(i) => VariableValue::Int(*i),
            VariableValue::String(s) => VariableValue::String(s.clone()),
            VariableValue::Seconds(s) => VariableValue::Seconds(*s),
        }
    }

    #[verifier::when_used_as_spec(spec_value_type)]
    pub fn value_type(&self) -> (r: VariableType)
        ensures
            r == self.spec_value_type(),
    {
        match self {
            VariableValue::Bool(_) => VariableType::Bool,
            VariableValue::Float(_) => VariableType::Float,
            VariableValue::Int(_) => VariableType::Int,
            VariableValue::String(_) => VariableType::String,
            VariableValue::Seconds(_) => VariableType::Seconds,
        }
    }
}

#[derive(Debug, Clone)]
pub struct Variable {
    pub designation: String,
    pub id: Id,
    pub value: VariableValue,
}

/// A named set of variables.
#[derive(Debug)]
pub struct VariablesPool {
    pub designation: String,
    pub id: Id,
    pub variables: HashMap<Id, Variable>,
}

/// A deck position of a layout.
#[derive(Debug)]
pub struct Location {
    pub id: Id,
    /// The deck location label, such as `C3`.
    pub position: String,
    pub number_stacked: u32,
    pub designation: String,
    pub consumable: Id,
}

/// A named set of deck positions.
#[derive(Debug)]
pub struct Layout {
    pub designation: String,
    pub id: Id,
    pub positions: HashMap<Id, Location>,
}

impl Layout {
    /// The location label of the deck position `position_id`.
    pub fn position(&self, position_id: Id) -> (r: Option<&String>)
        ensures
            match r {
                Some(s) => self.positions@.contains_key(position_id) && *s
                    == self.positions@[position_id].position,
                None => !self.positions@.contains_key(position_id),
            },
    {
        match self.positions.get(&position_id) {
            Some(location) => Some(&location.position),
            None => None,
        }
    }
}

#[derive(Debug)]
pub struct Method {
    pub designation: String,
    pub id: Id,
    pub layout_id: Id,
    pub local_variables_pool: VariablesPool,
    pub parameters: VariablesPool,
    pub instructions: Vec<Instruction>,
}

#[derive(Debug)]
pub struct Instruction {
    /// A commented-out instruction is shown but never carried out.
    pub is_comment: bool,
    pub command: Command,
}

/// An operand: a literal, or a reference to a variable that replaces it.
#[derive(Debug)]
pub struct InstructionValue {
    pub direct: VariableValue,
    pub variable: Option<Id>,
}

/// An argument handed to a called method.
#[derive(Debug)]
pub struct Parameter {
    pub id: Id,
    pub value: InstructionValue,
}

/// A position operand: a deck parameter of the current layout, or a location
/// value with a height offset.
#[derive(Debug)]
pub struct PositionHead {
    pub deck_parameter: Option<Id>,
    pub deck_location: InstructionValue,
    pub z_offset: InstructionValue,
}

/// The position operand of loading and ejecting tips.
#[derive(Debug)]
pub struct LoadEjectTipsHead {
    pub deck_parameter: Option<Id>,
    pub deck_location: InstructionValue,
}

#[derive(Debug, PartialEq, Eq, Structural, Clone, Copy)]
pub enum Operator {
    Assign,
    Minus,
    Plus,
}

#[derive(Debug, PartialEq, Eq, Structural, Clone, Copy)]
pub enum Comparator {
    Equals,
    GreaterThan,
    GreaterThanOrEqual,
    LessThan,
    LessThanOrEqual,
}

/// One instruction's operation and its operands.
#[allow(inconsistent_fields)]
#[derive(Debug)]
pub enum Command {
    AbsoluteMove,
    ApplicationExit,
    Aspirate {
        position_head: PositionHead,
        volume: InstructionValue,
    },
    BeginLoop {
        index: InstructionValue,
        from: InstructionValue,
        to: InstructionValue,
        steps: InstructionValue,
    },
    CloseWorkbook,
    Dispense {
        position_head: PositionHead,
        volume: InstructionValue,
        dispense_all: bool,
    },
    DispenseMainArray {
        volume: InstructionValue,
        dispense_all: bool,
    },
    EjectTips {
        load_eject_tips_head: LoadEjectTipsHead,
    },
    EndIf,
    EndLoop,
    EndWhile,
    ExecuteVSTAMacro {
        name: String,
    },
    GetCurrentPositionRelativeToReference,
    HeadPosition {
        position_head: PositionHead,
    },
    Home {
        x: bool,
        y: bool,
        z: bool,
    },
    HomePAxis,
    IfThen {
        comparator: Comparator,
        lhs: InstructionValue,
        rhs: InstructionValue,
    },
    Initialize,
    InitializeSystem,
    LoadTips {
        load_eject_tips_head: LoadEjectTipsHead,
    },
    MathOperation {
        operator: Operator,
        lhs: InstructionValue,
        rhs_op1: InstructionValue,
        rhs_op2: InstructionValue,
    },
    Mix {
        position_head: PositionHead,
    },
    MoveMaterial {
        from: PositionHead,
        to: PositionHead,
    },
    OpenWorkbook,
    PAxisSetPosition,
    Pick {
        position_head: PositionHead,
    },
    Place {
        position_head: PositionHead,
    },
    REM {
        comment: String,
    },
    RelativeMove,
    RunMethod {
        method: Id,
        parameters: Vec<Parameter>,
    },
    RunMacro,
    RunShakerForTime {
        speed: InstructionValue,
        timeout: InstructionValue,
    },
    SetLegLightIntensity {
        percentage: InstructionValue,
    },
    SetSpeed {
        speed: InstructionValue,
    },
    SetTemperature {
        device: String,
        temperature: InstructionValue,
    },
    SetTravelHeight,
    SetWorkingDirectory,
    ShakerOnOff {
        device: String,
        on_off: InstructionValue,
    },
    ShowDialog {
        text: String,
    },
    StartTime,
    StopTimer,
    StringOperation,
    TemperatureOnOff {
        device: String,
        on_off: InstructionValue,
    },
    Ungrip,
    VerticalPosition,
    WhileLoop {
        operator: Operator,
        lhs: InstructionValue,
        rhs: InstructionValue,
    },
}

/// The variants of [`Command`], without their operands.
#[derive(Debug, PartialEq, Eq, Structural, Clone, Copy)]
pub enum CommandKind {
    AbsoluteMove,
    ApplicationExit,
    Aspirate,
    BeginLoop,
    CloseWorkbook,
    Dispense,
    DispenseMainArray,
    EjectTips,
    EndIf,
    EndLoop,
    EndWhile,
    ExecuteVSTAMacro,
    GetCurrentPositionRelativeToReference,
    HeadPosition,
    Home,
    HomePAxis,
    IfThen,
    Initialize,
    InitializeSystem,
    LoadTips,
    MathOperation,
    Mix,
    MoveMaterial,
    OpenWorkbook,
    PAxisSetPosition,
    Pick,
    Place,
    REM,
    RelativeMove,
    RunMethod,
    RunMacro,
    RunShakerForTime,
    SetLegLightIntensity,
    SetSpeed,
    SetTemperature,
    SetTravelHeight,
    SetWorkingDirectory,
    ShakerOnOff,
    ShowDialog,
    StartTime,
    StopTimer,
    StringOperation,
    TemperatureOnOff,
    Ungrip,
    VerticalPosition,
    WhileLoop,
}

impl Command {
    pub open spec fn spec_kind(&self) -> CommandKind {
        match self {
            Command::AbsoluteMove => CommandKind::AbsoluteMove,
            Command::ApplicationExit => CommandKind::ApplicationExit,
            Command::Aspirate { .. } => CommandKind::Aspirate,
            Command::BeginLoop { .. } => CommandKind::BeginLoop,
            Command::CloseWorkbook => CommandKind::CloseWorkbook,
            Command::Dispense { .. } => CommandKind::Dispense,
            Command::DispenseMainArray { .. } => CommandKind::DispenseMainArray,
            Command::EjectTips { .. } => CommandKind::EjectTips,
            Command::EndIf => CommandKind::EndIf,
            Command::EndLoop => CommandKind::EndLoop,
            Command::EndWhile => CommandKind::EndWhile,
            Command::ExecuteVSTAMacro { .. } => CommandKind::ExecuteVSTAMacro,
            Command::GetCurrentPositionRelativeToReference => CommandKind::GetCurrentPositionRelativeToReference,
            Command::HeadPosition { .. } => CommandKind::HeadPosition,
            Command::Home { .. } => CommandKind::Home,
            Command::HomePAxis => CommandKind::HomePAxis,
            Command::IfThen { .. } => CommandKind::IfThen,
            Command::Initialize => CommandKind::Initialize,
            Command::InitializeSystem => CommandKind::InitializeSystem,
            Command::LoadTips { .. } => CommandKind::LoadTips,
            Command::MathOperation { .. } => CommandKind::MathOperation,
            Command::Mix { .. } => CommandKind::Mix,
            Command::MoveMaterial { .. } => CommandKind::MoveMaterial,
            Command::OpenWorkbook => CommandKind::OpenWorkbook,
            Command::PAxisSetPosition => CommandKind::PAxisSetPosition,
            Command::Pick { .. } => CommandKind::Pick,
            Command::Place { .. } => CommandKind::Place,
            Command::REM { .. } => CommandKind::REM,
            Command::RelativeMove => CommandKind::RelativeMove,
            Command::RunMethod { .. } => CommandKind::RunMethod,
            Command::RunMacro => CommandKind::RunMacro,
            Command::RunShakerForTime { .. } => CommandKind::RunShakerForTime,
            Command::SetLegLightIntensity { .. } => CommandKind::SetLegLightIntensity,
            Command::SetSpeed { .. } => CommandKind::SetSpeed,
            Command::SetTemperature { .. } => CommandKind::SetTemperature,
            Command::SetTravelHeight => CommandKind::SetTravelHeight,
            Command::SetWorkingDirectory => CommandKind::SetWorkingDirectory,
            Command::ShakerOnOff { .. } => CommandKind::ShakerOnOff,
            Command::ShowDialog { .. } => CommandKind::ShowDialog,
            Command::StartTime => CommandKind::StartTime,
            Command::StopTimer => CommandKind::StopTimer,
            Command::StringOperation => CommandKind::StringOperation,
            Command::TemperatureOnOff { .. } => CommandKind::TemperatureOnOff,
            Command::Ungrip => CommandKind::Ungrip,
            Command::VerticalPosition => CommandKind::VerticalPosition,
            Command::WhileLoop { .. } => CommandKind::WhileLoop,
        }
    }

    #[verifier::when_used_as_spec(spec_kind)]
    pub fn kind(&self) -> (r: CommandKind)
        ensures
            r == self.spec_kind(),
    {
        match self {
            Command::AbsoluteMove => CommandKind::AbsoluteMove,
            Command::ApplicationExit => CommandKind::ApplicationExit,
            Command::Aspirate { .. } => CommandKind::Aspirate,
            Command::BeginLoop { .. } => CommandKind::BeginLoop,
            Command::CloseWorkbook => CommandKind::CloseWorkbook,
            Command::Dispense { .. } => CommandKind::Dispense,
            Command::DispenseMainArray { .. } => CommandKind::DispenseMainArray,
            Command::EjectTips { .. } => CommandKind::EjectTips,
            Command::EndIf => CommandKind::EndIf,
            Command::EndLoop => CommandKind::EndLoop,
            Command::EndWhile => CommandKind::EndWhile,
            Command::ExecuteVSTAMacro { .. } => CommandKind::ExecuteVSTAMacro,
            Command::GetCurrentPositionRelativeToReference => CommandKind::GetCurrentPositionRelativeToReference,
            Command::HeadPosition { .. } => CommandKind::HeadPosition,
            Command::Home { .. } => CommandKind::Home,
            Command::HomePAxis => CommandKind::HomePAxis,
            Command::IfThen { .. } => CommandKind::IfThen,
            Command::Initialize => CommandKind::Initialize,
            Command::InitializeSystem => CommandKind::InitializeSystem,
            Command::LoadTips { .. } => CommandKind::LoadTips,
            Command::MathOperation { .. } => CommandKind::MathOperation,
            Command::Mix { .. } => CommandKind::Mix,
            Command::MoveMaterial { .. } => CommandKind::MoveMaterial,
            Command::OpenWorkbook => CommandKind::OpenWorkbook,
            Command::PAxisSetPosition => CommandKind::PAxisSetPosition,
            Command::Pick { .. } => CommandKind::Pick,
            Command::Place { .. } => CommandKind::Place,
            Command::REM { .. } => CommandKind::REM,
            Command::RelativeMove => CommandKind::RelativeMove,
            Command::RunMethod { .. } => CommandKind::RunMethod,
            Command::RunMacro => CommandKind::RunMacro,
            Command::RunShakerForTime { .. } => CommandKind::RunShakerForTime,
            Command::SetLegLightIntensity { .. } => CommandKind::SetLegLightIntensity,
            Command::SetSpeed { .. } => CommandKind::SetSpeed,
            Command::SetTemperature { .. } => CommandKind::SetTemperature,
            Command::SetTravelHeight => CommandKind::SetTravelHeight,
            Command::SetWorkingDirectory => CommandKind::SetWorkingDirectory,
            Command::ShakerOnOff { .. } => CommandKind::ShakerOnOff,
            Command::ShowDialog { .. } => CommandKind::ShowDialog,
            Command::StartTime => CommandKind::StartTime,
            Command::StopTimer => CommandKind::StopTimer,
            Command::StringOperation => CommandKind::StringOperation,
            Command::TemperatureOnOff { .. } => CommandKind::TemperatureOnOff,
            Command::Ungrip => CommandKind::Ungrip,
            Command::VerticalPosition => CommandKind::VerticalPosition,
            Command::WhileLoop { .. } => CommandKind::WhileLoop,
        }
    }
}


/// A saved program: its methods, layouts and global variables.
#[derive(Debug)]
pub struct SavedApplication {
    pub start_method: Id,
    pub global_variables: HashMap<Id, Variable>,
    pub layouts: HashMap<Id, Layout>,
    pub methods: HashMap<Id, Method>,
}

impl SavedApplication {
    /// A program with no methods, layouts or global variables yet.
    pub fn new(start_method: Id) -> (r: SavedApplication)
        ensures
            r.start_method == start_method,
            r.global_variables@ == Map::<Id, Variable>::empty(),
            r.layouts@ == Map::<Id, Layout>::empty(),
            r.methods@ == Map::<Id, Method>::empty(),
    {
        SavedApplication {
            start_method,
            global_variables: HashMap::new(),
            layouts: HashMap::new(),
            methods: HashMap::new(),
        }
    }

    pub fn set_global_variables(&mut self, pool: VariablesPool)
        ensures
            final(self).global_variables == pool.variables,
            final(self).start_method == old(self).start_method,
            final(self).layouts == old(self).layouts,
            final(self).methods == old(self).methods,
    {
        self.global_variables = pool.variables;
    }

    /// Adds `layout` under its id, replacing any layout of that id.
    pub fn add_layout(&mut self, layout: Layout)
        ensures
            final(self).layouts@ == old(self).layouts@.insert(layout.id, layout),
            final(self).start_method == old(self).start_method,
            final(self).global_variables == old(self).global_variables,
            final(self).methods == old(self).methods,
    {
        self.layouts.insert(layout.id, layout);
    }

    /// Adds `method` under its id, replacing any method of that id.
    pub fn add_method(&mut self, method: Method)
        ensures
            final(self).methods@ == old(self).methods@.insert(method.id, method),
            final(self).start_method == old(self).start_method,
            final(self).global_variables == old(self).global_variables,
            final(self).layouts == old(self).layouts,
    {
        self.methods.insert(method.id, method);
    }

    pub fn global_variables(&self) -> (r: &HashMap<Id, Variable>)
        ensures
            *r == self.global_variables,
    {
        &self.global_variables
    }

    pub fn layouts(&self) -> (r: &HashMap<Id, Layout>)
        ensures
            *r == self.layouts,
    {
        &self.layouts
    }

    pub fn has_method(&self, method_id: Id) -> (r: bool)
        ensures
            r == self.methods@.contains_key(method_id),
    {
        self.methods.contains_key(&method_id)
    }

    /// The instruction at `line` of the method `method_id`.
    pub fn instruction(&self, method_id: Id, line: usize) -> (r: Option<&Instruction>)
        ensures
            match r {
                Some(i) => self.methods@.contains_key(method_id) && line
                    < self.methods@[method_id].instructions@.len() && *i
                    == self.methods@[method_id].instructions@[line as int],
                None => !self.methods@.contains_key(method_id) || line
                    >= self.methods@[method_id].instructions@.len(),
            },
    {
        match self.methods.get(&method_id) {
            Some(m) => {
                if line < m.instructions.len() {
                    Some(&m.instructions[line])
                } else {
                    None
                }
            },
            None => None,
        }
    }

    /// How many instructions the method `method_id` has.
    pub fn instruction_count(&self, method_id: Id) -> (r: Option<usize>)
        ensures
            match r {
                Some(n) => self.methods@.contains_key(method_id) && n
                    == self.methods@[method_id].instructions@.len(),
                None => !self.methods@.contains_key(method_id),
            },
    {
        match self.methods.get(&method_id) {
            Some(m) => Some(m.instructions.len()),
            None => None,
        }
    }

    /// The layout that the method `method_id` declares.
    pub fn layout_of_method(&self, method_id: Id) -> (r: Option<Id>)
        ensures
            match r {
                Some(l) => self.methods@.contains_key(method_id) && l
                    == self.methods@[method_id].layout_id,
                None => !self.methods@.contains_key(method_id),
            },
    {
        match self.methods.get(&method_id) {
            Some(m) => Some(m.layout_id),
            None => None,
        }
    }

    pub fn local_variables_of_method(&self, method_id: Id) -> (r: Option<&HashMap<Id, Variable>>)
        ensures
            match r {
                Some(v) => self.methods@.contains_key(method_id) && *v
                    == self.methods@[method_id].local_variables_pool.variables,
                None => !self.methods@.contains_key(method_id),
            },
    {
        match self.methods.get(&method_id) {
            Some(m) => Some(&m.local_variables_pool.variables),
            None => None,
        }
    }

    pub fn parameters_of_method(&self, method_id: Id) -> (r: Option<&HashMap<Id, Variable>>)
        ensures
            match r {
                Some(v) => self.methods@.contains_key(method_id) && *v
                    == self.methods@[method_id].parameters.variables,
                None => !self.methods@.contains_key(method_id),
            },
    {
        match self.methods.get(&method_id) {
            Some(m) => Some(&m.parameters.variables),
            None => None,
        }
    }

    pub fn name_global_var(&self, var_id: Id) -> (r: Option<&str>)
        ensures
            match r {
                Some(s) => self.global_variables@.contains_key(var_id) && s@
                    == self.global_variables@[var_id].designation@,
                None => !self.global_variables@.contains_key(var_id),
            },
    {
        match self.global_variables.get(&var_id) {
            Some(v) => Some(v.designation.as_str()),
            None => None,
        }
    }

    pub fn name_layout(&self, layout_id: Id) -> (r: Option<&str>)
        ensures
            match r {
                Some(s) => self.layouts@.contains_key(layout_id) && s@
                    == self.layouts@[layout_id].designation@,
                None => !self.layouts@.contains_key(layout_id),
            },
    {
        match self.layouts.get(&layout_id) {
            Some(l) => Some(l.designation.as_str()),
            None => None,
        }
    }

    pub fn name_method(&self, method_id: Id) -> (r: Option<&str>)
        ensures
            match r {
                Some(s) => self.methods@.contains_key(method_id) && s@
                    == self.methods@[method_id].designation@,
                None => !self.methods@.contains_key(method_id),
            },
    {
        match self.methods.get(&method_id) {
            Some(m) => Some(m.designation.as_str()),
            None => None,
        }
    }

    /// The ids of the global variables, each once, in no particular order.
    pub fn ids_global_var(&self) -> (r: Vec<Id>)
        ensures
            r@.to_set() == self.global_variables@.dom(),
            r@.no_duplicates(),
    {
        keys_of(&self.global_variables)
    }

    /// The ids of the layouts, each once, in no particular order.
    pub fn ids_layout(&self) -> (r: Vec<Id>)
        ensures
            r@.to_set() == self.layouts@.dom(),
            r@.no_duplicates(),
    {
        keys_of(&self.layouts)
    }

    /// The ids of the methods, each once, in no particular order.
    pub fn ids_methods(&self) -> (r: Vec<Id>)
        ensures
            r@.to_set() == self.methods@.dom(),
            r@.no_duplicates(),
    {
        keys_of(&self.methods)
    }

    /// The method run when the program starts.
    pub fn start_method(&self) -> (r: Id)
        ensures
            r == self.start_method,
    {
        self.start_method
    }
}


/// The keys of `m`, each once, in the order the map yields them.
fn keys_of<V>(m: &HashMap<Id, V>) -> (r: Vec<Id>)
    ensures
        r@.to_set() == m@.dom(),
        r@.no_duplicates(),
{
    let ghost all = vstd::std_specs::iter::IteratorSpec::remaining(
        &vstd::std_specs::hash::spec_keys_iter(m),
    ).unref();
    let mut ids: Vec<Id> = Vec::new();
    for id in it: m.keys()
        invariant
            it.seq().unref() == all,
            ids@ == all.take(it.index() as int),
    {
        ids.push(*id);
        assert(ids@ =~= all.take(it.index() as int + 1));
    }
    assert(ids@ =~= all);
    ids
}

} // verus!
