use maestro_ngs_emulator::{
    Command, CommandKind, EmulatorError, Execute, InstructionValue, Layout, LoadEjectTipsHead,
    Location, PositionHead, Scope, Variable, VariableType, VariableValue,
};
use std::collections::HashMap;

fn var(id: u128, value: VariableValue) -> HashMap<u128, Variable> {
    let mut m = HashMap::new();
    m.insert(id, Variable { designation: format!("v{}", id), id, value });
    m
}

fn layouts() -> HashMap<u128, Layout> {
    let mut positions = HashMap::new();
    positions.insert(
        7,
        Location { id: 7, position: "C3".to_string(), number_stacked: 1, designation: String::new(), consumable: 0 },
    );
    let mut m = HashMap::new();
    m.insert(1, Layout { designation: "MainLayout".to_string(), id: 1, positions });
    m
}

fn head(deck_parameter: Option<u128>) -> PositionHead {
    PositionHead {
        deck_parameter,
        deck_location: InstructionValue { direct: VariableValue::String(String::new()), variable: None },
        z_offset: InstructionValue { direct: VariableValue::Float(0), variable: None },
    }
}

fn float(v: i64) -> InstructionValue {
    InstructionValue { direct: VariableValue::Float(v), variable: None }
}

fn by_ref(id: u128) -> InstructionValue {
    InstructionValue { direct: VariableValue::Float(0), variable: Some(id) }
}

#[test]
fn literal_is_returned_unchanged_whatever_the_scope() {
    let empty = HashMap::new();
    let full = var(5, VariableValue::Float(1));
    let ls = layouts();
    let bare = Scope { locals: &empty, params: &empty, globals: &empty, layouts: &ls, layout: 1 };
    let busy = Scope { locals: &full, params: &full, globals: &full, layouts: &ls, layout: 1 };
    let operand = float(42_000);
    for scope in [&bare, &busy] {
        match scope.resolve_value(&operand, VariableType::Float) {
            Ok(VariableValue::Float(v)) => assert_eq!(*v, 42_000),
            other => panic!("unexpected {:?}", other),
        }
        assert_eq!(scope.resolve_float(&operand), Ok(42_000));
    }
}

#[test]
fn locals_come_before_parameters_and_globals() {
    let locals = var(5, VariableValue::Float(1_000));
    let params = var(5, VariableValue::Float(2_000));
    let globals = var(5, VariableValue::Float(3_000));
    let empty = HashMap::new();
    let ls = layouts();
    let all = Scope { locals: &locals, params: &params, globals: &globals, layouts: &ls, layout: 1 };
    assert_eq!(all.resolve_float(&by_ref(5)), Ok(1_000));
    let no_locals = Scope { locals: &empty, params: &params, globals: &globals, layouts: &ls, layout: 1 };
    assert_eq!(no_locals.resolve_float(&by_ref(5)), Ok(2_000));
    let only_globals = Scope { locals: &empty, params: &empty, globals: &globals, layouts: &ls, layout: 1 };
    assert_eq!(only_globals.resolve_float(&by_ref(5)), Ok(3_000));
    assert_eq!(only_globals.lookup_variable(5).unwrap().designation, "v5");
}

#[test]
fn unknown_variable_is_reported() {
    let empty = HashMap::new();
    let ls = layouts();
    let scope = Scope { locals: &empty, params: &empty, globals: &empty, layouts: &ls, layout: 1 };
    assert_eq!(scope.resolve_float(&by_ref(9)), Err(EmulatorError::UnknownVariable(9)));
    assert!(scope.lookup_variable(9).is_none());
}

#[test]
fn type_mismatch_is_reported() {
    let empty = HashMap::new();
    let texts = var(5, VariableValue::String("x".to_string()));
    let ls = layouts();
    let scope = Scope { locals: &texts, params: &empty, globals: &empty, layouts: &ls, layout: 1 };
    assert_eq!(
        scope.resolve_float(&by_ref(5)),
        Err(EmulatorError::TypeMismatch(VariableType::Float, VariableType::String))
    );
    let seconds = InstructionValue { direct: VariableValue::Seconds(3), variable: None };
    assert_eq!(
        scope.resolve_float(&seconds).unwrap_err(),
        EmulatorError::TypeMismatch(VariableType::Float, VariableType::Seconds)
    );
    assert!(scope.resolve_value(&seconds, VariableType::Seconds).is_ok());
}

#[test]
fn positions_resolve_in_the_bound_layout() {
    let empty = HashMap::new();
    let ls = layouts();
    let scope = Scope { locals: &empty, params: &empty, globals: &empty, layouts: &ls, layout: 1 };
    assert_eq!(scope.resolve_position(Some(7), CommandKind::Mix).unwrap(), "C3");
    assert_eq!(
        scope.resolve_position(Some(8), CommandKind::Mix),
        Err(EmulatorError::UnknownLayoutPosition(8))
    );
    assert_eq!(
        scope.resolve_position(None, CommandKind::Pick),
        Err(EmulatorError::UnsupportedCommand(CommandKind::Pick))
    );
    let elsewhere = Scope { locals: &empty, params: &empty, globals: &empty, layouts: &ls, layout: 2 };
    assert_eq!(elsewhere.resolve_position(Some(7), CommandKind::Mix), Err(EmulatorError::UnknownLayout(2)));
}

#[test]
fn builder_resolves_supported_commands() {
    let empty = HashMap::new();
    let volumes = var(5, VariableValue::Float(12_500));
    let ls = layouts();
    let scope = Scope { locals: &empty, params: &empty, globals: &volumes, layouts: &ls, layout: 1 };
    match scope.build_execute(&Command::Aspirate { position_head: head(Some(7)), volume: by_ref(5) }) {
        Ok(Execute::Aspirate { position, volume }) => {
            assert_eq!(position, "C3");
            assert_eq!(volume, 12_500);
        }
        other => panic!("unexpected {:?}", other),
    }
    match scope.build_execute(&Command::Dispense { position_head: head(Some(7)), volume: by_ref(99), dispense_all: true }) {
        Ok(Execute::Dispense { position, volume }) => {
            assert_eq!(position, "C3");
            assert_eq!(volume, None);
        }
        other => panic!("unexpected {:?}", other),
    }
    match scope.build_execute(&Command::Dispense { position_head: head(Some(7)), volume: float(1_000), dispense_all: false }) {
        Ok(Execute::Dispense { volume, .. }) => assert_eq!(volume, Some(1_000)),
        other => panic!("unexpected {:?}", other),
    }
    let tips = LoadEjectTipsHead {
        deck_parameter: Some(7),
        deck_location: InstructionValue { direct: VariableValue::String(String::new()), variable: None },
    };
    match scope.build_execute(&Command::LoadTips { load_eject_tips_head: tips }) {
        Ok(Execute::LoadTips { position }) => assert_eq!(position, "C3"),
        other => panic!("unexpected {:?}", other),
    }
}

#[test]
fn builder_refuses_other_commands() {
    let empty = HashMap::new();
    let ls = layouts();
    let scope = Scope { locals: &empty, params: &empty, globals: &empty, layouts: &ls, layout: 1 };
    let cases = vec![
        (Command::EndLoop, CommandKind::EndLoop),
        (Command::Pick { position_head: head(Some(7)) }, CommandKind::Pick),
        (Command::StartTime, CommandKind::StartTime),
        (Command::ShowDialog { text: "hi".to_string() }, CommandKind::ShowDialog),
    ];
    for (command, kind) in cases {
        assert_eq!(command.kind(), kind);
        assert_eq!(scope.build_execute(&command).unwrap_err(), EmulatorError::UnsupportedCommand(kind));
    }
}

#[test]
fn value_types() {
    assert_eq!(VariableValue::Bool(true).value_type(), VariableType::Bool);
    assert_eq!(VariableValue::Float(1).value_type(), VariableType::Float);
    assert_eq!(VariableValue::Int(1).value_type(), VariableType::Int);
    assert_eq!(VariableValue::String(String::new()).value_type(), VariableType::String);
    assert_eq!(VariableValue::Seconds(1).value_type(), VariableType::Seconds);
}
