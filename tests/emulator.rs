use maestro_ngs_emulator::{
    Command, CommandKind, Emulator, EmulatorError, Id, Instruction, InstructionValue, Layout,
    LoadEjectTipsHead, Location, MachineError, Method, PositionHead, SavedApplication,
    ScicloneG3, ScicloneG3Emulator, VariableValue, VariablesPool,
};
use std::collections::HashMap;

const MAIN: &str = "3AC47C04-DCCE-4036-8F9F-6AD7D530E220";
const MAIN_LAYOUT: &str = "BB37AAC5-102D-4367-B1BA-98B7D1E47EF0";

fn id(text: &str) -> Id {
    uuid::Uuid::parse_str(text).unwrap().as_u128()
}

fn pool(pool_id: Id) -> VariablesPool {
    VariablesPool { designation: String::new(), id: pool_id, variables: HashMap::new() }
}

fn literal(value: VariableValue) -> InstructionValue {
    InstructionValue { direct: value, variable: None }
}

fn at(position: Id) -> PositionHead {
    PositionHead {
        deck_parameter: Some(position),
        deck_location: literal(VariableValue::String(String::new())),
        z_offset: literal(VariableValue::Float(0)),
    }
}

fn tips_at(position: Id) -> LoadEjectTipsHead {
    LoadEjectTipsHead {
        deck_parameter: Some(position),
        deck_location: literal(VariableValue::String(String::new())),
    }
}

fn step(command: Command) -> Instruction {
    Instruction { is_comment: false, command }
}

/// A program whose main method runs `instructions` on a layout with the deck
/// positions `labels`, the position of `labels[i]` having the id `i + 1`.
fn program(labels: &[&str], instructions: Vec<Instruction>) -> SavedApplication {
    let mut app = SavedApplication::new(id(MAIN));
    let mut positions = HashMap::new();
    for (i, label) in labels.iter().enumerate() {
        let pos = i as Id + 1;
        positions.insert(
            pos,
            Location {
                id: pos,
                position: label.to_string(),
                number_stacked: 1,
                designation: label.to_string(),
                consumable: 0,
            },
        );
    }
    app.add_layout(Layout { designation: "MainLayout".to_string(), id: id(MAIN_LAYOUT), positions });
    app.add_method(Method {
        designation: "Main".to_string(),
        id: id(MAIN),
        layout_id: id(MAIN_LAYOUT),
        local_variables_pool: pool(100),
        parameters: pool(101),
        instructions,
    });
    app
}

fn pipette_and_mix() -> SavedApplication {
    // C3 = 1, C4 = 2, B4 = 3, D5 = 4
    program(
        &["C3", "C4", "B4", "D5"],
        vec![
            step(Command::LoadTips { load_eject_tips_head: tips_at(1) }),
            step(Command::Aspirate { position_head: at(2), volume: literal(VariableValue::Float(100_000)) }),
            step(Command::Dispense {
                position_head: at(3),
                volume: literal(VariableValue::Float(100_000)),
                dispense_all: false,
            }),
            step(Command::Mix { position_head: at(3) }),
            step(Command::EjectTips { load_eject_tips_head: tips_at(4) }),
        ],
    )
}

#[test]
fn lib_emulate_empty_app() {
    let app = program(&[], vec![]);
    let mut emu = ScicloneG3Emulator::new(&app).unwrap();
    let uuid = id(MAIN);
    assert_eq!(emu.call_stack().len(), 1);
    assert_eq!(emu.call_stack()[0].method, uuid);
    assert_eq!(emu.global_variables().len(), 0);
    assert_eq!(emu.call_stack()[0].params.len(), 0);
    assert_eq!(app.ids_methods().len(), 1);
    assert_eq!(app.local_variables_of_method(uuid).unwrap().len(), 0);

    let step = emu.next().unwrap();
    assert!(step.is_none());
    assert!(emu.done());
}

#[test]
fn emulate_pipette_and_mix_app() {
    let app = pipette_and_mix();
    let mut emu = ScicloneG3Emulator::new(&app).unwrap();

    // Load tips
    let mut step = emu.next().unwrap().is_some();
    assert!(step);
    assert_eq!(emu.machine().get_deck_location(), Some(&"C3".to_string()));
    assert!(emu.machine().get_tips_loaded());

    // Aspirate 100 uL
    step = emu.next().unwrap().is_some();
    assert!(step);
    assert_eq!(emu.machine().get_deck_location(), Some(&"C4".to_string()));
    assert_eq!(emu.machine().get_tip_volume() as f64 / 1000.0, 100.0);

    // Dispense
    step = emu.next().unwrap().is_some();
    assert!(step);
    assert_eq!(emu.machine().get_deck_location(), Some(&"B4".to_string()));
    assert_eq!(emu.machine().get_tip_volume() as f64 / 1000.0, 0.0);

    // Mix
    step = emu.next().unwrap().is_some();
    assert!(step);
    assert_eq!(emu.machine().get_deck_location(), Some(&"B4".to_string()));

    step = emu.next().unwrap().is_some();
    assert!(step);
    assert_eq!(emu.machine().get_deck_location(), Some(&"D5".to_string()));
    assert!(!emu.machine().get_tips_loaded());

    step = emu.next().unwrap().is_some();
    assert!(!step);
    assert!(emu.done());
}

#[test]
fn pipette_and_mix_records_locations_and_tips() {
    let app = pipette_and_mix();
    let mut emu = Emulator::<ScicloneG3>::new(&app).unwrap();
    let mut tips = vec![emu.machine().get_tips_loaded()];
    let mut lines = Vec::new();
    while let Some(action) = emu.next().unwrap() {
        assert!(!action.skip);
        lines.push(action.line);
        tips.push(emu.machine().get_tips_loaded());
    }
    assert_eq!(lines, vec![0, 1, 2, 3, 4]);
    assert_eq!(tips, vec![false, true, true, true, true, false]);
    let locations: Vec<String> = emu
        .actions()
        .iter()
        .map(|a| match &a.execute {
            maestro_ngs_emulator::Execute::Aspirate { position, .. }
            | maestro_ngs_emulator::Execute::Dispense { position, .. }
            | maestro_ngs_emulator::Execute::EjectTips { position }
            | maestro_ngs_emulator::Execute::LoadTips { position }
            | maestro_ngs_emulator::Execute::Mix { position } => position.clone(),
            other => panic!("expected a move, found {:?}", other),
        })
        .collect();
    assert_eq!(locations, vec!["C3", "C4", "B4", "B4", "D5"]);
}

#[test]
fn unsupported_command_is_reported_without_moving() {
    let app = program(&["C3"], vec![step(Command::Home { x: true, y: true, z: true })]);
    let mut emu = Emulator::<ScicloneG3>::new(&app).unwrap();
    match emu.next() {
        Err(e) => assert_eq!(e, EmulatorError::UnsupportedCommand(CommandKind::Home)),
        Ok(_) => panic!("Home must be refused"),
    }
    assert_eq!(emu.machine().get_deck_location(), None);
}

#[test]
fn aspirate_without_tips_needs_tips() {
    let app = program(
        &["C4"],
        vec![step(Command::Aspirate { position_head: at(1), volume: literal(VariableValue::Float(5_000)) })],
    );
    let mut emu = Emulator::<ScicloneG3>::new(&app).unwrap();
    match emu.next() {
        Err(e) => assert_eq!(e, EmulatorError::MachineError(MachineError::NeedTips)),
        Ok(_) => panic!("aspirating without tips must fail"),
    }
    assert_eq!(emu.machine().get_tip_volume(), 0);
}

#[test]
fn commented_instruction_is_not_dispatched() {
    let app = program(
        &["C3"],
        vec![Instruction { is_comment: true, command: Command::LoadTips { load_eject_tips_head: tips_at(1) } }],
    );
    let mut emu = Emulator::<ScicloneG3>::new(&app).unwrap();
    let skipped = emu.next().unwrap().unwrap().skip;
    assert!(skipped);
    assert!(!emu.machine().get_tips_loaded());
    assert_eq!(emu.machine().get_deck_location(), None);
    assert!(emu.next().unwrap().is_none());
}

#[test]
fn rem_is_recorded() {
    let app = program(&[], vec![step(Command::REM { comment: "hello".to_string() })]);
    let mut emu = Emulator::<ScicloneG3>::new(&app).unwrap();
    let action = emu.next().unwrap().unwrap();
    assert!(!action.skip);
    assert_eq!(action.method, id(MAIN));
    assert_eq!(action.line, 0);
    match &action.execute {
        maestro_ngs_emulator::Execute::REM { comment } => assert_eq!(comment, "hello"),
        _ => panic!("expected a comment"),
    }
}

#[test]
fn unknown_start_method() {
    let app = SavedApplication::new(7);
    match Emulator::<ScicloneG3>::new(&app) {
        Err(e) => assert_eq!(e, EmulatorError::UnknownMethod(7)),
        Ok(_) => panic!("the start method does not exist"),
    }
}

#[test]
fn unknown_layout_position() {
    let app = program(&["C3"], vec![step(Command::Mix { position_head: at(9) })]);
    let mut emu = Emulator::<ScicloneG3>::new(&app).unwrap();
    match emu.next() {
        Err(e) => assert_eq!(e, EmulatorError::UnknownLayoutPosition(9)),
        Ok(_) => panic!("position 9 is not in the layout"),
    }
}

#[test]
fn unknown_layout() {
    let mut app = program(&["C3"], vec![step(Command::Mix { position_head: at(1) })]);
    app.layouts = HashMap::new();
    let mut emu = Emulator::<ScicloneG3>::new(&app).unwrap();
    match emu.next() {
        Err(e) => assert_eq!(e, EmulatorError::UnknownLayout(id(MAIN_LAYOUT))),
        Ok(_) => panic!("the layout is missing"),
    }
}

#[test]
fn position_without_deck_parameter_is_unsupported() {
    let mut head = at(1);
    head.deck_parameter = None;
    let app = program(&["C3"], vec![step(Command::Mix { position_head: head })]);
    let mut emu = Emulator::<ScicloneG3>::new(&app).unwrap();
    match emu.next() {
        Err(e) => assert_eq!(e, EmulatorError::UnsupportedCommand(CommandKind::Mix)),
        Ok(_) => panic!("a literal location is not supported"),
    }
}

#[test]
fn commented_unsupported_instruction_is_skipped() {
    let mut no_deck = at(1);
    no_deck.deck_parameter = None;
    let app = program(
        &["C3"],
        vec![
            Instruction { is_comment: true, command: Command::Home { x: true, y: true, z: true } },
            Instruction { is_comment: true, command: Command::Mix { position_head: no_deck } },
        ],
    );
    let mut emu = ScicloneG3Emulator::new(&app).unwrap();
    let first = emu.next().unwrap().unwrap();
    assert!(first.skip);
    assert!(matches!(first.execute, maestro_ngs_emulator::Execute::Disabled { kind: CommandKind::Home }));
    let second = emu.next().unwrap().unwrap();
    assert!(second.skip);
    assert_eq!(second.line, 1);
    assert!(emu.next().unwrap().is_none());
    assert_eq!(emu.actions().len(), 2);
    assert_eq!(emu.machine().get_deck_location(), None);
}

#[test]
fn failed_mix_keeps_history() {
    let app = program(&["B4"], vec![step(Command::Mix { position_head: at(1) })]);
    let mut emu = ScicloneG3Emulator::new(&app).unwrap();
    match emu.next() {
        Err(e) => assert_eq!(e, EmulatorError::MachineError(MachineError::NeedTips)),
        Ok(_) => panic!("mixing without tips must fail"),
    }
    assert_eq!(emu.actions().len(), 0);
    assert_eq!(emu.machine().get_deck_location(), Some(&"B4".to_string()));
}
