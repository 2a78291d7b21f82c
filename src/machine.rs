use crate::program::{CommandKind, Id};
use vstd::prelude::*;

verus! {

/// A hardware-level operation whose operands are all concrete values.
///
/// Volumes are decimal numbers held as whole thousandths (`100_000` stands
/// for 100.0).
#[allow(inconsistent_fields)]
#[derive(Debug)]
pub enum Execute {
    Aspirate { position: String, volume: i64 },
    /// `volume: None` dispenses everything the tips hold.
    Dispense { position: String, volume: Option<i64> },
    EjectTips { position: String },
    LoadTips { position: String },
    Mix { position: String },
    REM { comment: String },
    /// A call of the method `method`; the machine has nothing to do.
    RunMethod { method: Id },
    /// A commented-out instruction of kind `kind`, whose operands are not
    /// resolved; it is never carried out.
    Disabled { kind: CommandKind },
}

/// Why the machine refused an operation.
#[derive(Debug, PartialEq, Eq, Structural, Clone, Copy)]
pub enum MachineError {
    NeedTips,
    NotEnoughVolume,
    TipsAlreadyLoaded,
    /// A negative volume, or one that the tips could not hold.
    InvalidVolume,
}

/// The physical state of a machine.
pub struct MachineState {
    pub deck_location: Option<Seq<char>>,
    pub tips_loaded: bool,
    /// In thousandths.
    pub tip_volume: nat,
}

/// The largest volume (in thousandths) that the tips can hold.
pub open spec fn max_tip_volume() -> nat {
    u64::MAX as nat
}

impl MachineState {
    /// No location yet, no tips, nothing held.
    pub open spec fn initial() -> MachineState {
        MachineState { deck_location: None, tips_loaded: false, tip_volume: 0 }
    }

    pub open spec fn moved_to(self, location: Seq<char>) -> MachineState {
        MachineState { deck_location: Some(location), ..self }
    }

    pub open spec fn aspirated(self, volume: int) -> (MachineState, Result<(), MachineError>) {
        if !self.tips_loaded {
            (self, Err(MachineError::NeedTips))
        } else if volume < 0 || self.tip_volume + volume > max_tip_volume() {
            (self, Err(MachineError::InvalidVolume))
        } else {
            (MachineState { tip_volume: (self.tip_volume + volume) as nat, ..self }, Ok(()))
        }
    }

    /// `volume: None` empties the tips.
    pub open spec fn dispensed(self, volume: Option<int>) -> (MachineState, Result<(), MachineError>) {
        if !self.tips_loaded {
            (self, Err(MachineError::NeedTips))
        } else {
            match volume {
                None => (MachineState { tip_volume: 0, ..self }, Ok(())),
                Some(v) => if v < 0 {
                    (self, Err(MachineError::InvalidVolume))
                } else if v > self.tip_volume {
                    (self, Err(MachineError::NotEnoughVolume))
                } else {
                    (MachineState { tip_volume: (self.tip_volume - v) as nat, ..self }, Ok(()))
                },
            }
        }
    }

    pub open spec fn tips_ejected(self) -> MachineState {
        MachineState { tips_loaded: false, tip_volume: 0, ..self }
    }

    pub open spec fn tips_mounted(self) -> (MachineState, Result<(), MachineError>) {
        if self.tips_loaded {
            (self, Err(MachineError::TipsAlreadyLoaded))
        } else {
            (MachineState { tips_loaded: true, ..self }, Ok(()))
        }
    }

    /// The state after `exe` and its outcome: every operation but a comment,
    /// a call or a disabled instruction first moves to its position; mixing
    /// needs tips but has no fluidic effect.
    pub open spec fn step(self, exe: Execute) -> (MachineState, Result<(), MachineError>) {
        match exe {
            Execute::Aspirate { position, volume } => self.moved_to(position@).aspirated(
                volume as int,
            ),
            Execute::Dispense { position, volume } => self.moved_to(position@).dispensed(
                match volume {
                    Some(v) => Some(v as int),
                    None => None,
                },
            ),
            Execute::EjectTips { position } => (self.moved_to(position@).tips_ejected(), Ok(())),
            Execute::LoadTips { position } => self.moved_to(position@).tips_mounted(),
            Execute::Mix { position } => if self.tips_loaded {
                (self.moved_to(position@), Ok(()))
            } else {
                (self.moved_to(position@), Err(MachineError::NeedTips))
            },
            Execute::REM { comment } => (self, Ok(())),
            Execute::RunMethod { method } => (self, Ok(())),
            Execute::Disabled { kind } => (self, Ok(())),
        }
    }
}

/// Aspirating without tips mounted fails with `NeedTips` and leaves the held
/// volume as it was.
pub proof fn aspirate_needs_tips(s: MachineState, position: String, volume: i64)
    requires
        !s.tips_loaded,
    ensures
        s.step(Execute::Aspirate { position, volume }).1 == Err::<(), MachineError>(
            MachineError::NeedTips,
        ),
        s.step(Execute::Aspirate { position, volume }).0.tip_volume == s.tip_volume,
{
}

/// With tips mounted, dispensing more than the tips hold fails with
/// `NotEnoughVolume` and leaves the held volume as it was.
pub proof fn dispense_beyond_held_volume_fails(s: MachineState, position: String, volume: i64)
    requires
        s.tips_loaded,
        volume > s.tip_volume,
    ensures
        s.step(Execute::Dispense { position, volume: Some(volume) }).1 == Err::<(), MachineError>(
            MachineError::NotEnoughVolume,
        ),
        s.step(Execute::Dispense { position, volume: Some(volume) }).0.tip_volume == s.tip_volume,
{
}

/// Mixing without tips mounted fails with `NeedTips`; with tips it only
/// moves.
pub proof fn mix_needs_tips(s: MachineState, position: String)
    ensures
        !s.tips_loaded ==> s.step(Execute::Mix { position }).1 == Err::<(), MachineError>(
            MachineError::NeedTips,
        ),
        s.tips_loaded ==> s.step(Execute::Mix { position }) == (
            s.moved_to(position@),
            Ok::<(), MachineError>(()),
        ),
        s.step(Execute::Mix { position }).0.tip_volume == s.tip_volume,
{
}

/// Loading tips twice in a row fails the second time with
/// `TipsAlreadyLoaded`, whatever the state before.
pub proof fn second_load_tips_fails(s: MachineState, first: String, second: String)
    ensures
        s.step(Execute::LoadTips { position: first }).0.step(
            Execute::LoadTips { position: second },
        ).1 == Err::<(), MachineError>(MachineError::TipsAlreadyLoaded),
{
}

/// With tips mounted, dispensing everything succeeds and leaves exactly
/// nothing held, whatever was held before.
pub proof fn dispense_all_empties_tips(s: MachineState, position: String)
    requires
        s.tips_loaded,
    ensures
        s.step(Execute::Dispense { position, volume: None }).1 == Ok::<(), MachineError>(()),
        s.step(Execute::Dispense { position, volume: None }).0.tip_volume == 0,
{
}

/// A machine that can carry out resolved operations.
pub trait Machine: Sized {
    /// The physical state this machine is in.
    spec fn state(&self) -> MachineState;

    fn new() -> (m: Self)
        ensures
            m.state() == MachineState::initial(),
    ;

    fn execute(&mut self, exe: &Execute) -> (r: Result<(), MachineError>)
        ensures
            (final(self).state(), r) == old(self).state().step(*exe),
    ;
}

/// A simulated SciClone G3 pipetting workstation.
pub struct ScicloneG3 {
    deck_location: Option<String>,
    tips_loaded: bool,
    tip_volume: u64,
}

impl View for ScicloneG3 {
    type V = MachineState;

    closed spec fn view(&self) -> MachineState {
        MachineState {
            deck_location: match self.deck_location {
                Some(s) => Some(s@),
                None => None,
            },
            tips_loaded: self.tips_loaded,
            tip_volume: self.tip_volume as nat,
        }
    }
}

impl ScicloneG3 {
    /// Takes up `volume` (thousandths) into the mounted tips.
    pub fn aspirate(&mut self, volume: i64) -> (r: Result<(), MachineError>)
        ensures
            (final(self)@, r) == old(self)@.aspirated(volume as int),
    {
        self.assert_tips()?;
        if volume < 0 {
            return Err(MachineError::InvalidVolume);
        }
        match self.tip_volume.checked_add(volume as u64) {
            Some(v) => {
                self.tip_volume = v;
                Ok(())
            },
            None => Err(MachineError::InvalidVolume),
        }
    }

    /// Releases `volume` (thousandths) from the tips, or all they hold where
    /// `volume` is `None`.
    pub fn dispense(&mut self, volume: Option<i64>) -> (r: Result<(), MachineError>)
        ensures
            (final(self)@, r) == old(self)@.dispensed(
                match volume {
                    Some(v) => Some(v as int),
                    None => None,
                },
            ),
    {
        self.assert_tips()?;
        match volume {
            None => {
                self.tip_volume = 0;
                Ok(())
            },
            Some(v) => {
                if v < 0 {
                    Err(MachineError::InvalidVolume)
                } else if v as u64 > self.tip_volume {
                    Err(MachineError::NotEnoughVolume)
                } else {
                    self.tip_volume = self.tip_volume - v as u64;
                    Ok(())
                }
            },
        }
    }

    /// Drops the tips and whatever they held.
    pub fn eject_tips(&mut self)
        ensures
            final(self)@ == old(self)@.tips_ejected(),
    {
        self.tips_loaded = false;
        self.tip_volume = 0;
    }

    pub fn load_tips(&mut self) -> (r: Result<(), MachineError>)
        ensures
            (final(self)@, r) == old(self)@.tips_mounted(),
    {
        if self.tips_loaded {
            Err(MachineError::TipsAlreadyLoaded)
        } else {
            self.tips_loaded = true;
            Ok(())
        }
    }

    pub fn move_to(&mut self, location: &str)
        ensures
            final(self)@ == old(self)@.moved_to(location@),
    {
        self.deck_location = Some(location.to_owned());
    }

    pub fn get_deck_location(&self) -> (r: Option<&String>)
        ensures
            match r {
                Some(s) => self@.deck_location == Some(s@),
                None => self@.deck_location is None,
            },
    {
        self.deck_location.as_ref()
    }

    pub fn get_tips_loaded(&self) -> (r: bool)
        ensures
            r == self@.tips_loaded,
    {
        self.tips_loaded
    }

    /// The volume held, in thousandths.
    pub fn get_tip_volume(&self) -> (r: u64)
        ensures
            r == self@.tip_volume,
    {
        self.tip_volume
    }

    fn assert_tips(&self) -> (r: Result<(), MachineError>)
        ensures
            r == (if self@.tips_loaded { Ok(()) } else { Err(MachineError::NeedTips) }),
    {
        if self.tips_loaded {
            Ok(())
        } else {
            Err(MachineError::NeedTips)
        }
    }
}

impl Machine for ScicloneG3 {
    open spec fn state(&self) -> MachineState {
        self@
    }

    fn new() -> (m: Self) {
        ScicloneG3 { deck_location: None, tips_loaded: false, tip_volume: 0 }
    }

    fn execute(&mut self, exe: &Execute) -> (r: Result<(), MachineError>) {
        match exe {
            Execute::Aspirate { position, volume } => {
                self.move_to(position.as_str());
                self.aspirate(*volume)
            },
            Execute::Dispense { position, volume } => {
                self.move_to(position.as_str());
                self.dispense(*volume)
            },
            Execute::EjectTips { position } => {
                self.move_to(position.as_str());
                self.eject_tips();
                Ok(())
            },
            Execute::LoadTips { position } => {
                self.move_to(position.as_str());
                self.load_tips()
            },
            Execute::Mix { position } => {
                self.move_to(position.as_str());
                self.assert_tips()
            },
            Execute::REM { comment: _ } => Ok(()),
            Execute::RunMethod { method: _ } => Ok(()),
            Execute::Disabled { kind: _ } => Ok(()),
        }
    }
}

} // verus!
