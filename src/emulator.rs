use crate::error::EmulatorError;
use crate::machine::{Execute, Machine, MachineState, ScicloneG3};
use crate::program::{Command, CommandKind, Id, Parameter, SavedApplication, Variable};
use crate::resolver::{is_supported, unsupported_command_is_refused, Scope, ScopeView};
use std::collections::HashMap;
use vstd::prelude::*;

verus! {

broadcast use vstd::std_specs::hash::group_hash_axioms;

/// One running call of a method.
#[derive(Debug)]
pub struct Frame {
    pub method: Id,
    /// The next instruction to carry out.
    pub line: usize,
    /// The parameters, copied when the call began.
    pub params: HashMap<Id, Variable>,
    /// The layout that deck parameters are looked up in.
    pub layout: Id,
}

/// The record of one instruction carried out, or skipped as a comment.
#[derive(Debug)]
pub struct Action {
    pub method: Id,
    pub line: usize,
    /// A commented-out instruction is recorded but not sent to the machine.
    pub skip: bool,
    pub execute: Execute,
}

/// What `frames` is left with once every finished call is dropped from its
/// top; the error where a call's method does not exist.
pub open spec fn unwound(app: SavedApplication, frames: Seq<Frame>) -> Result<
    Seq<Frame>,
    EmulatorError,
>
    decreases frames.len(),
{
    if frames.len() == 0 {
        Ok(frames)
    } else {
        let top = frames.last();
        if !app.methods@.contains_key(top.method) {
            Err(EmulatorError::UnknownMethod(top.method))
        } else if top.line >= app.methods@[top.method].instructions@.len() {
            unwound(app, frames.drop_last())
        } else {
            Ok(frames)
        }
    }
}

/// The scope of a call `frame` of a method of `app`.
pub open spec fn scope_of(app: SavedApplication, frame: Frame, globals: Map<Id, Variable>) -> ScopeView {
    ScopeView {
        locals: app.methods@[frame.method].local_variables_pool.variables@,
        params: frame.params@,
        globals,
        layouts: app.layouts@,
        layout: frame.layout,
    }
}

/// The parameters of a call: those that the called method declares, with
/// the values of `args` resolved in the caller's `scope`, in order. An
/// argument for a parameter not declared is refused.
pub open spec fn bound_parameters(
    scope: ScopeView,
    declared: Map<Id, Variable>,
    args: Seq<Parameter>,
) -> Result<Map<Id, Variable>, EmulatorError>
    decreases args.len(),
{
    if args.len() == 0 {
        Ok(declared)
    } else {
        match bound_parameters(scope, declared, args.drop_last()) {
            Err(e) => Err(e),
            Ok(params) => {
                let arg = args.last();
                match scope.value_of(arg.value, arg.value.direct.value_type()) {
                    Err(e) => Err(e),
                    Ok(v) => if declared.contains_key(arg.id) {
                        Ok(params.insert(arg.id, Variable { value: v, ..declared[arg.id] }))
                    } else {
                        Err(EmulatorError::UnknownVariable(arg.id))
                    },
                }
            },
        }
    }
}

/// An error in binding the first arguments is the error of binding them all.
proof fn lemma_bound_parameters_error(
    scope: ScopeView,
    declared: Map<Id, Variable>,
    args: Seq<Parameter>,
    n: int,
)
    requires
        0 <= n <= args.len(),
        bound_parameters(scope, declared, args.take(n)) is Err,
    ensures
        bound_parameters(scope, declared, args) == bound_parameters(scope, declared, args.take(n)),
    decreases args.len() - n,
{
    if n < args.len() {
        let longer = args.take(n + 1);
        assert(longer.drop_last() =~= args.take(n));
        lemma_bound_parameters_error(scope, declared, args, n + 1);
    } else {
        assert(args.take(n) =~= args);
    }
}

/// The parameters of the call that the instruction of `frame` makes, where it
/// calls the method `callee`.
pub open spec fn call_parameters(
    app: SavedApplication,
    frame: Frame,
    globals: Map<Id, Variable>,
    callee: Id,
) -> Result<Map<Id, Variable>, EmulatorError> {
    match app.methods@[frame.method].instructions@[frame.line as int].command {
        Command::RunMethod { method, parameters } => if !app.methods@.contains_key(callee) {
            Err(EmulatorError::UnknownMethod(callee))
        } else {
            bound_parameters(
                scope_of(app, frame, globals),
                app.methods@[callee].parameters.variables@,
                parameters@,
            )
        },
        _ => Err(EmulatorError::UnsupportedCommand(CommandKind::RunMethod)),
    }
}

/// The method that `action` calls, where it is a call that is carried out.
pub open spec fn call_target(action: Action) -> Option<Id> {
    if action.skip {
        None
    } else {
        match action.execute {
            Execute::RunMethod { method } => Some(method),
            _ => None,
        }
    }
}

/// `frames` with the call `frame` of the method `callee` on top, which starts
/// at its first instruction with the parameters `params` and the layout that
/// `callee` declares.
pub open spec fn pushed_call(
    app: SavedApplication,
    frames: Seq<Frame>,
    after: Seq<Frame>,
    callee: Id,
    params: Map<Id, Variable>,
) -> bool {
    &&& after.len() == frames.len() + 1
    &&& after.drop_last() == frames
    &&& after.last().method == callee
    &&& after.last().line == 0
    &&& after.last().params@ == params
    &&& after.last().layout == app.methods@[callee].layout_id
}

/// The action for the next instruction of the call `frame`. A commented-out
/// instruction gives a skipped action whatever its command, with nothing
/// resolved.
pub open spec fn action_of(app: SavedApplication, frame: Frame, globals: Map<Id, Variable>) -> Result<
    Action,
    EmulatorError,
> {
    if !app.methods@.contains_key(frame.method) {
        Err(EmulatorError::UnknownMethod(frame.method))
    } else if frame.line >= app.methods@[frame.method].instructions@.len() {
        Err(EmulatorError::UnknownInstruction(frame.method, frame.line))
    } else {
        let instr = app.methods@[frame.method].instructions@[frame.line as int];
        if instr.is_comment {
            Ok(
                Action {
                    method: frame.method,
                    line: frame.line,
                    skip: true,
                    execute: Execute::Disabled { kind: instr.command.kind() },
                },
            )
        } else {
            match scope_of(app, frame, globals).execute_of(instr.command) {
                Err(e) => Err(e),
                Ok(execute) => Ok(
                    Action { method: frame.method, line: frame.line, skip: false, execute },
                ),
            }
        }
    }
}

/// `frames` with the top call moved on by one instruction.
pub open spec fn advanced(frames: Seq<Frame>) -> Seq<Frame> {
    let top = frames.last();
    frames.update(frames.len() - 1, Frame { line: (top.line + 1) as usize, ..top })
}

/// A call of a method without instructions is over before it starts: a
/// program whose start method is empty has no call left to run at the first
/// step.
pub proof fn empty_start_method_finishes(app: SavedApplication, frame: Frame)
    requires
        app.methods@.contains_key(app.start_method),
        app.methods@[app.start_method].instructions@.len() == 0,
        frame.method == app.start_method,
        frame.line == 0,
    ensures
        unwound(app, seq![frame]) == Ok::<Seq<Frame>, EmulatorError>(Seq::<Frame>::empty()),
{
    assert(seq![frame].drop_last() =~= Seq::<Frame>::empty());
    assert(unwound(app, Seq::<Frame>::empty()) == Ok::<Seq<Frame>, EmulatorError>(
        Seq::<Frame>::empty(),
    ));
}

/// A commented-out instruction gives a skipped action, whatever its command:
/// nothing of it is resolved, and `next` does not send it to the machine.
pub proof fn commented_instruction_is_skipped(
    app: SavedApplication,
    frame: Frame,
    globals: Map<Id, Variable>,
)
    requires
        app.methods@.contains_key(frame.method),
        frame.line < app.methods@[frame.method].instructions@.len(),
        app.methods@[frame.method].instructions@[frame.line as int].is_comment,
    ensures
        action_of(app, frame, globals) is Ok,
        action_of(app, frame, globals)->Ok_0.skip,
        action_of(app, frame, globals)->Ok_0.method == frame.method,
        action_of(app, frame, globals)->Ok_0.line == frame.line,
{
}

/// An instruction, not commented out, whose command is outside the supported
/// ones is refused with `UnsupportedCommand` before anything reaches the
/// machine (see `next`).
pub proof fn unsupported_instruction_is_refused(
    app: SavedApplication,
    frame: Frame,
    globals: Map<Id, Variable>,
)
    requires
        app.methods@.contains_key(frame.method),
        frame.line < app.methods@[frame.method].instructions@.len(),
        !app.methods@[frame.method].instructions@[frame.line as int].is_comment,
        !is_supported(app.methods@[frame.method].instructions@[frame.line as int].command.kind()),
    ensures
        action_of(app, frame, globals) == Err::<Action, EmulatorError>(
            EmulatorError::UnsupportedCommand(
                app.methods@[frame.method].instructions@[frame.line as int].command.kind(),
            ),
        ),
{
    let command = app.methods@[frame.method].instructions@[frame.line as int].command;
    unsupported_command_is_refused(scope_of(app, frame, globals), command);
}

/// An emulator on a simulated SciClone G3.
pub type ScicloneG3Emulator<'a> = Emulator<'a, ScicloneG3>;

/// Runs a program one instruction at a time on a machine of type `M`.
pub struct Emulator<'a, M: Machine> {
    app: &'a SavedApplication,
    machine: M,
    action_executed: Vec<Action>,
    global_variables: HashMap<Id, Variable>,
    frames: Vec<Frame>,
}

impl<'a, M: Machine> Emulator<'a, M> {
    pub closed spec fn app(&self) -> SavedApplication {
        *self.app
    }

    pub closed spec fn machine_state(&self) -> MachineState {
        self.machine.state()
    }

    /// The actions carried out so far, oldest first.
    pub closed spec fn history(&self) -> Seq<Action> {
        self.action_executed@
    }

    pub closed spec fn globals(&self) -> Map<Id, Variable> {
        self.global_variables@
    }

    /// The running calls, the innermost last.
    pub closed spec fn frames(&self) -> Seq<Frame> {
        self.frames@
    }

    /// An emulator at the start of `app`'s start method, with a machine in
    /// its initial state.
    pub fn new(app: &'a SavedApplication) -> (r: Result<Self, EmulatorError>)
        ensures
            match r {
                Ok(emu) => {
                    let start = app.start_method;
                    &&& app.methods@.contains_key(start)
                    &&& emu.app() == *app
                    &&& emu.machine_state() == MachineState::initial()
                    &&& emu.history().len() == 0
                    &&& emu.globals() == app.global_variables@
                    &&& emu.frames().len() == 1
                    &&& emu.frames()[0].method == start
                    &&& emu.frames()[0].line == 0
                    &&& emu.frames()[0].params@ == app.methods@[start].parameters.variables@
                    &&& emu.frames()[0].layout == app.methods@[start].layout_id
                },
                Err(e) => !app.methods@.contains_key(app.start_method) && e
                    == EmulatorError::UnknownMethod(app.start_method),
            },
    {
        let mut emu = Emulator {
            app,
            machine: M::new(),
            action_executed: Vec::new(),
            global_variables: app.global_variables().clone(),
            frames: Vec::new(),
        };
        emu.push_method(app.start_method())?;
        Ok(emu)
    }

    /// Starts a call of the method `method_id` with the parameters that it
    /// declares, bound to the layout that it declares.
    fn push_method(&mut self, method_id: Id) -> (r: Result<(), EmulatorError>)
        ensures
            final(self).app == old(self).app,
            final(self).machine == old(self).machine,
            final(self).action_executed == old(self).action_executed,
            final(self).global_variables == old(self).global_variables,
            match r {
                Ok(()) => {
                    let m = old(self).app.methods@[method_id];
                    &&& old(self).app.methods@.contains_key(method_id)
                    &&& final(self).frames@.len() == old(self).frames@.len() + 1
                    &&& final(self).frames@.drop_last() == old(self).frames@
                    &&& final(self).frames@.last().method == method_id
                    &&& final(self).frames@.last().line == 0
                    &&& final(self).frames@.last().params@ == m.parameters.variables@
                    &&& final(self).frames@.last().layout == m.layout_id
                },
                Err(e) => !old(self).app.methods@.contains_key(method_id) && e
                    == EmulatorError::UnknownMethod(method_id) && final(self).frames
                    == old(self).frames,
            },
    {
        let layout = match self.app.layout_of_method(method_id) {
            Some(l) => l,
            None => {
                return Err(EmulatorError::UnknownMethod(method_id));
            },
        };
        let params = match self.app.parameters_of_method(method_id) {
            Some(p) => p.clone(),
            None => {
                return Err(EmulatorError::UnknownMethod(method_id));
            },
        };
        self.frames.push(Frame { method: method_id, line: 0, params, layout });
        Ok(())
    }

    /// Drops the top call if its method has no instruction left.
    fn try_finish_method(&mut self) -> (r: Result<bool, EmulatorError>)
        ensures
            final(self).app == old(self).app,
            final(self).machine == old(self).machine,
            final(self).action_executed == old(self).action_executed,
            final(self).global_variables == old(self).global_variables,
            unwound(*old(self).app, old(self).frames@) == match r {
                Err(e) => Err(e),
                Ok(true) => unwound(*final(self).app, final(self).frames@),
                Ok(false) => Ok::<Seq<Frame>, EmulatorError>(final(self).frames@),
            },
            r == Ok::<bool, EmulatorError>(true) ==> final(self).frames@.len() < old(
                self,
            ).frames@.len(),
            r != Ok::<bool, EmulatorError>(true) ==> final(self).frames == old(self).frames,
            ({
                let frames = old(self).frames@;
                let top = frames.last();
                let methods = old(self).app.methods@;
                if frames.len() == 0 {
                    r == Ok::<bool, EmulatorError>(false)
                } else if !methods.contains_key(top.method) {
                    r == Err::<bool, EmulatorError>(EmulatorError::UnknownMethod(top.method))
                } else if top.line >= methods[top.method].instructions@.len() {
                    &&& r == Ok::<bool, EmulatorError>(true)
                    &&& final(self).frames@ == frames.drop_last()
                } else {
                    r == Ok::<bool, EmulatorError>(false)
                }
            }),
    {
        if self.frames.len() == 0 {
            return Ok(false);
        }
        let method_id = self.get_current_method()?;
        let current_instr = self.get_current_instruction()?;
        let instr_count = match self.app.instruction_count(method_id) {
            Some(n) => n,
            None => {
                return Err(EmulatorError::UnknownMethod(method_id));
            },
        };
        if current_instr >= instr_count {
            self.pop_method()?;
            Ok(true)
        } else {
            Ok(false)
        }
    }

    /// Ends the top call.
    fn pop_method(&mut self) -> (r: Result<(), EmulatorError>)
        ensures
            final(self).app == old(self).app,
            final(self).machine == old(self).machine,
            final(self).action_executed == old(self).action_executed,
            final(self).global_variables == old(self).global_variables,
            match r {
                Ok(()) => old(self).frames@.len() > 0 && final(self).frames@ == old(
                    self,
                ).frames@.drop_last(),
                Err(e) => old(self).frames@.len() == 0 && e == EmulatorError::EmptyExecutionStack
                    && final(self).frames == old(self).frames,
            },
    {
        if self.frames.len() == 0 {
            return Err(EmulatorError::EmptyExecutionStack);
        }
        let _ = self.frames.pop();
        assert(self.frames@ =~= old(self).frames@.drop_last());
        Ok(())
    }

    fn get_current_method(&self) -> (r: Result<Id, EmulatorError>)
        ensures
            match r {
                Ok(id) => self.frames@.len() > 0 && id == self.frames@.last().method,
                Err(e) => self.frames@.len() == 0 && e == EmulatorError::EmptyExecutionStack,
            },
    {
        match self.frames.last() {
            Some(f) => Ok(f.method),
            None => Err(EmulatorError::EmptyExecutionStack),
        }
    }

    fn get_current_instruction(&self) -> (r: Result<usize, EmulatorError>)
        ensures
            match r {
                Ok(line) => self.frames@.len() > 0 && line == self.frames@.last().line,
                Err(e) => self.frames@.len() == 0 && e == EmulatorError::EmptyExecutionStack,
            },
    {
        match self.frames.last() {
            Some(f) => Ok(f.line),
            None => Err(EmulatorError::EmptyExecutionStack),
        }
    }

    fn get_current_layout(&self) -> (r: Result<Id, EmulatorError>)
        ensures
            match r {
                Ok(id) => self.frames@.len() > 0 && id == self.frames@.last().layout,
                Err(e) => self.frames@.len() == 0 && e == EmulatorError::EmptyExecutionStack,
            },
    {
        match self.frames.last() {
            Some(f) => Ok(f.layout),
            None => Err(EmulatorError::EmptyExecutionStack),
        }
    }

    /// The action for the top call's next instruction.
    fn build_action(&self) -> (r: Result<Action, EmulatorError>)
        ensures
            self.frames@.len() == 0 ==> r == Err::<Action, EmulatorError>(
                EmulatorError::EmptyExecutionStack,
            ),
            self.frames@.len() > 0 ==> r == action_of(
                *self.app,
                self.frames@.last(),
                self.global_variables@,
            ),
    {
        let method_id = self.get_current_method()?;
        let current_line = self.get_current_instruction()?;
        let layout = self.get_current_layout()?;
        if !self.app.has_method(method_id) {
            return Err(EmulatorError::UnknownMethod(method_id));
        }
        let instr = match self.app.instruction(method_id, current_line) {
            Some(i) => i,
            None => {
                return Err(EmulatorError::UnknownInstruction(method_id, current_line));
            },
        };
        if instr.is_comment {
            let kind = instr.command.kind();
            return Ok(
                Action {
                    method: method_id,
                    line: current_line,
                    skip: true,
                    execute: Execute::Disabled { kind },
                },
            );
        }
        let locals = match self.app.local_variables_of_method(method_id) {
            Some(l) => l,
            None => {
                return Err(EmulatorError::UnknownMethod(method_id));
            },
        };
        let frame = &self.frames[self.frames.len() - 1];
        let scope = Scope {
            locals,
            params: &frame.params,
            globals: &self.global_variables,
            layouts: self.app.layouts(),
            layout,
        };
        let execute = scope.build_execute(&instr.command)?;
        Ok(Action { method: method_id, line: current_line, skip: false, execute })
    }

    /// The frame of the call that the top call's instruction makes to the
    /// method `callee`.
    fn bind_call(&self, callee: Id) -> (r: Result<Frame, EmulatorError>)
        requires
            self.frames@.len() > 0,
            self.app.methods@.contains_key(self.frames@.last().method),
            self.frames@.last().line < self.app.methods@[self.frames@.last().method].instructions@.len(),
        ensures
            match r {
                Ok(f) => {
                    &&& call_parameters(
                        *self.app,
                        self.frames@.last(),
                        self.global_variables@,
                        callee,
                    ) == Ok::<Map<Id, Variable>, EmulatorError>(f.params@)
                    &&& f.method == callee
                    &&& f.line == 0
                    &&& f.layout == self.app.methods@[callee].layout_id
                },
                Err(e) => call_parameters(
                    *self.app,
                    self.frames@.last(),
                    self.global_variables@,
                    callee,
                ) == Err::<Map<Id, Variable>, EmulatorError>(e),
            },
    {
        let frame = &self.frames[self.frames.len() - 1];
        let instr = match self.app.instruction(frame.method, frame.line) {
            Some(i) => i,
            None => {
                return Err(EmulatorError::UnknownInstruction(frame.method, frame.line));
            },
        };
        let args = match &instr.command {
            Command::RunMethod { method: _, parameters } => parameters,
            _ => {
                return Err(EmulatorError::UnsupportedCommand(CommandKind::RunMethod));
            },
        };
        let declared = match self.app.parameters_of_method(callee) {
            Some(p) => p,
            None => {
                return Err(EmulatorError::UnknownMethod(callee));
            },
        };
        let layout = match self.app.layout_of_method(callee) {
            Some(l) => l,
            None => {
                return Err(EmulatorError::UnknownMethod(callee));
            },
        };
        let locals = match self.app.local_variables_of_method(frame.method) {
            Some(l) => l,
            None => {
                return Err(EmulatorError::UnknownMethod(frame.method));
            },
        };
        let scope = Scope {
            locals,
            params: &frame.params,
            globals: &self.global_variables,
            layouts: self.app.layouts(),
            layout: frame.layout,
        };
        assert(scope@ == scope_of(*self.app, self.frames@.last(), self.global_variables@));
        assert(call_parameters(*self.app, self.frames@.last(), self.global_variables@, callee)
            == bound_parameters(scope@, declared@, args@));
        let mut params = declared.clone();
        let mut i: usize = 0;
        while i < args.len()
            invariant
                0 <= i <= args@.len(),
                call_parameters(*self.app, self.frames@.last(), self.global_variables@, callee)
                    == bound_parameters(scope@, declared@, args@),
                bound_parameters(scope@, declared@, args@.take(i as int)) == Ok::<
                    Map<Id, Variable>,
                    EmulatorError,
                >(params@),
            decreases args@.len() - i,
        {
            let arg = &args[i];
            assert(args@.take(i + 1).drop_last() =~= args@.take(i as int));
            assert(args@.take(i + 1).last() == args@[i as int]);
            let value = match scope.resolve_value(&arg.value, arg.value.direct.value_type()) {
                Ok(v) => v,
                Err(e) => {
                    proof {
                        assert(bound_parameters(scope@, declared@, args@.take(i + 1)) == Err::<
                            Map<Id, Variable>,
                            EmulatorError,
                        >(e));
                        lemma_bound_parameters_error(scope@, declared@, args@, i + 1);
                    }
                    return Err(e);
                },
            };
            match declared.get(&arg.id) {
                Some(d) => {
                    let bound = Variable { designation: d.designation.clone(), id: d.id, value: value.copy() };
                    params.insert(arg.id, bound);
                },
                None => {
                    proof {
                        assert(bound_parameters(scope@, declared@, args@.take(i + 1)) == Err::<
                            Map<Id, Variable>,
                            EmulatorError,
                        >(EmulatorError::UnknownVariable(arg.id)));
                        lemma_bound_parameters_error(scope@, declared@, args@, i + 1);
                    }
                    return Err(EmulatorError::UnknownVariable(arg.id));
                },
            }
            i = i + 1;
        }
        assert(args@.take(args@.len() as int) =~= args@);
        Ok(Frame { method: callee, line: 0, params, layout })
    }

    /// Sends `action` to the machine unless it is a comment.
    fn execute_action(&mut self, action: &Action) -> (r: Result<(), EmulatorError>)
        ensures
            final(self).app == old(self).app,
            final(self).action_executed == old(self).action_executed,
            final(self).global_variables == old(self).global_variables,
            final(self).frames == old(self).frames,
            action.skip ==> r == Ok::<(), EmulatorError>(()) && final(self).machine
                == old(self).machine,
            !action.skip ==> {
                let (s, res) = old(self).machine.state().step(action.execute);
                &&& final(self).machine.state() == s
                &&& r == match res {
                    Ok(()) => Ok::<(), EmulatorError>(()),
                    Err(e) => Err(EmulatorError::MachineError(e)),
                }
            },
    {
        if action.skip {
            return Ok(());
        }
        match self.machine.execute(&action.execute) {
            Ok(()) => Ok(()),
            Err(e) => Err(EmulatorError::MachineError(e)),
        }
    }

    /// Carries out the next instruction, after ending every call that has
    /// none left. Returns the action recorded, or `None` once no call is left.
    /// A call of a method starts a new call on top once the caller has moved
    /// on. After an error the emulator's state is unspecified, but for the
    /// machine, which is left untouched by an error found before dispatch.
    pub fn next(&mut self) -> (r: Result<Option<&Action>, EmulatorError>)
        ensures
            final(self).app() == old(self).app(),
            final(self).globals() == old(self).globals(),
            match unwound(old(self).app(), old(self).frames()) {
                Err(e) => {
                    &&& r == Err::<Option<&Action>, EmulatorError>(e)
                    &&& final(self).machine_state() == old(self).machine_state()
                    &&& final(self).history() == old(self).history()
                },
                Ok(frames) => if frames.len() == 0 {
                    &&& r == Ok::<Option<&Action>, EmulatorError>(None)
                    &&& final(self).frames() == frames
                    &&& final(self).history() == old(self).history()
                    &&& final(self).machine_state() == old(self).machine_state()
                } else {
                    let app = old(self).app();
                    let globals = old(self).globals();
                    match action_of(app, frames.last(), globals) {
                        Err(e) => {
                            &&& r == Err::<Option<&Action>, EmulatorError>(e)
                            &&& final(self).machine_state() == old(self).machine_state()
                            &&& final(self).history() == old(self).history()
                        },
                        Ok(action) => {
                            let (s, res) = old(self).machine_state().step(action.execute);
                            let call = match call_target(action) {
                                Some(callee) => call_parameters(app, frames.last(), globals, callee),
                                None => Ok(Map::empty()),
                            };
                            if call is Err {
                                &&& r == Err::<Option<&Action>, EmulatorError>(call->Err_0)
                                &&& final(self).machine_state() == old(self).machine_state()
                                &&& final(self).history() == old(self).history()
                            } else if !action.skip && res is Err {
                                &&& r == Err::<Option<&Action>, EmulatorError>(
                                    EmulatorError::MachineError(res->Err_0),
                                )
                                &&& final(self).machine_state() == s
                                &&& final(self).history() == old(self).history()
                            } else {
                                &&& r is Ok && r->Ok_0 is Some
                                &&& *r->Ok_0->Some_0 == action
                                &&& final(self).history() == old(self).history().push(action)
                                &&& final(self).machine_state() == if action.skip {
                                    old(self).machine_state()
                                } else {
                                    s
                                }
                                &&& match call_target(action) {
                                    Some(callee) => pushed_call(
                                        app,
                                        advanced(frames),
                                        final(self).frames(),
                                        callee,
                                        call->Ok_0,
                                    ),
                                    None => final(self).frames() == advanced(frames),
                                }
                            }
                        },
                    }
                },
            },
    {
        // Several calls may end at once, where a call was the last
        // instruction of its caller.
        loop
            invariant
                self.app == old(self).app,
                self.machine == old(self).machine,
                self.action_executed == old(self).action_executed,
                self.global_variables == old(self).global_variables,
                unwound(*old(self).app, old(self).frames@) == unwound(*self.app, self.frames@),
            ensures
                unwound(*self.app, self.frames@) == Ok::<Seq<Frame>, EmulatorError>(self.frames@),
            decreases self.frames@.len(),
        {
            if !self.try_finish_method()? {
                break;
            }
        }
        if self.done() {
            return Ok(None);
        }
        let ghost running = self.frames@;
        let action = self.build_action()?;
        let call = match &action.execute {
            Execute::RunMethod { method } => {
                if action.skip {
                    None
                } else {
                    Some(self.bind_call(*method)?)
                }
            },
            _ => None,
        };
        self.execute_action(&action)?;
        let mut top = match self.frames.pop() {
            Some(f) => f,
            None => {
                return Err(EmulatorError::EmptyExecutionStack);
            },
        };
        assert(top.line < self.app.methods@[top.method].instructions.len());
        top.line = top.line + 1;
        self.frames.push(top);
        assert(self.frames@ =~= advanced(running));
        self.action_executed.push(action);
        match call {
            Some(frame) => {
                self.frames.push(frame);
                assert(self.frames@.drop_last() =~= advanced(running));
            },
            None => {},
        }
        let n = self.action_executed.len();
        Ok(Some(&self.action_executed[n - 1]))
    }

    /// The machine the program runs on.
    pub fn machine(&self) -> (r: &M)
        ensures
            r.state() == self.machine_state(),
    {
        &self.machine
    }

    /// The running calls, the innermost last.
    pub fn call_stack(&self) -> (r: &Vec<Frame>)
        ensures
            r@ == self.frames(),
    {
        &self.frames
    }

    /// The actions carried out so far, oldest first.
    pub fn actions(&self) -> (r: &Vec<Action>)
        ensures
            r@ == self.history(),
    {
        &self.action_executed
    }

    /// The global variables, copied from the program when the emulator
    /// was made.
    pub fn global_variables(&self) -> (r: &HashMap<Id, Variable>)
        ensures
            r@ == self.globals(),
    {
        &self.global_variables
    }

    /// Whether no call is left to run.
    pub fn done(&self) -> (r: bool)
        ensures
            r == (self.frames().len() == 0),
    {
        self.frames.len() == 0
    }
}

} // verus!
