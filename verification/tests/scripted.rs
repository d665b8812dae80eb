use std::cell::RefCell;

use marlua::button::Button;
use marlua::error::ScriptError;
use marlua::lifecycle::{Action, Phase, ScriptThread};
use marlua::register::InputRegister;
use marlua::sandbox::{bindings, new_interpreter, PrimitiveKind};
use marlua::script::{self, split_last_argument, Plan};
use rlua::{FromLua, FromLuaMulti, MultiValue, Value, Variadic};

/// A host without emulator and clock: it records what the simulation would
/// read in each tick.
struct Recorder {
    register: InputRegister,
    shown: u8,
    ticks: Vec<u8>,
}

impl Recorder {
    fn new() -> Recorder {
        Recorder { register: InputRegister::new(), shown: 0, ticks: Vec::new() }
    }

    fn carry_out(&mut self, plan: Plan) {
        self.shown = plan.held.bits();
        for _ in 0..plan.ticks {
            self.ticks.push(self.shown);
        }
        self.shown = plan.settled.bits();
    }
}

fn call(
    recorder: &RefCell<Recorder>,
    primitive: impl FnOnce(&mut InputRegister) -> Result<Plan, ScriptError>,
) -> rlua::Result<()> {
    let mut recorder = recorder.borrow_mut();
    let plan = primitive(&mut recorder.register)
        .map_err(|error| rlua::Error::external(format!("{:?}", error)))?;
    recorder.carry_out(plan);
    Ok(())
}

fn run(source: &str) -> (Recorder, Result<(), String>) {
    let recorder = RefCell::new(Recorder::new());
    let interpreter = new_interpreter();
    let result = interpreter.context(|context| {
        context.scope(|scope| {
            let globals = context.globals();
            for kind in bindings() {
                let function = match kind {
                    PrimitiveKind::Wait => scope.create_function(|_, (ticks,): (u32,)| {
                        let mut recorder = recorder.borrow_mut();
                        let plan = script::wait(&recorder.register, ticks);
                        recorder.carry_out(plan);
                        Ok(())
                    })?,
                    PrimitiveKind::Toggle => {
                        scope.create_function(|_, names: Variadic<String>| {
                            call(&recorder, |register| script::toggle(register, &names))
                        })?
                    }
                    PrimitiveKind::Press => scope.create_function(|_, names: Variadic<String>| {
                        call(&recorder, |register| script::press(register, &names))
                    })?,
                    PrimitiveKind::Release => {
                        scope.create_function(|_, names: Variadic<String>| {
                            call(&recorder, |register| script::release(register, &names))
                        })?
                    }
                    PrimitiveKind::Hold => {
                        scope.create_function(|context, arguments: MultiValue| {
                            let (buttons, ticks) = split_last_argument(arguments.into_vec());
                            let buttons = MultiValue::from_vec(buttons);
                            let names = Variadic::<String>::from_lua_multi(buttons, context)?;
                            let ticks = u32::from_lua(ticks.unwrap_or(Value::Nil), context)?;
                            call(&recorder, |register| script::hold(register, &names, ticks))
                        })?
                    }
                };
                globals.set(kind.name(), function)?;
            }
            context.load(source).exec()
        })
    });
    (recorder.into_inner(), result.map_err(describe))
}

/// The text of the innermost cause of a script failure.
fn describe(error: rlua::Error) -> String {
    let mut cause = &error;
    loop {
        match cause {
            rlua::Error::CallbackError { cause: inner, .. } => cause = inner.as_ref(),
            rlua::Error::ExternalError(inner) => return inner.to_string(),
            other => return other.to_string(),
        }
    }
}

#[test]
fn script_holds_a_button_for_five_ticks() {
    let (recorder, result) = run("hold('A', 5)");
    assert_eq!(result, Ok(()));
    assert_eq!(recorder.ticks, vec![0x01; 5]);
    assert_eq!(recorder.shown, 0x00);
    assert!(!recorder.register.is_pressed(Button::A));
}

#[test]
fn script_choreographs_input_against_ticks() {
    let (recorder, result) = run(
        "press('right', 'run')\n\
         wait(3)\n\
         hold('jump', 2)\n\
         toggle('Left')\n\
         wait(1)\n\
         release('B', 'L')\n\
         wait(2)\n",
    );
    assert_eq!(result, Ok(()));
    assert_eq!(recorder.ticks, vec![0x82, 0x82, 0x82, 0x83, 0x83, 0x42, 0x00, 0x00]);
    assert_eq!(recorder.register.bits(), 0x00);
}

#[test]
fn script_without_primitive_calls_runs_no_tick() {
    let (recorder, result) = run("local x = 1 + 1");
    assert_eq!(result, Ok(()));
    assert!(recorder.ticks.is_empty());
    assert_eq!(recorder.register, InputRegister::new());
}

#[test]
fn unknown_button_fails_the_call_and_the_script_can_go_on() {
    let (recorder, result) = run(
        "press('A')\n\
         local ok, message = pcall(press, 'B', 'Z')\n\
         assert(not ok)\n\
         assert(string.find(tostring(message), 'InvalidButtonName'))\n\
         wait(2)\n",
    );
    assert_eq!(result, Ok(()));
    assert_eq!(recorder.ticks, vec![0x01, 0x01]);
}

#[test]
fn uncaught_unknown_button_ends_the_script() {
    let (recorder, result) = run("press('A')\nwait(1)\ntoggle('Z')\nwait(5)\n");
    let message = result.unwrap_err();
    assert!(message.contains("InvalidButtonName"));
    assert_eq!(recorder.ticks, vec![0x01]);
    assert_eq!(recorder.register.bits(), 0x01);
}

#[test]
fn script_that_does_not_parse_runs_nothing() {
    let (recorder, result) = run("press('A'");
    assert!(result.is_err());
    assert!(recorder.ticks.is_empty());
    assert_eq!(recorder.register.bits(), 0x00);
}

#[test]
fn script_cannot_reach_files_or_the_process() {
    let (_, result) = run("assert(io == nil and os == nil and debug == nil)");
    assert_eq!(result, Ok(()));
    let (_, result) = run("io.open('script/mock.lua')");
    assert!(result.is_err());
    let (_, result) = run("os.exit(1)");
    assert!(result.is_err());
}

#[test]
fn thread_runs_free_after_the_script() {
    let mut thread = ScriptThread::new();
    let mut actions = 0usize;
    let mut published = 0usize;
    let mut ticks = 0usize;
    while ticks < 120 {
        actions += 1;
        match thread.next_action() {
            Action::Advance(_) => assert_eq!(thread.phase(), Phase::Bootstrapping),
            Action::Publish => published += 1,
            Action::RunScript => {
                let (_, result) = run("");
                thread.finish_script(result.map_err(ScriptError::ScriptFailed));
            }
            Action::Tick => {
                ticks += 1;
                published += 1;
            }
        }
    }
    assert_eq!(actions, 171 + 1 + 1 + 120);
    assert_eq!(published, 121);
    assert_eq!(thread.outcome(), Some(&Ok(())));
    assert_eq!(thread.phase(), Phase::FreeRunning);
}
