//! The script primitives: `wait`, `toggle`, `press`, `release` and `hold`.
//!
//! A primitive call changes the input register and tells the host how many
//! paced ticks to run. The answer is a `Plan`: show the simulation the register
//! value `held`, run `ticks` paced ticks, each of which advances the simulation
//! and publishes a frame, then show it the value `settled`. The register that
//! the caller handed in holds `settled` when the call returns.
//!
//! `hold` is `toggle`, `wait`, `toggle`. It presses the named buttons for the
//! given ticks and releases them again only if they were released before the
//! call; it does not check that they were.

use vstd::prelude::*;
use crate::button::{button_of, is_button_name, opposite_of, Button};
use crate::error::ScriptError;
use crate::register::{
    lemma_single_button, pressed_all, released_all, toggled, toggled_all, InputRegister,
};

verus! {

/// One call of a script primitive, with its button names already resolved.
#[derive(Clone, Debug, PartialEq, Eq)]
pub enum Primitive {
    /// Run the given number of ticks and leave the register alone.
    Wait(u32),
    /// Toggle the buttons, in order.
    Toggle(Vec<Button>),
    /// Press the buttons, in order.
    Press(Vec<Button>),
    /// Release the buttons, in order.
    Release(Vec<Button>),
    /// Toggle the buttons, run the given number of ticks, toggle them again.
    Hold(Vec<Button>, u32),
}

/// What the host does for one primitive call.
#[derive(Clone, Copy, Debug, PartialEq, Eq)]
pub struct Plan {
    /// The register value that the simulation reads during the ticks.
    pub held: InputRegister,
    /// The number of paced ticks to run.
    pub ticks: u32,
    /// The register value after the ticks.
    pub settled: InputRegister,
}

/// The mathematical content of a `Plan`.
pub ghost struct Course {
    /// The buttons that the simulation reads as held during the ticks.
    pub held: Set<Button>,
    /// The number of paced ticks.
    pub ticks: nat,
    /// The buttons that are held after the ticks.
    pub settled: Set<Button>,
}

impl View for Plan {
    type V = Course;

    open spec fn view(&self) -> Course {
        Course { held: self.held@, ticks: self.ticks as nat, settled: self.settled@ }
    }
}

/// The course that runs no tick and leaves `held` in the register.
pub open spec fn at_once(held: Set<Button>) -> Course {
    Course { held, ticks: 0, settled: held }
}

/// The course of `wait(ticks)` on a register that holds `held`.
pub open spec fn wait_course(held: Set<Button>, ticks: nat) -> Course {
    Course { held, ticks, settled: held }
}

/// The course of `hold(buttons, ticks)` on a register that holds `held`.
pub open spec fn hold_course(held: Set<Button>, buttons: Seq<Button>, ticks: nat) -> Course {
    Course {
        held: toggled_all(held, buttons),
        ticks,
        settled: toggled_all(toggled_all(held, buttons), buttons),
    }
}

/// The course of any primitive call on a register that holds `held`.
pub open spec fn course_of(held: Set<Button>, primitive: Primitive) -> Course {
    match primitive {
        Primitive::Wait(ticks) => wait_course(held, ticks as nat),
        Primitive::Toggle(buttons) => at_once(toggled_all(held, buttons@)),
        Primitive::Press(buttons) => at_once(pressed_all(held, buttons@)),
        Primitive::Release(buttons) => at_once(released_all(held, buttons@)),
        Primitive::Hold(buttons, ticks) => hold_course(held, buttons@, ticks as nat),
    }
}

/// What the simulation reads while a course is carried out: the held buttons,
/// once per tick.
pub open spec fn readings(course: Course) -> Seq<Set<Button>> {
    Seq::new(course.ticks, |tick: int| course.held)
}

/// Whether every one of `names` denotes a button.
pub open spec fn all_button_names(names: Seq<String>) -> bool {
    forall|i: int| 0 <= i < names.len() ==> is_button_name(#[trigger] names[i]@)
}

/// The buttons that `names` denote, in order.
pub open spec fn buttons_of(names: Seq<String>) -> Seq<Button> {
    Seq::new(names.len(), |i: int| button_of(names[i]@))
}

/// Whether `names[k]` is the first of `names` that denotes no button.
pub open spec fn is_first_unknown(names: Seq<String>, k: int) -> bool {
    &&& 0 <= k < names.len()
    &&& !is_button_name(names[k]@)
    &&& forall|i: int| 0 <= i < k ==> is_button_name(#[trigger] names[i]@)
}

/// Whether `error` reports the first of `names` that denotes no button.
pub open spec fn reports_first_unknown(names: Seq<String>, error: ScriptError) -> bool {
    exists|k: int|
        is_first_unknown(names, k) && (error matches ScriptError::InvalidButtonName(text)
            && text@ == names[k]@)
}

/// Resolves every name of a primitive call. One name that denotes no button
/// fails the whole call, and the first such name is reported.
pub fn resolve_all(names: &[String]) -> (buttons: Result<Vec<Button>, ScriptError>)
    ensures
        all_button_names(names@) ==> (buttons matches Ok(found) && found@ == buttons_of(names@)),
        !all_button_names(names@) ==> (buttons matches Err(error) && reports_first_unknown(
            names@,
            error,
        )),
{
    let mut found: Vec<Button> = Vec::with_capacity(names.len());
    let mut i: usize = 0;
    while i < names.len()
        invariant
            i <= names@.len(),
            found@.len() == i,
            forall|k: int| 0 <= k < i ==> is_button_name(#[trigger] names@[k]@),
            forall|k: int| 0 <= k < i ==> found@[k] == button_of(names@[k]@),
        decreases names@.len() - i,
    {
        match Button::resolve(names[i].as_str()) {
            Ok(button) => {
                found.push(button);
            },
            Err(error) => {
                assert(is_first_unknown(names@, i as int));
                return Err(error);
            },
        }
        i = i + 1;
    }
    assert(found@ =~= buttons_of(names@));
    Ok(found)
}

/// Carries out one primitive call on `register` and says what the host has to
/// do for it.
pub fn perform(register: &mut InputRegister, primitive: &Primitive) -> (plan: Plan)
    ensures
        plan@ == course_of(old(register)@, *primitive),
        final(register)@ == plan@.settled,
{
    match primitive {
        Primitive::Wait(ticks) => Plan { held: *register, ticks: *ticks, settled: *register },
        Primitive::Toggle(buttons) => {
            register.toggle(buttons.as_slice());
            Plan { held: *register, ticks: 0, settled: *register }
        },
        Primitive::Press(buttons) => {
            register.press(buttons.as_slice());
            Plan { held: *register, ticks: 0, settled: *register }
        },
        Primitive::Release(buttons) => {
            register.release(buttons.as_slice());
            Plan { held: *register, ticks: 0, settled: *register }
        },
        Primitive::Hold(buttons, ticks) => {
            register.toggle(buttons.as_slice());
            let held = *register;
            register.toggle(buttons.as_slice());
            Plan { held, ticks: *ticks, settled: *register }
        },
    }
}

/// `wait(ticks)`: runs `ticks` paced ticks and leaves the register unchanged.
pub fn wait(register: &InputRegister, ticks: u32) -> (plan: Plan)
    ensures
        plan@ == wait_course(register@, ticks as nat),
{
    Plan { held: *register, ticks, settled: *register }
}

/// `toggle(names...)`: toggles the named buttons at once, in no tick.
///
/// A name that denotes no button fails the call and leaves the register as
/// it was.
pub fn toggle(register: &mut InputRegister, names: &[String]) -> (plan: Result<
    Plan,
    ScriptError,
>)
    ensures
        all_button_names(names@) ==> (plan matches Ok(done) && done@ == at_once(
            toggled_all(old(register)@, buttons_of(names@)),
        ) && final(register)@ == done@.settled),
        !all_button_names(names@) ==> (plan matches Err(error) && reports_first_unknown(
            names@,
            error,
        ) && final(register)@ == old(register)@),
{
    match resolve_all(names) {
        Ok(buttons) => Ok(perform(register, &Primitive::Toggle(buttons))),
        Err(error) => Err(error),
    }
}

/// `press(names...)`: presses the named buttons at once, in no tick.
///
/// A name that denotes no button fails the call and leaves the register as
/// it was.
pub fn press(register: &mut InputRegister, names: &[String]) -> (plan: Result<
    Plan,
    ScriptError,
>)
    ensures
        all_button_names(names@) ==> (plan matches Ok(done) && done@ == at_once(
            pressed_all(old(register)@, buttons_of(names@)),
        ) && final(register)@ == done@.settled),
        !all_button_names(names@) ==> (plan matches Err(error) && reports_first_unknown(
            names@,
            error,
        ) && final(register)@ == old(register)@),
{
    match resolve_all(names) {
        Ok(buttons) => Ok(perform(register, &Primitive::Press(buttons))),
        Err(error) => Err(error),
    }
}

/// `release(names...)`: releases the named buttons at once, in no tick.
///
/// A name that denotes no button fails the call and leaves the register as
/// it was.
pub fn release(register: &mut InputRegister, names: &[String]) -> (plan: Result<
    Plan,
    ScriptError,
>)
    ensures
        all_button_names(names@) ==> (plan matches Ok(done) && done@ == at_once(
            released_all(old(register)@, buttons_of(names@)),
        ) && final(register)@ == done@.settled),
        !all_button_names(names@) ==> (plan matches Err(error) && reports_first_unknown(
            names@,
            error,
        ) && final(register)@ == old(register)@),
{
    match resolve_all(names) {
        Ok(buttons) => Ok(perform(register, &Primitive::Release(buttons))),
        Err(error) => Err(error),
    }
}

/// `hold(names..., ticks)`: toggles the named buttons, runs `ticks` paced
/// ticks, and toggles the buttons again.
///
/// A name that denotes no button fails the call and leaves the register as
/// it was.
pub fn hold(register: &mut InputRegister, names: &[String], ticks: u32) -> (plan: Result<
    Plan,
    ScriptError,
>)
    ensures
        all_button_names(names@) ==> (plan matches Ok(done) && done@ == hold_course(
            old(register)@,
            buttons_of(names@),
            ticks as nat,
        ) && final(register)@ == done@.settled),
        !all_button_names(names@) ==> (plan matches Err(error) && reports_first_unknown(
            names@,
            error,
        ) && final(register)@ == old(register)@),
{
    match resolve_all(names) {
        Ok(buttons) => Ok(perform(register, &Primitive::Hold(buttons, ticks))),
        Err(error) => Err(error),
    }
}

/// Splits the arguments of `hold` into the leading button arguments and the
/// trailing tick count. Without any argument there is no tick count.
pub fn split_last_argument<T>(arguments: Vec<T>) -> (parts: (Vec<T>, Option<T>))
    ensures
        arguments@.len() == 0 ==> parts.0@ == arguments@ && parts.1.is_none(),
        arguments@.len() > 0 ==> parts.0@ == arguments@.drop_last() && parts.1 == Some(
            arguments@.last(),
        ),
{
    let mut leading = arguments;
    let last = leading.pop();
    (leading, last)
}

/// `hold` of one button that is released before the call runs exactly `ticks`
/// ticks, shows the simulation the button held in every one of them, and
/// leaves the button released.
pub proof fn lemma_hold_presses_then_releases(held: Set<Button>, button: Button, ticks: nat)
    requires
        !held.contains(button),
    ensures
        hold_course(held, seq![button], ticks).ticks == ticks,
        readings(hold_course(held, seq![button], ticks)).len() == ticks,
        forall|tick: int|
            0 <= tick < ticks ==> (#[trigger] readings(
                hold_course(held, seq![button], ticks),
            )[tick]).contains(button),
        !hold_course(held, seq![button], ticks).settled.contains(button),
{
    lemma_single_button(held, button);
    lemma_single_button(toggled(held, button), button);
}

/// Whether the opposite direction of `button`, if it has one, is released.
pub open spec fn rival_released(held: Set<Button>, button: Button) -> bool {
    match opposite_of(button) {
        Some(rival) => !held.contains(rival),
        None => true,
    }
}

/// Whether no button occurs twice in `buttons` and no two of them are
/// opposite directions.
pub open spec fn independent(buttons: Seq<Button>) -> bool {
    forall|i: int, j: int|
        0 <= i < j < buttons.len() ==> buttons[i] != buttons[j] && opposite_of(buttons[i]) != Some(
            buttons[j],
        )
}

/// What `hold` expects of its caller: the listed buttons and their opposite
/// directions are all released, and the list is independent.
pub open spec fn ready_to_hold(held: Set<Button>, buttons: Seq<Button>) -> bool {
    &&& independent(buttons)
    &&& forall|i: int|
        0 <= i < buttons.len() ==> !held.contains(#[trigger] buttons[i]) && rival_released(
            held,
            buttons[i],
        )
}

/// Toggling an independent list of released buttons presses them all and
/// changes no other button.
proof fn lemma_toggle_presses_released(held: Set<Button>, buttons: Seq<Button>, seen: Button)
    requires
        ready_to_hold(held, buttons),
    ensures
        toggled_all(held, buttons).contains(seen) == (buttons.contains(seen) || held.contains(
            seen,
        )),
    decreases buttons.len(),
{
    if buttons.len() > 0 {
        let earlier = buttons.drop_last();
        let last = buttons.last();
        let end = buttons.len() - 1;
        assert forall|i: int| 0 <= i < earlier.len() implies earlier[i] == buttons[i] by {}
        assert(ready_to_hold(held, earlier));
        lemma_toggle_presses_released(held, earlier, seen);
        lemma_toggle_presses_released(held, earlier, last);
        assert(buttons[end] == last);
        if earlier.contains(seen) {
            let i = choose|i: int| 0 <= i < earlier.len() && earlier[i] == seen;
            assert(buttons[i] == seen);
            assert(buttons[i] != buttons[end] && opposite_of(buttons[i]) != Some(buttons[end]));
        }
        if earlier.contains(last) {
            let i = choose|i: int| 0 <= i < earlier.len() && earlier[i] == last;
            assert(buttons[i] != buttons[end]);
        }
        if buttons.contains(seen) && seen != last {
            let i = choose|i: int| 0 <= i < buttons.len() && buttons[i] == seen;
            assert(earlier[i] == seen);
        }
    } else {
        assert(!buttons.contains(seen));
    }
}

/// Toggling an independent list of held buttons, whose opposite directions
/// are released, releases them all and changes no other button.
proof fn lemma_toggle_releases_held(held: Set<Button>, buttons: Seq<Button>, seen: Button)
    requires
        independent(buttons),
        forall|i: int|
            0 <= i < buttons.len() ==> held.contains(#[trigger] buttons[i]) && rival_released(
                held,
                buttons[i],
            ),
    ensures
        toggled_all(held, buttons).contains(seen) == (held.contains(seen) && !buttons.contains(
            seen,
        )),
    decreases buttons.len(),
{
    if buttons.len() > 0 {
        let earlier = buttons.drop_last();
        let last = buttons.last();
        let end = buttons.len() - 1;
        assert forall|i: int| 0 <= i < earlier.len() implies earlier[i] == buttons[i] by {}
        assert(independent(earlier));
        lemma_toggle_releases_held(held, earlier, seen);
        lemma_toggle_releases_held(held, earlier, last);
        assert(buttons[end] == last);
        if earlier.contains(last) {
            let i = choose|i: int| 0 <= i < earlier.len() && earlier[i] == last;
            assert(buttons[i] != buttons[end]);
        }
        if buttons.contains(seen) && seen != last {
            let i = choose|i: int| 0 <= i < buttons.len() && buttons[i] == seen;
            assert(earlier[i] == seen);
        }
        if earlier.contains(seen) {
            let i = choose|i: int| 0 <= i < earlier.len() && earlier[i] == seen;
            assert(buttons[i] == seen);
        }
    } else {
        assert(!buttons.contains(seen));
    }
}

/// `hold` is press, wait, release for a caller that keeps its side: when the
/// listed buttons and their opposite directions are released before the call
/// and the list is independent, the simulation reads the listed buttons held,
/// and every other button as before, in each of exactly `ticks` ticks, and
/// the register ends as it began.
pub proof fn lemma_hold_is_press_wait_release(held: Set<Button>, buttons: Seq<Button>, ticks: nat)
    requires
        ready_to_hold(held, buttons),
    ensures
        readings(hold_course(held, buttons, ticks)).len() == ticks,
        forall|tick: int|
            0 <= tick < ticks ==> #[trigger] readings(hold_course(held, buttons, ticks))[tick]
                == held.union(buttons.to_set()),
        hold_course(held, buttons, ticks).settled == held,
{
    let during = toggled_all(held, buttons);
    let settled = toggled_all(during, buttons);
    assert forall|button: Button|
        during.contains(button) == (buttons.contains(button) || held.contains(button)) by {
        lemma_toggle_presses_released(held, buttons, button);
    }
    assert(during =~= held.union(buttons.to_set()));
    assert forall|i: int| 0 <= i < buttons.len() implies during.contains(#[trigger] buttons[i])
        && rival_released(during, buttons[i]) by {
        match opposite_of(buttons[i]) {
            Some(rival) => {
                if buttons.contains(rival) {
                    let j = choose|j: int| 0 <= j < buttons.len() && buttons[j] == rival;
                    assert(opposite_of(buttons[j]) == Some(buttons[i]));
                    assert(i != j);
                }
            },
            None => {},
        }
    }
    assert forall|button: Button| settled.contains(button) == held.contains(button) by {
        lemma_toggle_releases_held(during, buttons, button);
        if buttons.contains(button) {
            let i = choose|i: int| 0 <= i < buttons.len() && buttons[i] == button;
            assert(!held.contains(buttons[i]));
        }
    }
    assert(settled =~= held);
}

/// `wait` shows the simulation the unchanged register in every tick and
/// leaves it unchanged.
pub proof fn lemma_wait_keeps_register(held: Set<Button>, ticks: nat)
    ensures
        wait_course(held, ticks).settled == held,
        readings(wait_course(held, ticks)).len() == ticks,
        forall|tick: int|
            0 <= tick < ticks ==> #[trigger] readings(wait_course(held, ticks))[tick] == held,
{
}

} // verus!
