//! The buttons of the controller, and how scripts name them.
//!
//! The controller has eight buttons. Scripts can name six of them, each by a
//! short and a long name, in any mix of upper and lower case; start and select
//! have no name and stay out of a script's reach.

use vstd::prelude::*;
use vstd::string::*;
use crate::error::ScriptError;

verus! {

/// A button of the controller.
#[derive(Clone, Copy, Debug, PartialEq, Eq, Hash, Structural)]
pub enum Button {
    A,
    B,
    Select,
    Start,
    Up,
    Down,
    Left,
    Right,
}

/// The bit that stands for `button` in the input register.
pub open spec fn mask_of(button: Button) -> u8 {
    match button {
        Button::A => 0x01,
        Button::B => 0x02,
        Button::Select => 0x04,
        Button::Start => 0x08,
        Button::Up => 0x10,
        Button::Down => 0x20,
        Button::Left => 0x40,
        Button::Right => 0x80,
    }
}

/// The direction that cannot be held together with `button`, if it is a direction.
pub open spec fn opposite_of(button: Button) -> Option<Button> {
    match button {
        Button::A => None,
        Button::B => None,
        Button::Select => None,
        Button::Start => None,
        Button::Up => Some(Button::Down),
        Button::Down => Some(Button::Up),
        Button::Left => Some(Button::Right),
        Button::Right => Some(Button::Left),
    }
}

/// The bit of the opposite direction, or no bit for a button that has none.
pub open spec fn rival_mask_of(button: Button) -> u8 {
    match opposite_of(button) {
        Some(rival) => mask_of(rival),
        None => 0x00,
    }
}

/// The button that an upper-case name denotes. Each button that scripts can
/// name has two names; start and select have none.
pub open spec fn button_named(upper: Seq<char>) -> Option<Button> {
    if upper == "A"@ || upper == "JUMP"@ {
        Some(Button::A)
    } else if upper == "B"@ || upper == "RUN"@ {
        Some(Button::B)
    } else if upper == "U"@ || upper == "UP"@ {
        Some(Button::Up)
    } else if upper == "D"@ || upper == "DOWN"@ {
        Some(Button::Down)
    } else if upper == "L"@ || upper == "LEFT"@ {
        Some(Button::Left)
    } else if upper == "R"@ || upper == "RIGHT"@ {
        Some(Button::Right)
    } else {
        None
    }
}

/// The upper-case form of a text, as `str::to_uppercase` computes it.
pub uninterp spec fn uppercase_of(text: Seq<char>) -> Seq<char>;

/// Whether `name`, in any mix of cases, denotes a button.
pub open spec fn is_button_name(name: Seq<char>) -> bool {
    button_named(uppercase_of(name)).is_some()
}

/// The button that `name` denotes, in any mix of cases.
pub open spec fn button_of(name: Seq<char>) -> Button
    recommends
        is_button_name(name),
{
    button_named(uppercase_of(name)).unwrap()
}

/// Calls `str::to_uppercase`, which maps each character of `text` to its
/// upper-case equivalent under the Unicode case mapping and returns the result
/// as a new string. The result depends on `text` alone; the contract gives it
/// the name `uppercase_of` and claims nothing else about it.
#[verifier::external_body]
fn to_uppercase(text: &str) -> (upper: String)
    ensures
        upper@ == uppercase_of(text@),
{
    text.to_uppercase()
}

/// Whether two texts hold the same characters.
fn same_text(left: &str, right: &str) -> (same: bool)
    ensures
        same == (left@ == right@),
{
    let n: usize = left.unicode_len();
    if n != right.unicode_len() {
        return false;
    }
    let mut i: usize = 0;
    while i < n
        invariant
            i <= n,
            n == left@.len(),
            n == right@.len(),
            forall|k: int| 0 <= k < i ==> left@[k] == right@[k],
        decreases n - i,
    {
        if left.get_char(i) != right.get_char(i) {
            return false;
        }
        i = i + 1;
    }
    assert(left@ =~= right@);
    true
}

impl Button {
    /// The bit that stands for the button in the input register.
    pub fn mask(self) -> (mask: u8)
        ensures
            mask == mask_of(self),
    {
        match self {
            Button::A => 0x01,
            Button::B => 0x02,
            Button::Select => 0x04,
            Button::Start => 0x08,
            Button::Up => 0x10,
            Button::Down => 0x20,
            Button::Left => 0x40,
            Button::Right => 0x80,
        }
    }

    /// The direction that cannot be held together with this button.
    pub fn opposite(self) -> (rival: Option<Button>)
        ensures
            rival == opposite_of(self),
    {
        match self {
            Button::A => None,
            Button::B => None,
            Button::Select => None,
            Button::Start => None,
            Button::Up => Some(Button::Down),
            Button::Down => Some(Button::Up),
            Button::Left => Some(Button::Right),
            Button::Right => Some(Button::Left),
        }
    }

    /// The bit of the opposite direction, or zero for a button that has none.
    pub fn rival_mask(self) -> (mask: u8)
        ensures
            mask == rival_mask_of(self),
    {
        match self.opposite() {
            Some(rival) => rival.mask(),
            None => 0x00,
        }
    }

    /// The button that the upper-case name `upper` denotes, if any.
    pub fn from_upper(upper: &str) -> (button: Option<Button>)
        ensures
            button == button_named(upper@),
    {
        if same_text(upper, "A") || same_text(upper, "JUMP") {
            Some(Button::A)
        } else if same_text(upper, "B") || same_text(upper, "RUN") {
            Some(Button::B)
        } else if same_text(upper, "U") || same_text(upper, "UP") {
            Some(Button::Up)
        } else if same_text(upper, "D") || same_text(upper, "DOWN") {
            Some(Button::Down)
        } else if same_text(upper, "L") || same_text(upper, "LEFT") {
            Some(Button::Left)
        } else if same_text(upper, "R") || same_text(upper, "RIGHT") {
            Some(Button::Right)
        } else {
            None
        }
    }

    /// Resolves a button name as a script wrote it. Letter case does not
    /// matter: the name is looked up by its upper-case form. A name that
    /// denotes no button is reported with the name as given.
    pub fn resolve(name: &str) -> (button: Result<Button, ScriptError>)
        ensures
            is_button_name(name@) ==> button == Ok::<Button, ScriptError>(button_of(name@)),
            !is_button_name(name@) ==> (button matches Err(ScriptError::InvalidButtonName(text))
                && text@ == name@),
    {
        let upper = to_uppercase(name);
        match Button::from_upper(upper.as_str()) {
            Some(button) => Ok(button),
            None => Err(ScriptError::InvalidButtonName(name.to_owned())),
        }
    }
}

/// A name and its alias denote the same button: "A" and "JUMP", "B" and "RUN",
/// "U" and "UP", "D" and "DOWN", "L" and "LEFT", "R" and "RIGHT".
pub proof fn lemma_aliases_denote_the_same_button()
    ensures
        button_named("A"@) == Some(Button::A) && button_named("JUMP"@) == Some(Button::A),
        button_named("B"@) == Some(Button::B) && button_named("RUN"@) == Some(Button::B),
        button_named("U"@) == Some(Button::Up) && button_named("UP"@) == Some(Button::Up),
        button_named("D"@) == Some(Button::Down) && button_named("DOWN"@) == Some(Button::Down),
        button_named("L"@) == Some(Button::Left) && button_named("LEFT"@) == Some(Button::Left),
        button_named("R"@) == Some(Button::Right) && button_named("RIGHT"@) == Some(
            Button::Right,
        ),
{
    reveal_strlit("A");
    reveal_strlit("JUMP");
    reveal_strlit("B");
    reveal_strlit("RUN");
    reveal_strlit("U");
    reveal_strlit("UP");
    reveal_strlit("D");
    reveal_strlit("DOWN");
    reveal_strlit("L");
    reveal_strlit("LEFT");
    reveal_strlit("R");
    reveal_strlit("RIGHT");
    assert("A"@.len() == 1 && "B"@.len() == 1 && "U"@.len() == 1);
    assert("D"@.len() == 1 && "L"@.len() == 1 && "R"@.len() == 1);
    assert("JUMP"@.len() == 4 && "RUN"@.len() == 3 && "UP"@.len() == 2);
    assert("DOWN"@.len() == 4 && "LEFT"@.len() == 4 && "RIGHT"@.len() == 5);
    assert("A"@[0] == 'A' && "B"@[0] == 'B' && "U"@[0] == 'U');
    assert("D"@[0] == 'D' && "L"@[0] == 'L' && "R"@[0] == 'R');
    assert("JUMP"@[0] == 'J' && "DOWN"@[0] == 'D' && "LEFT"@[0] == 'L');
}

/// No name denotes start or select.
pub proof fn lemma_start_and_select_have_no_name(upper: Seq<char>)
    ensures
        button_named(upper) != Some(Button::Start),
        button_named(upper) != Some(Button::Select),
{
}

/// Names that have the same upper-case form denote the same button, or both
/// denote none: resolution looks at nothing but the upper-case form.
pub proof fn lemma_resolution_ignores_case(first: Seq<char>, second: Seq<char>)
    requires
        uppercase_of(first) == uppercase_of(second),
    ensures
        is_button_name(first) == is_button_name(second),
        is_button_name(first) ==> button_of(first) == button_of(second),
{
}

} // verus!
