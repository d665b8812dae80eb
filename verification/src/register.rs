//! The input register: which buttons are held right now.
//!
//! The register is one byte with one bit per button; its mathematical content
//! is the set of held buttons. Scripts change it through `press`, `release` and
//! `toggle`; the simulation reads it once per tick. The two vertical directions
//! exclude each other, and so do the two horizontal ones: whenever an operation
//! touches a direction with `press` or `toggle`, the opposite direction ends up
//! released.
//!
//! The register is a plain value with a single writer. A host that lets another
//! thread read it publishes `bits()` after each change; a reader that sees the
//! value one tick late breaks nothing, since the register holds levels, not events.

use vstd::prelude::*;
use crate::button::{mask_of, opposite_of, rival_mask_of, Button};

verus! {

/// The buttons that the register value `bits` holds.
pub open spec fn held_in(bits: u8) -> Set<Button> {
    Set::new(|button: Button| bits & mask_of(button) != 0)
}

/// Directional exclusion: up and down are never held together, nor left and right.
pub open spec fn exclusive(held: Set<Button>) -> bool {
    &&& !(held.contains(Button::Up) && held.contains(Button::Down))
    &&& !(held.contains(Button::Left) && held.contains(Button::Right))
}

/// `held` without the opposite direction of `button`, if `button` has one.
pub open spec fn without_rival(held: Set<Button>, button: Button) -> Set<Button> {
    match opposite_of(button) {
        Some(rival) => held.remove(rival),
        None => held,
    }
}

/// The held buttons after `button` is pressed: it is held, and its opposite
/// direction is not.
pub open spec fn pressed(held: Set<Button>, button: Button) -> Set<Button> {
    without_rival(held.insert(button), button)
}

/// The held buttons after `button` is released.
pub open spec fn released(held: Set<Button>, button: Button) -> Set<Button> {
    held.remove(button)
}

/// The held buttons after `button` is toggled: it changes state, and its
/// opposite direction is not held, whichever way the change went.
pub open spec fn toggled(held: Set<Button>, button: Button) -> Set<Button> {
    if held.contains(button) {
        without_rival(held.remove(button), button)
    } else {
        without_rival(held.insert(button), button)
    }
}

/// The held buttons after each of `buttons` is pressed, in order.
pub open spec fn pressed_all(held: Set<Button>, buttons: Seq<Button>) -> Set<Button>
    decreases buttons.len(),
{
    if buttons.len() == 0 {
        held
    } else {
        pressed(pressed_all(held, buttons.drop_last()), buttons.last())
    }
}

/// The held buttons after each of `buttons` is released, in order.
pub open spec fn released_all(held: Set<Button>, buttons: Seq<Button>) -> Set<Button>
    decreases buttons.len(),
{
    if buttons.len() == 0 {
        held
    } else {
        released(released_all(held, buttons.drop_last()), buttons.last())
    }
}

/// The held buttons after each of `buttons` is toggled, in order.
pub open spec fn toggled_all(held: Set<Button>, buttons: Seq<Button>) -> Set<Button>
    decreases buttons.len(),
{
    if buttons.len() == 0 {
        held
    } else {
        toggled(toggled_all(held, buttons.drop_last()), buttons.last())
    }
}

/// On a list of one button, each operation is the operation on that button.
pub proof fn lemma_single_button(held: Set<Button>, button: Button)
    ensures
        pressed_all(held, seq![button]) == pressed(held, button),
        released_all(held, seq![button]) == released(held, button),
        toggled_all(held, seq![button]) == toggled(held, button),
{
    let buttons = seq![button];
    assert(buttons.drop_last() =~= Seq::<Button>::empty());
    assert(pressed_all(held, buttons.drop_last()) == held);
    assert(released_all(held, buttons.drop_last()) == held);
    assert(toggled_all(held, buttons.drop_last()) == held);
}

/// Directional exclusion survives every single operation.
pub proof fn lemma_exclusion_is_kept(held: Set<Button>, button: Button)
    requires
        exclusive(held),
    ensures
        exclusive(pressed(held, button)),
        exclusive(released(held, button)),
        exclusive(toggled(held, button)),
{
}

/// Directional exclusion survives every list of operations.
pub proof fn lemma_exclusion_is_kept_by_all(held: Set<Button>, buttons: Seq<Button>)
    requires
        exclusive(held),
    ensures
        exclusive(pressed_all(held, buttons)),
        exclusive(released_all(held, buttons)),
        exclusive(toggled_all(held, buttons)),
    decreases buttons.len(),
{
    if buttons.len() > 0 {
        let earlier = buttons.drop_last();
        lemma_exclusion_is_kept_by_all(held, earlier);
        lemma_exclusion_is_kept(pressed_all(held, earlier), buttons.last());
        lemma_exclusion_is_kept(released_all(held, earlier), buttons.last());
        lemma_exclusion_is_kept(toggled_all(held, earlier), buttons.last());
    }
}

/// Pressing or toggling a direction leaves its opposite released, whatever
/// was held before.
pub proof fn lemma_direction_clears_its_opposite(held: Set<Button>, button: Button, rival: Button)
    requires
        opposite_of(button) == Some(rival),
    ensures
        pressed(held, button).contains(button),
        !pressed(held, button).contains(rival),
        !toggled(held, button).contains(rival),
{
}

/// Pressing a direction and then its opposite leaves the opposite held and the
/// first direction released, whatever was held before; the same goes for
/// toggling the two when both were released.
pub proof fn lemma_later_direction_wins(held: Set<Button>, first: Button, second: Button)
    requires
        opposite_of(first) == Some(second),
    ensures
        pressed(pressed(held, first), second).contains(second),
        !pressed(pressed(held, first), second).contains(first),
        !held.contains(first) && !held.contains(second) ==> toggled(
            toggled(held, first),
            second,
        ).contains(second) && !toggled(toggled(held, first), second).contains(first),
{
}

/// A register value is determined by the buttons it holds.
pub proof fn lemma_bits_are_determined(first: u8, second: u8)
    requires
        held_in(first) == held_in(second),
    ensures
        first == second,
{
    assert((first & 0x01 != 0) == held_in(first).contains(Button::A));
    assert((second & 0x01 != 0) == held_in(second).contains(Button::A));
    assert((first & 0x02 != 0) == held_in(first).contains(Button::B));
    assert((second & 0x02 != 0) == held_in(second).contains(Button::B));
    assert((first & 0x04 != 0) == held_in(first).contains(Button::Select));
    assert((second & 0x04 != 0) == held_in(second).contains(Button::Select));
    assert((first & 0x08 != 0) == held_in(first).contains(Button::Start));
    assert((second & 0x08 != 0) == held_in(second).contains(Button::Start));
    assert((first & 0x10 != 0) == held_in(first).contains(Button::Up));
    assert((second & 0x10 != 0) == held_in(second).contains(Button::Up));
    assert((first & 0x20 != 0) == held_in(first).contains(Button::Down));
    assert((second & 0x20 != 0) == held_in(second).contains(Button::Down));
    assert((first & 0x40 != 0) == held_in(first).contains(Button::Left));
    assert((second & 0x40 != 0) == held_in(second).contains(Button::Left));
    assert((first & 0x80 != 0) == held_in(first).contains(Button::Right));
    assert((second & 0x80 != 0) == held_in(second).contains(Button::Right));
    assert(first == second) by (bit_vector)
        requires
            (first & 0x01 != 0) == (second & 0x01 != 0),
            (first & 0x02 != 0) == (second & 0x02 != 0),
            (first & 0x04 != 0) == (second & 0x04 != 0),
            (first & 0x08 != 0) == (second & 0x08 != 0),
            (first & 0x10 != 0) == (second & 0x10 != 0),
            (first & 0x20 != 0) == (second & 0x20 != 0),
            (first & 0x40 != 0) == (second & 0x40 != 0),
            (first & 0x80 != 0) == (second & 0x80 != 0),
    ;
}

/// What the three bit operations do to the bit `seen` of a button, where
/// `mask` is the bit of the button operated on and `rival` the bit of its
/// opposite direction, or zero.
proof fn lemma_bit_operations(bits: u8, mask: u8, rival: u8, seen: u8)
    by (bit_vector)
    requires
        (mask == 0x01 && rival == 0x00) || (mask == 0x02 && rival == 0x00) || (mask == 0x04
            && rival == 0x00) || (mask == 0x08 && rival == 0x00) || (mask == 0x10 && rival
            == 0x20) || (mask == 0x20 && rival == 0x10) || (mask == 0x40 && rival == 0x80) || (
        mask == 0x80 && rival == 0x40),
        seen == 0x01 || seen == 0x02 || seen == 0x04 || seen == 0x08 || seen == 0x10 || seen
            == 0x20 || seen == 0x40 || seen == 0x80,
    ensures
        (((bits | mask) & !rival) & seen != 0) == (seen == mask || (seen != rival && bits & seen
            != 0)),
        ((bits & !mask) & seen != 0) == (seen != mask && bits & seen != 0),
        (((bits ^ mask) & !rival) & seen != 0) == (if seen == mask {
            bits & seen == 0
        } else {
            seen != rival && bits & seen != 0
        }),
{
}

/// The bit operations of the register compute `pressed`, `released` and
/// `toggled` on the set of held buttons.
proof fn lemma_bits_follow_the_sets(bits: u8, button: Button)
    ensures
        held_in((bits | mask_of(button)) & !rival_mask_of(button)) == pressed(
            held_in(bits),
            button,
        ),
        held_in(bits & !mask_of(button)) == released(held_in(bits), button),
        held_in((bits ^ mask_of(button)) & !rival_mask_of(button)) == toggled(
            held_in(bits),
            button,
        ),
{
    let mask = mask_of(button);
    let rival = rival_mask_of(button);
    assert forall|seen: Button|
        held_in((bits | mask) & !rival).contains(seen) == pressed(held_in(bits), button).contains(
            seen,
        ) && held_in(bits & !mask).contains(seen) == released(held_in(bits), button).contains(seen)
            && held_in((bits ^ mask) & !rival).contains(seen) == toggled(
            held_in(bits),
            button,
        ).contains(seen) by {
        lemma_bit_operations(bits, mask, rival, mask_of(seen));
    }
    assert(held_in((bits | mask) & !rival) =~= pressed(held_in(bits), button));
    assert(held_in(bits & !mask) =~= released(held_in(bits), button));
    assert(held_in((bits ^ mask) & !rival) =~= toggled(held_in(bits), button));
}

/// The register of held buttons.
///
/// It has one writer, the simulation thread. What another thread reads of it
/// may be relaxed: a value that is one tick old is as good as the current one.
#[derive(Clone, Copy, Debug, PartialEq, Eq)]
pub struct InputRegister {
    bits: u8,
}

impl View for InputRegister {
    type V = Set<Button>;

    closed spec fn view(&self) -> Set<Button> {
        held_in(self.bits)
    }
}

impl InputRegister {
    #[verifier::type_invariant]
    spec fn well_formed(self) -> bool {
        exclusive(held_in(self.bits))
    }

    /// The register with every button released.
    pub fn new() -> (register: InputRegister)
        ensures
            register@ == Set::<Button>::empty(),
    {
        assert(forall|mask: u8| 0u8 & mask == 0) by (bit_vector);
        assert(held_in(0) =~= Set::<Button>::empty());
        InputRegister { bits: 0 }
    }

    /// The register that holds the raw value `bits`, unless `bits` holds two
    /// opposite directions at once.
    pub fn from_bits(bits: u8) -> (register: Option<InputRegister>)
        ensures
            exclusive(held_in(bits)) ==> register.is_some() && register.unwrap()@ == held_in(bits),
            !exclusive(held_in(bits)) ==> register.is_none(),
    {
        let vertical: bool = bits & 0x10 != 0 && bits & 0x20 != 0;
        let horizontal: bool = bits & 0x40 != 0 && bits & 0x80 != 0;
        if vertical || horizontal {
            None
        } else {
            Some(InputRegister { bits })
        }
    }

    /// The raw value of the register, as the simulation reads it: the bit of
    /// each held button is set and no other. It never holds two opposite
    /// directions.
    pub fn bits(&self) -> (bits: u8)
        ensures
            held_in(bits) == self@,
            exclusive(self@),
    {
        proof {
            use_type_invariant(self);
        }
        self.bits
    }

    /// Whether `button` is held.
    pub fn is_pressed(&self, button: Button) -> (held: bool)
        ensures
            held == self@.contains(button),
    {
        self.bits & button.mask() != 0
    }

    /// Presses each of `buttons`, in order. Pressing a direction releases its
    /// opposite.
    pub fn press(&mut self, buttons: &[Button])
        ensures
            final(self)@ == pressed_all(old(self)@, buttons@),
    {
        let mut i: usize = 0;
        while i < buttons.len()
            invariant
                i <= buttons@.len(),
                self@ == pressed_all(old(self)@, buttons@.take(i as int)),
            decreases buttons@.len() - i,
        {
            let button = buttons[i];
            proof {
                use_type_invariant(&*self);
                lemma_bits_follow_the_sets(self.bits, button);
                lemma_exclusion_is_kept(held_in(self.bits), button);
                assert(buttons@.take(i + 1).drop_last() =~= buttons@.take(i as int));
            }
            self.bits = (self.bits | button.mask()) & !button.rival_mask();
            i = i + 1;
        }
        assert(buttons@.take(i as int) =~= buttons@);
    }

    /// Releases each of `buttons`, in order. No other button changes.
    pub fn release(&mut self, buttons: &[Button])
        ensures
            final(self)@ == released_all(old(self)@, buttons@),
    {
        let mut i: usize = 0;
        while i < buttons.len()
            invariant
                i <= buttons@.len(),
                self@ == released_all(old(self)@, buttons@.take(i as int)),
            decreases buttons@.len() - i,
        {
            let button = buttons[i];
            proof {
                use_type_invariant(&*self);
                lemma_bits_follow_the_sets(self.bits, button);
                lemma_exclusion_is_kept(held_in(self.bits), button);
                assert(buttons@.take(i + 1).drop_last() =~= buttons@.take(i as int));
            }
            self.bits = self.bits & !button.mask();
            i = i + 1;
        }
        assert(buttons@.take(i as int) =~= buttons@);
    }

    /// Toggles each of `buttons`, in order: a held button is released, a
    /// released one is pressed. Toggling a direction releases its opposite,
    /// whichever way the toggle went.
    pub fn toggle(&mut self, buttons: &[Button])
        ensures
            final(self)@ == toggled_all(old(self)@, buttons@),
    {
        let mut i: usize = 0;
        while i < buttons.len()
            invariant
                i <= buttons@.len(),
                self@ == toggled_all(old(self)@, buttons@.take(i as int)),
            decreases buttons@.len() - i,
        {
            let button = buttons[i];
            proof {
                use_type_invariant(&*self);
                lemma_bits_follow_the_sets(self.bits, button);
                lemma_exclusion_is_kept(held_in(self.bits), button);
                assert(buttons@.take(i + 1).drop_last() =~= buttons@.take(i as int));
            }
            self.bits = (self.bits ^ button.mask()) & !button.rival_mask();
            i = i + 1;
        }
        assert(buttons@.take(i as int) =~= buttons@);
    }
}

} // verus!
