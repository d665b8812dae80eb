use marlua::button::Button;
use marlua::register::InputRegister;

const ALL_BUTTONS: [Button; 8] = [
    Button::A,
    Button::B,
    Button::Select,
    Button::Start,
    Button::Up,
    Button::Down,
    Button::Left,
    Button::Right,
];

fn held(register: &InputRegister) -> Vec<Button> {
    ALL_BUTTONS
        .into_iter()
        .filter(|button| register.is_pressed(*button))
        .collect()
}

#[test]
fn new_register_holds_nothing() {
    let register = InputRegister::new();
    assert_eq!(register.bits(), 0);
    assert!(held(&register).is_empty());
}

#[test]
fn each_button_has_its_bit() {
    let cases = [
        (Button::A, 0x01u8),
        (Button::B, 0x02),
        (Button::Select, 0x04),
        (Button::Start, 0x08),
        (Button::Up, 0x10),
        (Button::Down, 0x20),
        (Button::Left, 0x40),
        (Button::Right, 0x80),
    ];
    for (button, bit) in cases {
        assert_eq!(button.mask(), bit);
        let mut register = InputRegister::new();
        register.press(&[button]);
        assert_eq!(register.bits(), bit);
        assert!(register.is_pressed(button));
    }
}

#[test]
fn opposites_pair_the_directions() {
    assert_eq!(Button::A.opposite(), None);
    assert_eq!(Button::B.opposite(), None);
    assert_eq!(Button::Select.opposite(), None);
    assert_eq!(Button::Start.opposite(), None);
    assert_eq!(Button::Up.opposite(), Some(Button::Down));
    assert_eq!(Button::Down.opposite(), Some(Button::Up));
    assert_eq!(Button::Left.opposite(), Some(Button::Right));
    assert_eq!(Button::Right.opposite(), Some(Button::Left));
    assert_eq!(Button::A.rival_mask(), 0x00);
    assert_eq!(Button::Up.rival_mask(), 0x20);
    assert_eq!(Button::Down.rival_mask(), 0x10);
    assert_eq!(Button::Left.rival_mask(), 0x80);
    assert_eq!(Button::Right.rival_mask(), 0x40);
}

#[test]
fn toggle_down_then_up_leaves_up() {
    let mut register = InputRegister::new();
    register.toggle(&[Button::Down]);
    assert_eq!(register.bits(), 0x20);
    register.toggle(&[Button::Up]);
    assert_eq!(register.bits(), 0x10);
    assert!(register.is_pressed(Button::Up));
    assert!(!register.is_pressed(Button::Down));
}

#[test]
fn press_left_then_right_leaves_right() {
    let mut register = InputRegister::new();
    register.press(&[Button::Left]);
    assert_eq!(register.bits(), 0x40);
    register.press(&[Button::Right]);
    assert_eq!(register.bits(), 0x80);
    assert!(register.is_pressed(Button::Right));
    assert!(!register.is_pressed(Button::Left));
}

#[test]
fn opposites_in_one_call_are_resolved_in_order() {
    let mut register = InputRegister::new();
    register.press(&[Button::Up, Button::Down]);
    assert_eq!(held(&register), vec![Button::Down]);
    register.toggle(&[Button::Left, Button::Right]);
    assert_eq!(held(&register), vec![Button::Down, Button::Right]);
}

#[test]
fn toggle_flips_back_and_forth() {
    let mut register = InputRegister::new();
    register.toggle(&[Button::A]);
    assert_eq!(register.bits(), 0x01);
    register.toggle(&[Button::A]);
    assert_eq!(register.bits(), 0x00);
    register.toggle(&[Button::A, Button::A, Button::A]);
    assert_eq!(register.bits(), 0x01);
}

#[test]
fn toggling_a_held_direction_off_still_clears_its_opposite() {
    let mut register = InputRegister::from_bits(0x10).unwrap();
    register.toggle(&[Button::Up]);
    assert_eq!(register.bits(), 0x00);
    let mut register = InputRegister::from_bits(0x20).unwrap();
    register.toggle(&[Button::Up]);
    assert_eq!(register.bits(), 0x10);
}

#[test]
fn press_is_idempotent() {
    let mut register = InputRegister::new();
    register.press(&[Button::B, Button::B]);
    register.press(&[Button::B]);
    assert_eq!(register.bits(), 0x02);
}

#[test]
fn release_clears_only_what_it_names() {
    let mut register = InputRegister::from_bits(0x01 | 0x02 | 0x10 | 0x40).unwrap();
    register.release(&[Button::A, Button::Up]);
    assert_eq!(register.bits(), 0x02 | 0x40);
    register.release(&[Button::Down]);
    assert_eq!(register.bits(), 0x02 | 0x40);
    register.release(&[Button::B, Button::Left]);
    assert_eq!(register.bits(), 0x00);
}

#[test]
fn empty_lists_change_nothing() {
    let mut register = InputRegister::from_bits(0x13).unwrap();
    register.press(&[]);
    register.release(&[]);
    register.toggle(&[]);
    assert_eq!(register.bits(), 0x13);
}

#[test]
fn start_and_select_are_left_alone_by_the_other_buttons() {
    let mut register = InputRegister::from_bits(0x0c).unwrap();
    register.press(&[Button::A, Button::Up, Button::Left]);
    assert_eq!(register.bits(), 0x0c | 0x01 | 0x10 | 0x40);
    register.toggle(&[Button::Down, Button::B]);
    assert_eq!(register.bits(), 0x0c | 0x01 | 0x02 | 0x20 | 0x40);
    register.release(&[Button::A, Button::B, Button::Down, Button::Left]);
    assert_eq!(register.bits(), 0x0c);
}

#[test]
fn from_bits_refuses_opposite_directions() {
    assert!(InputRegister::from_bits(0x30).is_none());
    assert!(InputRegister::from_bits(0xc0).is_none());
    assert!(InputRegister::from_bits(0xff).is_none());
    assert!(InputRegister::from_bits(0x31).is_none());
    assert_eq!(InputRegister::from_bits(0x08).map(|register| register.bits()), Some(0x08));
    assert_eq!(InputRegister::from_bits(0x5f).map(|register| register.bits()), Some(0x5f));
    assert_eq!(InputRegister::from_bits(0x00), Some(InputRegister::new()));
}

#[test]
fn exclusion_holds_after_every_operation() {
    let buttons = ALL_BUTTONS;
    for raw in 0..=255u8 {
        let Some(start) = InputRegister::from_bits(raw) else {
            continue;
        };
        for button in buttons {
            for operation in 0..3 {
                let mut register = start;
                match operation {
                    0 => register.press(&[button]),
                    1 => register.release(&[button]),
                    _ => register.toggle(&[button]),
                }
                let bits = register.bits();
                assert_ne!(bits & 0x30, 0x30);
                assert_ne!(bits & 0xc0, 0xc0);
                assert_eq!(held(&register).len(), bits.count_ones() as usize);
            }
        }
    }
}

#[test]
fn bits_and_held_buttons_say_the_same() {
    for raw in 0..=255u8 {
        let Some(register) = InputRegister::from_bits(raw) else {
            continue;
        };
        assert_eq!(register.bits(), raw);
        let rebuilt = held(&register).iter().fold(0u8, |bits, button| bits | button.mask());
        assert_eq!(rebuilt, raw);
    }
}

#[test]
fn start_and_select_can_be_operated_like_any_button() {
    let mut register = InputRegister::new();
    register.press(&[Button::Start]);
    assert_eq!(register.bits(), 0x08);
    register.toggle(&[Button::Select, Button::Start]);
    assert_eq!(register.bits(), 0x04);
    register.release(&[Button::Select]);
    assert_eq!(register.bits(), 0x00);
}
