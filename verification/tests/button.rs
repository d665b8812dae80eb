use marlua::button::Button;
use marlua::error::ScriptError;

#[test]
fn canonical_names_resolve() {
    assert_eq!(Button::resolve("A"), Ok(Button::A));
    assert_eq!(Button::resolve("B"), Ok(Button::B));
    assert_eq!(Button::resolve("Up"), Ok(Button::Up));
    assert_eq!(Button::resolve("Down"), Ok(Button::Down));
    assert_eq!(Button::resolve("Left"), Ok(Button::Left));
    assert_eq!(Button::resolve("Right"), Ok(Button::Right));
}

#[test]
fn aliases_resolve_to_the_same_button() {
    assert_eq!(Button::resolve("Jump"), Button::resolve("A"));
    assert_eq!(Button::resolve("Run"), Button::resolve("B"));
    assert_eq!(Button::resolve("U"), Button::resolve("Up"));
    assert_eq!(Button::resolve("D"), Button::resolve("Down"));
    assert_eq!(Button::resolve("L"), Button::resolve("Left"));
    assert_eq!(Button::resolve("R"), Button::resolve("Right"));
    assert_eq!(Button::resolve("Jump"), Ok(Button::A));
    assert_eq!(Button::resolve("Run"), Ok(Button::B));
}

#[test]
fn letter_case_does_not_matter() {
    assert_eq!(Button::resolve("a"), Ok(Button::A));
    assert_eq!(Button::resolve("jump"), Ok(Button::A));
    assert_eq!(Button::resolve("JUMP"), Ok(Button::A));
    assert_eq!(Button::resolve("jUmP"), Ok(Button::A));
    assert_eq!(Button::resolve("run"), Ok(Button::B));
    assert_eq!(Button::resolve("up"), Ok(Button::Up));
    assert_eq!(Button::resolve("dOwN"), Ok(Button::Down));
    assert_eq!(Button::resolve("left"), Ok(Button::Left));
    assert_eq!(Button::resolve("RIGHT"), Ok(Button::Right));
    assert_eq!(Button::resolve("r"), Ok(Button::Right));
}

#[test]
fn unknown_names_are_reported_as_given() {
    assert_eq!(Button::resolve("Z"), Err(ScriptError::InvalidButtonName("Z".to_string())));
    assert_eq!(Button::resolve("z"), Err(ScriptError::InvalidButtonName("z".to_string())));
    assert_eq!(Button::resolve(""), Err(ScriptError::InvalidButtonName(String::new())));
    assert_eq!(
        Button::resolve("Start"),
        Err(ScriptError::InvalidButtonName("Start".to_string()))
    );
    assert_eq!(
        Button::resolve("select"),
        Err(ScriptError::InvalidButtonName("select".to_string()))
    );
    assert_eq!(
        Button::resolve(" A"),
        Err(ScriptError::InvalidButtonName(" A".to_string()))
    );
    assert_eq!(
        Button::resolve("JUMPS"),
        Err(ScriptError::InvalidButtonName("JUMPS".to_string()))
    );
    assert_eq!(
        Button::resolve("UPP"),
        Err(ScriptError::InvalidButtonName("UPP".to_string()))
    );
}

#[test]
fn from_upper_takes_upper_case_only() {
    assert_eq!(Button::from_upper("A"), Some(Button::A));
    assert_eq!(Button::from_upper("JUMP"), Some(Button::A));
    assert_eq!(Button::from_upper("B"), Some(Button::B));
    assert_eq!(Button::from_upper("RUN"), Some(Button::B));
    assert_eq!(Button::from_upper("U"), Some(Button::Up));
    assert_eq!(Button::from_upper("UP"), Some(Button::Up));
    assert_eq!(Button::from_upper("D"), Some(Button::Down));
    assert_eq!(Button::from_upper("DOWN"), Some(Button::Down));
    assert_eq!(Button::from_upper("L"), Some(Button::Left));
    assert_eq!(Button::from_upper("LEFT"), Some(Button::Left));
    assert_eq!(Button::from_upper("R"), Some(Button::Right));
    assert_eq!(Button::from_upper("RIGHT"), Some(Button::Right));
    assert_eq!(Button::from_upper("a"), None);
    assert_eq!(Button::from_upper("Jump"), None);
    assert_eq!(Button::from_upper("Z"), None);
    assert_eq!(Button::from_upper(""), None);
    assert_eq!(Button::from_upper("START"), None);
    assert_eq!(Button::from_upper("SELECT"), None);
}

#[test]
fn names_outside_ascii_follow_the_upper_case_mapping() {
    assert_eq!(
        Button::resolve("ü"),
        Err(ScriptError::InvalidButtonName("ü".to_string()))
    );
    assert_eq!(Button::resolve("r\u{131}ght"), Ok(Button::Right));
}
