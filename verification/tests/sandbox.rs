use marlua::sandbox::{bindings, granted_libraries, new_interpreter, PrimitiveKind};

fn holds_true(chunk: &str) -> bool {
    let interpreter = new_interpreter();
    interpreter.context(|context| context.load(chunk).eval::<bool>().unwrap())
}

#[test]
fn granted_set_leaves_out_io_os_and_debug() {
    let libraries = granted_libraries();
    assert_eq!(libraries, 0x1e7);
    assert_eq!(libraries & 0x008, 0);
    assert_eq!(libraries & 0x010, 0);
    assert_eq!(libraries & 0x200, 0);
    assert_eq!(libraries | 0x008 | 0x010 | 0x200, 0x3ff);
}

#[test]
fn interpreter_has_no_file_process_or_debug_access() {
    assert!(holds_true("return io == nil"));
    assert!(holds_true("return os == nil"));
    assert!(holds_true("return debug == nil"));
}

#[test]
fn interpreter_has_the_computing_libraries() {
    assert!(holds_true("return type(string) == 'table' and type(math) == 'table'"));
    assert!(holds_true("return type(table) == 'table' and type(coroutine) == 'table'"));
    assert!(holds_true("return type(utf8) == 'table' and type(package) == 'table'"));
    assert!(holds_true("return type(tostring) == 'function' and type(pcall) == 'function'"));
    assert!(holds_true("return string.upper('jump') == 'JUMP' and math.max(1, 2) == 2"));
}

#[test]
fn interpreter_knows_no_primitive_until_the_host_binds_one() {
    assert!(holds_true(
        "return wait == nil and toggle == nil and press == nil and release == nil and hold == nil"
    ));
}

#[test]
fn interpreters_are_independent() {
    let first = new_interpreter();
    let second = new_interpreter();
    first.context(|context| context.load("marker = 1").exec().unwrap());
    assert!(second.context(|context| context.load("return marker == nil").eval::<bool>().unwrap()));
    assert!(first.context(|context| context.load("return marker == 1").eval::<bool>().unwrap()));
}

#[test]
fn binding_table_names_the_five_primitives() {
    let table = bindings();
    assert_eq!(
        table,
        vec![
            PrimitiveKind::Wait,
            PrimitiveKind::Toggle,
            PrimitiveKind::Press,
            PrimitiveKind::Release,
            PrimitiveKind::Hold,
        ]
    );
    let names: Vec<&str> = table.iter().map(|kind| kind.name()).collect();
    assert_eq!(names, vec!["wait", "toggle", "press", "release", "hold"]);
}
