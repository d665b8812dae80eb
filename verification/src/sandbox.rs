//! The sandbox a script runs in.
//!
//! A script reaches the host through a binding table of five primitives and
//! nothing else. Of the interpreter's own libraries it gets those that only
//! compute; the libraries that open files, reach the process and its
//! environment, or inspect the interpreter itself are withheld.

use vstd::prelude::*;

verus! {

/// rlua's interpreter. The library makes it and hands it to the host; it
/// never looks inside.
#[verifier::external_type_specification]
#[verifier::external_body]
pub struct ExLua(rlua::Lua);

/// A standard library of the interpreter.
#[derive(Clone, Copy, Debug, PartialEq, Eq, Structural)]
pub enum Library {
    /// The basic functions.
    Base,
    /// `coroutine`.
    Coroutine,
    /// `table`.
    Table,
    /// `io`: files and streams.
    Io,
    /// `os`: the process, its environment and the clock.
    Os,
    /// `string`.
    Text,
    /// `utf8`.
    Utf8,
    /// `math`.
    Math,
    /// `package`.
    Package,
    /// `debug`: the interpreter's own internals.
    Debug,
}

/// The flag that stands for `library` in a set of libraries.
pub open spec fn flag_of(library: Library) -> u32 {
    match library {
        Library::Base => 0x001,
        Library::Coroutine => 0x002,
        Library::Table => 0x004,
        Library::Io => 0x008,
        Library::Os => 0x010,
        Library::Text => 0x020,
        Library::Utf8 => 0x040,
        Library::Math => 0x080,
        Library::Package => 0x100,
        Library::Debug => 0x200,
    }
}

/// Whether a script may use `library`: all but file access, process access
/// and the debugging facilities.
pub open spec fn is_granted(library: Library) -> bool {
    library != Library::Io && library != Library::Os && library != Library::Debug
}

/// The libraries that the flags `flags` stand for.
pub open spec fn libraries_in(flags: u32) -> Set<Library> {
    Set::new(|library: Library| flags & flag_of(library) != 0)
}

/// The libraries that a script gets.
pub open spec fn granted() -> Set<Library> {
    Set::new(|library: Library| is_granted(library))
}

/// The libraries that an interpreter was made with.
pub uninterp spec fn libraries_of(interpreter: rlua::Lua) -> Set<Library>;

/// A primitive that the binding table offers to scripts.
#[derive(Clone, Copy, Debug, PartialEq, Eq, Structural)]
pub enum PrimitiveKind {
    /// `wait(ticks)`.
    Wait,
    /// `toggle(names...)`.
    Toggle,
    /// `press(names...)`.
    Press,
    /// `release(names...)`.
    Release,
    /// `hold(names..., ticks)`.
    Hold,
}

/// The name under which a script calls a primitive.
pub open spec fn name_of(kind: PrimitiveKind) -> Seq<char> {
    match kind {
        PrimitiveKind::Wait => "wait"@,
        PrimitiveKind::Toggle => "toggle"@,
        PrimitiveKind::Press => "press"@,
        PrimitiveKind::Release => "release"@,
        PrimitiveKind::Hold => "hold"@,
    }
}

/// The binding table: every primitive once.
pub open spec fn binding_table() -> Seq<PrimitiveKind> {
    seq![
        PrimitiveKind::Wait,
        PrimitiveKind::Toggle,
        PrimitiveKind::Press,
        PrimitiveKind::Release,
        PrimitiveKind::Hold,
    ]
}

impl PrimitiveKind {
    /// The name under which a script calls the primitive.
    pub fn name(self) -> (name: &'static str)
        ensures
            name@ == name_of(self),
    {
        match self {
            PrimitiveKind::Wait => "wait",
            PrimitiveKind::Toggle => "toggle",
            PrimitiveKind::Press => "press",
            PrimitiveKind::Release => "release",
            PrimitiveKind::Hold => "hold",
        }
    }
}

/// The primitives that the host binds for a script, and no others.
pub fn bindings() -> (table: Vec<PrimitiveKind>)
    ensures
        table@ == binding_table(),
{
    let mut table: Vec<PrimitiveKind> = Vec::with_capacity(5);
    table.push(PrimitiveKind::Wait);
    table.push(PrimitiveKind::Toggle);
    table.push(PrimitiveKind::Press);
    table.push(PrimitiveKind::Release);
    table.push(PrimitiveKind::Hold);
    assert(table@ =~= binding_table());
    table
}

/// The flags of the libraries that a script gets.
pub fn granted_libraries() -> (flags: u32)
    ensures
        flags == 0x1e7,
        flags & !0x3ffu32 == 0,
        libraries_in(flags) == granted(),
{
    let flags: u32 = 0x3ff & !(0x008 | 0x010 | 0x200);
    assert(flags == 0x1e7 && flags & !0x3ffu32 == 0) by (bit_vector)
        requires
            flags == 0x3ffu32 & !(0x008u32 | 0x010u32 | 0x200u32),
    ;
    assert forall|library: Library|
        libraries_in(flags).contains(library) == granted().contains(library) by {
        assert(0x1e7u32 & 0x001 != 0 && 0x1e7u32 & 0x002 != 0 && 0x1e7u32 & 0x004 != 0 && 0x1e7u32
            & 0x008 == 0 && 0x1e7u32 & 0x010 == 0 && 0x1e7u32 & 0x020 != 0 && 0x1e7u32 & 0x040
            != 0 && 0x1e7u32 & 0x080 != 0 && 0x1e7u32 & 0x100 != 0 && 0x1e7u32 & 0x200 == 0)
            by (bit_vector);
    }
    assert(libraries_in(flags) =~= granted());
    flags
}

/// Calls `rlua::Lua::new_with`, which makes a new interpreter and loads into
/// it the standard libraries of the given set and no others. The set is
/// handed over as rlua's `StdLib` flags, whose bits are those of `flag_of`.
/// `new_with` panics on a set that holds the debug library, so such a set is
/// not admitted. Of the interpreter that comes back the contract records
/// which libraries it was made with, and claims nothing else.
#[verifier::external_body]
fn interpreter_with(flags: u32) -> (interpreter: rlua::Lua)
    requires
        flags & !0x3ffu32 == 0,
        !libraries_in(flags).contains(Library::Debug),
    ensures
        libraries_of(interpreter) == libraries_in(flags),
{
    rlua::Lua::new_with(rlua::StdLib::from_bits_truncate(flags))
}

/// A new interpreter for one script, made with the granted libraries and
/// without the withheld ones.
pub fn new_interpreter() -> (interpreter: rlua::Lua)
    ensures
        libraries_of(interpreter) == granted(),
{
    interpreter_with(granted_libraries())
}

/// A script gets no file access, no process access and no debugging
/// facilities, and every other library.
pub proof fn lemma_granted_libraries()
    ensures
        !granted().contains(Library::Io),
        !granted().contains(Library::Os),
        !granted().contains(Library::Debug),
        forall|library: Library|
            library != Library::Io && library != Library::Os && library != Library::Debug
                ==> granted().contains(library),
{
}

} // verus!
