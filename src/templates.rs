use vstd::prelude::*;
use crate::naming::{name_formatter, normalized};

verus! {

/// What `{:?}` formatting of a `str` returns: the string in double quotes,
/// with the characters that need it escaped as Rust's `Debug` does.
pub uninterp spec fn debug_of(s: Seq<char>) -> Seq<char>;

/// Relies on the `Debug` impl of `str`: the quoted, escaped form of `s`.
#[verifier::external_body]
pub(crate) fn debug_quoted(s: &str) -> (r: String)
    ensures
        r@ == debug_of(s@),
{
    format!("{:?}", s)
}

/// The project descriptor: one section whose application name is the raw
/// project name.
pub open spec fn godot_text(name: Seq<char>) -> Seq<char> {
    "[application]\nconfig/name=\""@ + name + "\""@
}

/// The package manifest of a project whose package is named `package`.
pub open spec fn cargo_text(package: Seq<char>) -> Seq<char> {
    "[package]\nname = \""@ + package + "\"\nversion = \"0.1.0\"\nedition = \"2018\"\n\n[lib]\ncrate-type = [\"cdylib\"]\n\n[dependencies]\ngdnative = \"0.8\""@
}

/// The native library stub: the same text for every project.
pub open spec fn rustlib_text() -> Seq<char> {
    RUSTLIB_TEXT@
}

/// The binding descriptor of a library named `lib`, with one entry for
/// each of Linux, macOS and Windows.
pub open spec fn gdnlib_text(lib: Seq<char>) -> Seq<char> {
    "[general]\n\nsingleton=false\nload_once=true\nsymbol_prefix=\"godot_\"\nreloadable=true\n\n[entry]\n\nX11.64=\"res://target/debug/lib"@
        + lib + ".so\"\nOSX.64=\"res://target/debug/lib"@
        + lib + ".dylib\"\nWindows.64=\"res://target/debug/"@
        + lib + ".dll\""@
}

/// The confirmation shown once a project has been generated: its raw name,
/// its path in quoted form and a tree of the generated files.
pub open spec fn output_text(name: Seq<char>, quoted_path: Seq<char>, lib: Seq<char>) -> Seq<char> {
    "The project has been generated.\n\nName: \""@ + name + "\"\nPath: "@ + quoted_path
        + "\n\nStructure:  "@ + name
        + "\n            ├── src\n            │   └── lib.rs\n            ├── Cargo.toml\n            ├── "@
        + lib + ".gdnlib\n            └── project.godot"@
}

/// The source of the native library stub written into every project.
pub const RUSTLIB_TEXT: &'static str = "use gdnative::*;

#[derive(NativeClass)]
#[inherit(Node)]
struct HelloWorld;

#[methods]
impl HelloWorld {
    fn _init(_owner: Node) -> Self {
        HelloWorld
    }

    #[export]
    fn _ready(&self, _owner: Node) {
        godot_print!(\"Hello, World!\")
    }
}

fn init(handle: init::InitHandle) {
    handle.add_class::<HelloWorld>();
}

godot_gdnative_init!();
godot_nativescript_init!(init);
godot_gdnative_terminate!();";

/// The project descriptor for the raw project name `name`.
pub fn get_godot_text(name: &str) -> (r: String)
    ensures
        r@ == godot_text(name@),
{
    let mut s = String::from_str("[application]\nconfig/name=\"");
    s.append(name);
    s.append("\"");
    s
}

/// The package manifest for a package named `package` (already normalized).
pub fn cargo_text_for(package: &str) -> (r: String)
    ensures
        r@ == cargo_text(package@),
{
    let mut s = String::from_str("[package]\nname = \"");
    s.append(package);
    s.append("\"\nversion = \"0.1.0\"\nedition = \"2018\"\n\n[lib]\ncrate-type = [\"cdylib\"]\n\n[dependencies]\ngdnative = \"0.8\"");
    s
}

/// The package manifest for the raw project name `name`: the package is
/// named by the normalized name.
pub fn get_cargo_text(name: &str) -> (r: String)
    ensures
        r@ == cargo_text(normalized(name@)),
{
    let package = name_formatter(name);
    cargo_text_for(package.as_str())
}

/// The native library stub; it never depends on the project.
pub fn get_rustlib_text() -> (r: String)
    ensures
        r@ == rustlib_text(),
{
    String::from_str(RUSTLIB_TEXT)
}

/// The binding descriptor for a library named `lib` (already normalized).
pub fn gdnlib_text_for(lib: &str) -> (r: String)
    ensures
        r@ == gdnlib_text(lib@),
{
    let mut s = String::from_str("[general]\n\nsingleton=false\nload_once=true\nsymbol_prefix=\"godot_\"\nreloadable=true\n\n[entry]\n\nX11.64=\"res://target/debug/lib");
    s.append(lib);
    s.append(".so\"\nOSX.64=\"res://target/debug/lib");
    s.append(lib);
    s.append(".dylib\"\nWindows.64=\"res://target/debug/");
    s.append(lib);
    s.append(".dll\"");
    s
}

/// The binding descriptor for the raw project name `name`: every library
/// path is built from the normalized name.
pub fn get_gdnlib_text(name: &str) -> (r: String)
    ensures
        r@ == gdnlib_text(normalized(name@)),
{
    let lib = name_formatter(name);
    gdnlib_text_for(lib.as_str())
}

/// The confirmation text from the raw name, the already quoted path and
/// the normalized name.
pub fn output_text_for(name: &str, quoted_path: &str, lib: &str) -> (r: String)
    ensures
        r@ == output_text(name@, quoted_path@, lib@),
{
    let mut s = String::from_str("The project has been generated.\n\nName: \"");
    s.append(name);
    s.append("\"\nPath: ");
    s.append(quoted_path);
    s.append("\n\nStructure:  ");
    s.append(name);
    s.append("\n            ├── src\n            │   └── lib.rs\n            ├── Cargo.toml\n            ├── ");
    s.append(lib);
    s.append(".gdnlib\n            └── project.godot");
    s
}

/// The confirmation text for the raw project name `name` generated at
/// `path`: the path is shown in its `Debug` quoted form.
pub fn get_output_text(name: &str, path: &str) -> (r: String)
    ensures
        r@ == output_text(name@, debug_of(path@), normalized(name@)),
{
    let quoted = debug_quoted(path);
    let lib = name_formatter(name);
    output_text_for(name, quoted.as_str(), lib.as_str())
}

} // verus!
