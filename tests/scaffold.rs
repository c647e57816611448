use godust::{
    cargo_text_for, gdnlib_text_for, get_cargo_text, get_gdnlib_text, get_godot_text,
    get_output_text, get_rustlib_text, join_path, name_formatter, output_text_for, Project, Step,
};

fn file_contents(steps: &[Step], suffix: &str) -> Option<(String, String)> {
    for s in steps {
        if let Step::WriteFile { path, contents } = s {
            if path.ends_with(suffix) {
                return Some((path.clone(), contents.clone()));
            }
        }
    }
    None
}

#[test]
fn normalizes_spaces_and_case() {
    assert_eq!(name_formatter("My Game"), "my_game");
    assert_eq!(name_formatter("ABC"), "abc");
    assert_eq!(name_formatter(""), "");
    assert_eq!(name_formatter("  a  "), "__a__");
}

#[test]
fn normalizes_non_ascii_names() {
    assert_eq!(name_formatter("Ärger Spiel"), "ärger_spiel");
    assert_eq!(name_formatter("ΑΒΓ Δ"), "αβγ_δ");
}

#[test]
fn normalizing_twice_changes_nothing() {
    for name in ["My Game", "Foo", "already_fine", "Two  Spaces", "Über Mäßig"] {
        let once = name_formatter(name);
        assert_eq!(name_formatter(&once), once);
    }
}

#[test]
fn joins_paths_like_pathbuf() {
    assert_eq!(join_path("/home/u", "my_game"), "/home/u/my_game");
    assert_eq!(join_path("/home/u/", "my_game"), "/home/u/my_game");
    assert_eq!(join_path("", "my_game"), "my_game");
    assert_eq!(join_path("/home/u", "/abs"), "/abs");
    assert_eq!(join_path("/", "x"), "/x");
    assert_eq!(join_path("/home/u", ""), "/home/u/");
}

#[test]
fn my_game_paths_and_manifest() {
    let p = Project::new("My Game".to_string(), "/home/u");
    assert!(p.path.ends_with("my_game"));
    assert_eq!(p.path, "/home/u/my_game");
    assert_eq!(p.name, "My Game");
    let steps = p.build_structure();
    let (_, cargo) = file_contents(&steps, "Cargo.toml").unwrap();
    assert!(cargo.contains("name = \"my_game\""));
    let (gdnlib_path, _) = file_contents(&steps, ".gdnlib").unwrap();
    assert_eq!(gdnlib_path, "/home/u/my_game/my_game.gdnlib");
}

#[test]
fn godot_descriptor_keeps_raw_case() {
    assert_eq!(get_godot_text("Foo"), "[application]\nconfig/name=\"Foo\"");
    let steps = Project::new("Foo".to_string(), "/w").build_structure();
    let (path, godot) = file_contents(&steps, "project.godot").unwrap();
    assert_eq!(path, "/w/foo/project.godot");
    assert!(godot.contains("config/name=\"Foo\""));
}

#[test]
fn two_runs_give_identical_steps() {
    let p = Project::new("My Game".to_string(), "/home/u");
    assert_eq!(p.build_structure(), p.build_structure());
    let q = Project::new("My Game".to_string(), "/home/u");
    assert_eq!(p.build_structure(), q.build_structure());
}

#[test]
fn directory_created_before_any_file() {
    let steps = Project::new("My Game".to_string(), "/home/u").build_structure();
    assert_eq!(steps.len(), 6);
    assert_eq!(
        steps[0],
        Step::CreateDirAll { path: "/home/u/my_game/src".to_string() }
    );
    for s in &steps[1..] {
        assert!(!matches!(s, Step::CreateDirAll { .. }));
    }
    assert!(matches!(steps[5], Step::Print { .. }));
}

#[test]
fn library_stub_does_not_depend_on_name() {
    let a = Project::new("Alpha Game".to_string(), "/a").build_structure();
    let b = Project::new("Zeta".to_string(), "/b").build_structure();
    let (pa, la) = file_contents(&a, "src/lib.rs").unwrap();
    let (pb, lb) = file_contents(&b, "src/lib.rs").unwrap();
    assert_eq!(pa, "/a/alpha_game/src/lib.rs");
    assert_eq!(pb, "/b/zeta/src/lib.rs");
    assert_eq!(la, lb);
    assert_eq!(la, get_rustlib_text());
    assert!(!la.contains("Alpha") && !la.contains("alpha_game") && !lb.contains("zeta"));
    assert!(la.starts_with("use gdnative::*;\n\n#[derive(NativeClass)]"));
    assert!(la.ends_with("godot_gdnative_terminate!();"));
    assert!(la.contains("godot_print!(\"Hello, World!\")"));
    assert!(la.contains("impl HelloWorld {\n    fn _init(_owner: Node) -> Self {"));
}

#[test]
fn cargo_manifest_text() {
    let expected = "[package]\nname = \"my_game\"\nversion = \"0.1.0\"\nedition = \"2018\"\n\n[lib]\ncrate-type = [\"cdylib\"]\n\n[dependencies]\ngdnative = \"0.8\"";
    assert_eq!(get_cargo_text("My Game"), expected);
    assert_eq!(cargo_text_for("my_game"), expected);
}

#[test]
fn gdnlib_descriptor_text() {
    let expected = "[general]\n\nsingleton=false\nload_once=true\nsymbol_prefix=\"godot_\"\nreloadable=true\n\n[entry]\n\nX11.64=\"res://target/debug/libmy_game.so\"\nOSX.64=\"res://target/debug/libmy_game.dylib\"\nWindows.64=\"res://target/debug/my_game.dll\"";
    assert_eq!(get_gdnlib_text("My Game"), expected);
    assert_eq!(gdnlib_text_for("my_game"), expected);
}

#[test]
fn output_text_shows_name_path_and_tree() {
    let expected = "The project has been generated.\n\nName: \"My Game\"\nPath: \"/home/u/my_game\"\n\nStructure:  My Game\n            ├── src\n            │   └── lib.rs\n            ├── Cargo.toml\n            ├── my_game.gdnlib\n            └── project.godot";
    assert_eq!(get_output_text("My Game", "/home/u/my_game"), expected);
    assert_eq!(
        output_text_for("My Game", "\"/home/u/my_game\"", "my_game"),
        expected
    );
}

#[test]
fn output_text_escapes_path() {
    let text = get_output_text("x", "/a\"b\\c\nd");
    assert!(text.contains("Path: \"/a\\\"b\\\\c\\nd\"\n"));
}

#[test]
fn print_step_ends_with_blank_line() {
    let steps = Project::new("Foo".to_string(), "/w").build_structure();
    match &steps[5] {
        Step::Print { text } => {
            assert_eq!(*text, format!("{}\n\n", get_output_text("Foo", "/w/foo")));
        }
        other => panic!("unexpected step {:?}", other),
    }
}
