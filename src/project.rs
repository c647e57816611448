use vstd::prelude::*;
use crate::naming::{name_formatter, normalized};
use crate::templates::{
    cargo_text, cargo_text_for, debug_of, debug_quoted, gdnlib_text, gdnlib_text_for,
    get_godot_text, get_rustlib_text, godot_text, output_text, output_text_for, rustlib_text,
};

verus! {

/// `part` appended to the path `base` as `PathBuf::join` does with `/` as
/// separator: an absolute `part` replaces `base`, and a separator is put
/// between the two unless `base` is empty or already ends with one.
pub open spec fn joined(base: Seq<char>, part: Seq<char>) -> Seq<char> {
    if part.len() > 0 && part[0] == '/' {
        part
    } else if base.len() == 0 || base.last() == '/' {
        base + part
    } else {
        base + seq!['/'] + part
    }
}

/// Appends the relative or absolute path `part` to `base`.
pub fn join_path(base: &str, part: &str) -> (r: String)
    ensures
        r@ == joined(base@, part@),
{
    let pn = part.unicode_len();
    let bn = base.unicode_len();
    if pn > 0 && part.get_char(0) == '/' {
        return String::from_str(part);
    }
    let mut r = String::from_str(base);
    if bn > 0 && base.get_char(bn - 1) != '/' {
        proof {
            reveal_strlit("/");
        }
        r.append("/");
    }
    r.append(part);
    r
}

/// One filesystem effect of a scaffolding run.
#[derive(Debug, Clone, PartialEq, Eq)]
pub enum Step {
    /// Create a directory and all of its missing parents.
    CreateDirAll { path: String },
    /// Create or truncate a file and write `contents` into it.
    WriteFile { path: String, contents: String },
    /// Print `text` on standard output.
    Print { text: String },
}

/// A step with its strings seen as character sequences.
pub ghost enum StepView {
    CreateDirAll { path: Seq<char> },
    WriteFile { path: Seq<char>, contents: Seq<char> },
    Print { text: Seq<char> },
}

impl View for Step {
    type V = StepView;

    open spec fn view(&self) -> StepView {
        match self {
            Step::CreateDirAll { path } => StepView::CreateDirAll { path: path@ },
            Step::WriteFile { path, contents } => StepView::WriteFile {
                path: path@,
                contents: contents@,
            },
            Step::Print { text } => StepView::Print { text: text@ },
        }
    }
}

/// The steps of a run, seen as character sequences.
pub open spec fn steps_view(steps: Seq<Step>) -> Seq<StepView> {
    steps.map_values(|s: Step| s@)
}

/// The steps that generate the project `name` at `path`, given the
/// normalized name `lib` and the quoted form `quoted_path` of the path: the
/// directories first, then the four files, then the confirmation followed
/// by a blank line.
pub open spec fn plan_with(
    name: Seq<char>,
    path: Seq<char>,
    lib: Seq<char>,
    quoted_path: Seq<char>,
) -> Seq<StepView> {
    seq![
        StepView::CreateDirAll { path: joined(path, "src"@) },
        StepView::WriteFile { path: joined(path, "project.godot"@), contents: godot_text(name) },
        StepView::WriteFile { path: joined(path, "Cargo.toml"@), contents: cargo_text(lib) },
        StepView::WriteFile { path: joined(path, "src/lib.rs"@), contents: rustlib_text() },
        StepView::WriteFile {
            path: joined(path, lib + ".gdnlib"@),
            contents: gdnlib_text(lib),
        },
        StepView::Print { text: output_text(name, quoted_path, lib) + "\n\n"@ },
    ]
}

/// The steps that generate the project `name` at `path`.
pub open spec fn plan(name: Seq<char>, path: Seq<char>) -> Seq<StepView> {
    plan_with(name, path, normalized(name), debug_of(path))
}

/// A project to generate: its raw name and the directory it goes into.
#[derive(Debug, Clone, PartialEq, Eq)]
pub struct Project {
    pub name: String,
    pub path: String,
}

impl Project {
    /// The project `name`, placed in the directory named by its normalized
    /// name under the working directory `cwd`.
    pub fn new(name: String, cwd: &str) -> (r: Project)
        ensures
            r.name@ == name@,
            r.path@ == joined(cwd@, normalized(name@)),
    {
        let dir = name_formatter(name.as_str());
        let path = join_path(cwd, dir.as_str());
        Project { name, path }
    }

    /// The steps of the run, given the normalized name `lib` and the quoted
    /// form `quoted_path` of the project path.
    pub fn steps_for(&self, lib: &str, quoted_path: &str) -> (r: Vec<Step>)
        ensures
            steps_view(r@) == plan_with(self.name@, self.path@, lib@, quoted_path@),
    {
        let path = self.path.as_str();
        let mut steps: Vec<Step> = Vec::new();
        steps.push(Step::CreateDirAll { path: join_path(path, "src") });
        steps.push(
            Step::WriteFile {
                path: join_path(path, "project.godot"),
                contents: get_godot_text(self.name.as_str()),
            },
        );
        steps.push(
            Step::WriteFile {
                path: join_path(path, "Cargo.toml"),
                contents: cargo_text_for(lib),
            },
        );
        steps.push(
            Step::WriteFile { path: join_path(path, "src/lib.rs"), contents: get_rustlib_text() },
        );
        let mut file = String::from_str(lib);
        file.append(".gdnlib");
        steps.push(Step::WriteFile { path: join_path(path, file.as_str()), contents: gdnlib_text_for(lib) });
        let mut text = output_text_for(self.name.as_str(), quoted_path, lib);
        text.append("\n\n");
        steps.push(Step::Print { text });
        assert(steps_view(steps@) =~= plan_with(self.name@, self.path@, lib@, quoted_path@));
        steps
    }

    /// The steps that generate this project, in the order they are to be
    /// carried out; a run stops at the first step that fails.
    pub fn build_structure(&self) -> (r: Vec<Step>)
        ensures
            steps_view(r@) == plan(self.name@, self.path@),
    {
        let lib = name_formatter(self.name.as_str());
        let quoted = debug_quoted(self.path.as_str());
        self.steps_for(lib.as_str(), quoted.as_str())
    }
}

/// Two runs for the same project carry out the same steps: the same
/// directories, and each file written with the same contents.
pub proof fn lemma_plan_deterministic(a: &Project, b: &Project)
    requires
        a.name@ == b.name@,
        a.path@ == b.path@,
    ensures
        plan(a.name@, a.path@) == plan(b.name@, b.path@),
{
}

/// The directories are created before anything else, and no later step
/// creates one: every file is written only after that creation succeeded.
pub proof fn lemma_directories_first(name: Seq<char>, path: Seq<char>)
    ensures
        plan(name, path).len() == 6,
        plan(name, path)[0] == (StepView::CreateDirAll { path: joined(path, "src"@) }),
        forall|i: int| 1 <= i < plan(name, path).len() ==> !(plan(name, path)[i] is CreateDirAll),
{
}

/// The native library stub is the same text whatever the project: the step
/// that writes `src/lib.rs` writes the same contents for any two projects.
pub proof fn lemma_rustlib_independent_of_project(
    name1: Seq<char>,
    path1: Seq<char>,
    name2: Seq<char>,
    path2: Seq<char>,
)
    ensures
        plan(name1, path1)[3] == (StepView::WriteFile {
            path: joined(path1, "src/lib.rs"@),
            contents: rustlib_text(),
        }),
        plan(name1, path1)[3]->WriteFile_contents == plan(name2, path2)[3]->WriteFile_contents,
{
}

/// Every file is written inside the project directory, under the name the
/// layout gives it; the binding descriptor is named by the normalized name.
pub proof fn lemma_file_paths(name: Seq<char>, path: Seq<char>)
    ensures
        plan(name, path)[1]->WriteFile_path == joined(path, "project.godot"@),
        plan(name, path)[2]->WriteFile_path == joined(path, "Cargo.toml"@),
        plan(name, path)[4]->WriteFile_path == joined(path, normalized(name) + ".gdnlib"@),
        plan(name, path)[2]->WriteFile_contents == cargo_text(normalized(name)),
        plan(name, path)[1]->WriteFile_contents == godot_text(name),
{
}

} // verus!
