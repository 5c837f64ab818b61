//! Settings, their defaults, and how a partial file overrides them; and the
//! kinds of project that a directory can hold.
use crate::text::convert::{str_equals, texts};
use vstd::prelude::*;

verus! {

/// Global and per-project configuration.
#[derive(Debug, Clone)]
pub struct Config {
    /// Maximum lines before truncation.
    pub max_lines: usize,
    /// Maximum characters per line.
    pub max_line_len: usize,
    /// Show timing footer on each command.
    pub show_footer: bool,
    /// Directories to skip in a tree listing.
    pub ls_skip: Vec<String>,
    /// Max depth for a tree listing.
    pub ls_max_depth: usize,
    /// Max entries for a tree listing.
    pub ls_max_entries: usize,
}

/// The directory names that a tree listing skips by default.
pub open spec fn default_skip() -> Seq<Seq<char>> {
    seq![
        "target"@,
        "node_modules"@,
        ".git"@,
        "__pycache__"@,
        ".DS_Store"@,
        "dist"@,
        "build"@,
        ".next"@,
        ".cache"@,
        "coverage"@,
        ".venv"@,
        "venv"@,
    ]
}

impl Config {
    /// Whether this is the configuration in force when no file says
    /// otherwise.
    pub open spec fn is_default(&self) -> bool {
        &&& self.max_lines == 150
        &&& self.max_line_len == 300
        &&& self.show_footer
        &&& texts(self.ls_skip@) == default_skip()
        &&& self.ls_max_depth == 4
        &&& self.ls_max_entries == 200
    }
}

impl Default for Config {
    fn default() -> (c: Self)
        ensures
            c.is_default(),
    {
        let mut ls_skip: Vec<String> = Vec::new();
        ls_skip.push("target".to_owned());
        ls_skip.push("node_modules".to_owned());
        ls_skip.push(".git".to_owned());
        ls_skip.push("__pycache__".to_owned());
        ls_skip.push(".DS_Store".to_owned());
        ls_skip.push("dist".to_owned());
        ls_skip.push("build".to_owned());
        ls_skip.push(".next".to_owned());
        ls_skip.push(".cache".to_owned());
        ls_skip.push("coverage".to_owned());
        ls_skip.push(".venv".to_owned());
        ls_skip.push("venv".to_owned());
        assert(texts(ls_skip@) =~= default_skip());
        Config {
            max_lines: 150,
            max_line_len: 300,
            show_footer: true,
            ls_skip,
            ls_max_depth: 4,
            ls_max_entries: 200,
        }
    }
}

/// The content of a default configuration file.
pub const DEFAULT_TOML: &'static str = "# cx-proxy configuration
# Place in ~/.config/cx/config.toml (global) or .cx.toml (per-project)

# Truncation limits
max_lines = 150
max_line_len = 300

# Show timing footer after each command
show_footer = true

# Directories to skip in `cx ls`
ls_skip = [
    \"target\", \"node_modules\", \".git\", \"__pycache__\",
    \".DS_Store\", \"dist\", \"build\", \".next\", \".cache\",
    \"coverage\", \".venv\", \"venv\",
]

# Tree listing limits
ls_max_depth = 4
ls_max_entries = 200
";

/// What a configuration file holds: every setting is optional.
#[derive(Debug)]
pub struct PartialConfig {
    pub max_lines: Option<usize>,
    pub max_line_len: Option<usize>,
    pub show_footer: Option<bool>,
    pub ls_skip: Option<Vec<String>>,
    pub ls_max_depth: Option<usize>,
    pub ls_max_entries: Option<usize>,
}

/// `base` with every setting that `partial` holds taken from there.
pub open spec fn merged(base: Config, partial: PartialConfig) -> Config {
    Config {
        max_lines: match partial.max_lines {
            Some(v) => v,
            None => base.max_lines,
        },
        max_line_len: match partial.max_line_len {
            Some(v) => v,
            None => base.max_line_len,
        },
        show_footer: match partial.show_footer {
            Some(v) => v,
            None => base.show_footer,
        },
        ls_skip: match partial.ls_skip {
            Some(v) => v,
            None => base.ls_skip,
        },
        ls_max_depth: match partial.ls_max_depth {
            Some(v) => v,
            None => base.ls_max_depth,
        },
        ls_max_entries: match partial.ls_max_entries {
            Some(v) => v,
            None => base.ls_max_entries,
        },
    }
}

/// `base` overridden by a file, if there is one.
pub open spec fn overridden(base: Config, file: Option<PartialConfig>) -> Config {
    match file {
        Some(partial) => merged(base, partial),
        None => base,
    }
}

/// Override the settings of `base` with those that `partial` holds.
pub fn merge(base: Config, partial: PartialConfig) -> (c: Config)
    ensures
        c == merged(base, partial),
{
    Config {
        max_lines: match partial.max_lines {
            Some(v) => v,
            None => base.max_lines,
        },
        max_line_len: match partial.max_line_len {
            Some(v) => v,
            None => base.max_line_len,
        },
        show_footer: match partial.show_footer {
            Some(v) => v,
            None => base.show_footer,
        },
        ls_skip: match partial.ls_skip {
            Some(v) => v,
            None => base.ls_skip,
        },
        ls_max_depth: match partial.ls_max_depth {
            Some(v) => v,
            None => base.ls_max_depth,
        },
        ls_max_entries: match partial.ls_max_entries {
            Some(v) => v,
            None => base.ls_max_entries,
        },
    }
}

impl Config {
    /// The configuration in force, given what the global and the project
    /// file hold: the project file overrides the global one, which overrides
    /// the defaults. A file that is missing or unreadable is `None`.
    pub fn load(global: Option<PartialConfig>, project: Option<PartialConfig>) -> (c: Config)
        ensures
            exists|base: Config|
                base.is_default() && c == overridden(overridden(base, global), project),
    {
        let base = Config::default();
        let with_global = match global {
            Some(partial) => merge(base, partial),
            None => base,
        };
        match project {
            Some(partial) => merge(with_global, partial),
            None => with_global,
        }
    }

    /// Generate a default config file content.
    pub fn default_toml() -> (content: &'static str)
        ensures
            content@ == DEFAULT_TOML@,
    {
        DEFAULT_TOML
    }
}

/// A kind of project, told by the files in its directory.
#[derive(Debug, Clone, Copy, PartialEq, Eq, Structural)]
pub enum ProjectType {
    Rust,
    Node,
    Python,
    Go,
    Docker,
    Make,
}

impl ProjectType {
    /// The name of the kind, in lower case.
    pub open spec fn name(&self) -> Seq<char> {
        match self {
            ProjectType::Rust => "rust"@,
            ProjectType::Node => "node"@,
            ProjectType::Python => "python"@,
            ProjectType::Go => "go"@,
            ProjectType::Docker => "docker"@,
            ProjectType::Make => "make"@,
        }
    }

    /// The name of the kind, in lower case.
    pub fn to_string(&self) -> (out: String)
        ensures
            out@ == self.name(),
    {
        match self {
            ProjectType::Rust => "rust".to_owned(),
            ProjectType::Node => "node".to_owned(),
            ProjectType::Python => "python".to_owned(),
            ProjectType::Go => "go".to_owned(),
            ProjectType::Docker => "docker".to_owned(),
            ProjectType::Make => "make".to_owned(),
        }
    }
}

/// The file names that tell a project's kind, in the order in which they
/// are looked for.
pub open spec fn markers() -> Seq<Seq<char>> {
    seq![
        "Cargo.toml"@,
        "package.json"@,
        "pyproject.toml"@,
        "setup.py"@,
        "requirements.txt"@,
        "go.mod"@,
        "Dockerfile"@,
        "docker-compose.yml"@,
        "compose.yml"@,
        "Makefile"@,
    ]
}

/// `[kind]` if `found`, else nothing.
pub open spec fn kind_if(found: bool, kind: ProjectType) -> Seq<ProjectType> {
    if found {
        seq![kind]
    } else {
        Seq::empty()
    }
}

/// The kinds of project that a directory with the files `present` holds.
pub open spec fn detected(present: Seq<Seq<char>>) -> Seq<ProjectType> {
    kind_if(present.contains("Cargo.toml"@), ProjectType::Rust) + kind_if(
        present.contains("package.json"@),
        ProjectType::Node,
    ) + kind_if(
        present.contains("pyproject.toml"@) || present.contains("setup.py"@) || present.contains(
            "requirements.txt"@,
        ),
        ProjectType::Python,
    ) + kind_if(present.contains("go.mod"@), ProjectType::Go) + kind_if(
        present.contains("Dockerfile"@) || present.contains("docker-compose.yml"@)
            || present.contains("compose.yml"@),
        ProjectType::Docker,
    ) + kind_if(present.contains("Makefile"@), ProjectType::Make)
}

/// The file names to look for in a directory before calling
/// [`detect_project`].
pub fn project_markers() -> (names: Vec<String>)
    ensures
        texts(names@) == markers(),
{
    let mut names: Vec<String> = Vec::new();
    names.push("Cargo.toml".to_owned());
    names.push("package.json".to_owned());
    names.push("pyproject.toml".to_owned());
    names.push("setup.py".to_owned());
    names.push("requirements.txt".to_owned());
    names.push("go.mod".to_owned());
    names.push("Dockerfile".to_owned());
    names.push("docker-compose.yml".to_owned());
    names.push("compose.yml".to_owned());
    names.push("Makefile".to_owned());
    assert(texts(names@) =~= markers());
    names
}

/// Whether one of the names is `name`.
pub fn has_name(names: &Vec<String>, name: &str) -> (b: bool)
    ensures
        b == texts(names@).contains(name@),
{
    let mut i: usize = 0;
    while i < names.len()
        invariant
            i <= names.len(),
            forall|k: int| 0 <= k < i ==> texts(names@)[k] != name@,
        decreases names.len() - i,
    {
        if str_equals(names[i].as_str(), name) {
            assert(texts(names@)[i as int] == name@);
            return true;
        }
        i += 1;
    }
    false
}

fn push_kind_if(out: &mut Vec<ProjectType>, found: bool, kind: ProjectType)
    ensures
        final(out)@ == old(out)@ + kind_if(found, kind),
{
    if found {
        out.push(kind);
        assert(out@ =~= old(out)@ + seq![kind]);
    } else {
        assert(out@ =~= old(out)@ + Seq::<ProjectType>::empty());
    }
}

/// Detect the project type from the names of the files that are present in
/// its directory.
pub fn detect_project(present: &Vec<String>) -> (types: Vec<ProjectType>)
    ensures
        types@ == detected(texts(present@)),
{
    let mut types: Vec<ProjectType> = Vec::new();
    push_kind_if(&mut types, has_name(present, "Cargo.toml"), ProjectType::Rust);
    push_kind_if(&mut types, has_name(present, "package.json"), ProjectType::Node);
    push_kind_if(
        &mut types,
        has_name(present, "pyproject.toml") || has_name(present, "setup.py") || has_name(
            present,
            "requirements.txt",
        ),
        ProjectType::Python,
    );
    push_kind_if(&mut types, has_name(present, "go.mod"), ProjectType::Go);
    push_kind_if(
        &mut types,
        has_name(present, "Dockerfile") || has_name(present, "docker-compose.yml") || has_name(
            present,
            "compose.yml",
        ),
        ProjectType::Docker,
    );
    push_kind_if(&mut types, has_name(present, "Makefile"), ProjectType::Make);
    assert(types@ =~= detected(texts(present@)));
    types
}

} // verus!
