//! The commands of the command line, and the task that each of them stands
//! for.
use crate::config::Config;
use crate::text::convert::texts;
use crate::tools::cargo::CargoTool;
use crate::tools::docker::DockerTool;
use crate::tools::fs::FsTool;
use crate::tools::generic::GenericTool;
use crate::tools::git::GitTool;
use crate::tools::grep::GrepTool;
use crate::tools::python::PythonTool;
use vstd::prelude::*;

verus! {

/// A parsed command line.
pub struct Cli {
    pub command: Commands,
}

/// The commands.
pub enum Commands {
    /// Git proxy: status, diff, log, branch, stash, merge, push, …
    Git { args: Vec<String> },
    /// Cargo proxy: build, test, clippy, fmt, run, bench, doc, …
    Cargo { args: Vec<String> },
    /// Compact directory tree listing; the path defaults to the current
    /// directory.
    Ls { path: Option<String> },
    /// Search with grep or ripgrep, grouped by file; the path defaults to
    /// the current directory.
    Grep { pattern: String, path: Option<String>, rg: bool },
    /// Python and uv proxy: pytest, ruff, mypy, pip, sync, …
    Python { args: Vec<String> },
    /// Docker and container commands.
    Docker { args: Vec<String> },
    /// Run any command and truncate output.
    Run { args: Vec<String> },
    /// Show detected project type and current config.
    Info,
    /// Generate a default config file, in the user's configuration
    /// directory if `global`, else in the current directory.
    Init { global: bool },
}

/// What is to be done for a command.
pub enum Task {
    Git(GitTool),
    Cargo(CargoTool),
    Ls(FsTool),
    Grep(GrepTool),
    Python(PythonTool),
    Docker(DockerTool),
    Run(GenericTool),
    Info,
    Init(bool),
}

/// The given path, or the current directory.
pub open spec fn path_or_here(path: Option<String>) -> Seq<char> {
    match path {
        Some(p) => p@,
        None => "."@,
    }
}

/// Whether `task` is what the command stands for: the tool of its family,
/// made from its arguments.
pub open spec fn stands_for(command: Commands, cfg: Config, task: Task) -> bool {
    match command {
        Commands::Git { args } => task matches Task::Git(tool) && tool.args() == texts(args@),
        Commands::Cargo { args } => task matches Task::Cargo(tool) && tool.args() == texts(args@),
        Commands::Ls { path } => task matches Task::Ls(tool) && tool.root() == path_or_here(path)
            && tool.max_depth() == cfg.ls_max_depth && tool.max_entries() == cfg.ls_max_entries
            && tool.skip() == texts(cfg.ls_skip@),
        Commands::Grep { pattern, path, rg } => task matches Task::Grep(tool) && tool.pattern()
            == pattern@ && tool.path() == path_or_here(path) && tool.use_rg() == rg,
        Commands::Python { args } => task matches Task::Python(tool) && tool.args() == texts(
            args@,
        ),
        Commands::Docker { args } => task matches Task::Docker(tool) && tool.args() == texts(
            args@,
        ),
        Commands::Run { args } => task matches Task::Run(tool) && tool.args() == texts(args@),
        Commands::Info => task is Info,
        Commands::Init { global } => task matches Task::Init(g) && g == global,
    }
}

fn or_here(path: Option<String>) -> (out: String)
    ensures
        out@ == path_or_here(path),
{
    match path {
        Some(p) => p,
        None => ".".to_owned(),
    }
}

impl Cli {
    /// The task for the command.
    pub fn task(self, cfg: &Config) -> (task: Task)
        ensures
            stands_for(self.command, *cfg, task),
    {
        match self.command {
            Commands::Git { args } => Task::Git(GitTool::new(args)),
            Commands::Cargo { args } => Task::Cargo(CargoTool::new(args)),
            Commands::Ls { path } => Task::Ls(FsTool::new(or_here(path), cfg)),
            Commands::Grep { pattern, path, rg } => Task::Grep(
                GrepTool::new(pattern, or_here(path), rg),
            ),
            Commands::Python { args } => Task::Python(PythonTool::new(args)),
            Commands::Docker { args } => Task::Docker(DockerTool::new(args)),
            Commands::Run { args } => Task::Run(GenericTool::new(args)),
            Commands::Info => Task::Info,
            Commands::Init { global } => Task::Init(global),
        }
    }
}

} // verus!
