//! Searching with grep or ripgrep.
use crate::compress::grep::{grep_summary, GrepCompressor};
use crate::compress::Compressor;
use crate::runner::RunResult;
use crate::text::convert::texts;
use crate::tools::{failure_report, report_text, success_report, Plan, PlanView, Tool};
use vstd::prelude::*;

verus! {

/// Grep tool: runs grep or ripgrep, compresses grouped output.
pub struct GrepTool {
    pattern: String,
    path: String,
    use_rg: bool,
}

impl GrepTool {
    /// What to search for.
    pub closed spec fn pattern(&self) -> Seq<char> {
        self.pattern@
    }

    /// Where to search.
    pub closed spec fn path(&self) -> Seq<char> {
        self.path@
    }

    /// Whether ripgrep is used in place of grep.
    pub closed spec fn use_rg(&self) -> bool {
        self.use_rg
    }

    /// A search for `pattern` below `path`, with ripgrep if `use_rg`.
    pub fn new(pattern: String, path: String, use_rg: bool) -> (tool: Self)
        ensures
            tool.pattern() == pattern@,
            tool.path() == path@,
            tool.use_rg() == use_rg,
    {
        Self { pattern, path, use_rg }
    }

    /// The program and the arguments of the search: line numbers are asked
    /// for, and with ripgrep no headings.
    pub open spec fn command(&self) -> (Seq<char>, Seq<Seq<char>>) {
        if self.use_rg() {
            ("rg"@, seq!["--no-heading"@, "-n"@, self.pattern(), self.path()])
        } else {
            ("grep"@, seq!["-rn"@, self.pattern(), self.path()])
        }
    }

    /// The program to run and its arguments.
    pub fn build_args(&self) -> (r: (&'static str, Vec<String>))
        ensures
            (r.0@, texts(r.1@)) == self.command(),
    {
        let mut args: Vec<String> = Vec::new();
        if self.use_rg {
            args.push("--no-heading".to_owned());
            args.push("-n".to_owned());
            args.push(self.pattern.clone());
            args.push(self.path.clone());
            assert(texts(args@) =~= seq!["--no-heading"@, "-n"@, self.pattern(), self.path()]);
            ("rg", args)
        } else {
            args.push("-rn".to_owned());
            args.push(self.pattern.clone());
            args.push(self.path.clone());
            assert(texts(args@) =~= seq!["-rn"@, self.pattern(), self.path()]);
            ("grep", args)
        }
    }
}

impl Tool for GrepTool {
    open spec fn planned(&self) -> PlanView {
        PlanView::Run(self.command().0, self.command().1)
    }

    open spec fn reported(&self, outcome: Result<RunResult, String>) -> Seq<char> {
        report_text("grep"@, |raw: Seq<char>| grep_summary(raw), outcome)
    }

    fn plan(&self) -> (p: Plan) {
        let (program, args) = self.build_args();
        Plan::Run(program.to_owned(), args)
    }

    fn report(&self, outcome: &Result<RunResult, String>) -> (out: String) {
        match outcome {
            Ok(result) => {
                let raw = result.combined();
                let summary = GrepCompressor.compress(raw.as_str(), None);
                success_report(&summary, "grep", result)
            },
            Err(reason) => failure_report("grep", reason),
        }
    }
}

} // verus!
