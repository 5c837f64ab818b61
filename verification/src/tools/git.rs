//! Running git.
use crate::compress::git::{git_summary, GitCompressor};
use crate::compress::Compressor;
use crate::runner::RunResult;
use crate::text::convert::{str_equals, texts};
use crate::tools::{
    any_starts_with, arg_if, failure_report, has_arg, has_arg_with_prefix, names, push_arg,
    push_arg_if, push_copies, report_text, success_report, Plan, PlanView, Tool,
};
use vstd::prelude::*;

verus! {

/// Git tool: builds git commands with smart defaults, compresses output.
pub struct GitTool {
    args: Vec<String>,
}

/// The flags that are put in by default behind the subcommand `sub`, given
/// the arguments `rest` that follow it.
pub open spec fn git_defaults(sub: Seq<char>, rest: Seq<Seq<char>>) -> Seq<Seq<char>> {
    if sub == "log"@ {
        arg_if(
            !(any_starts_with(rest, "--format"@) || any_starts_with(rest, "--pretty"@)),
            "--oneline"@,
        ) + arg_if(
            !(any_starts_with(rest, "-n"@) || any_starts_with(rest, "--max-count"@)),
            "-n30"@,
        )
    } else if sub == "diff"@ {
        arg_if(
            !(names(rest, "--stat"@) || names(rest, "--name-only"@) || names(rest, "--cached"@)),
            "--stat"@,
        )
    } else if sub == "branch"@ {
        arg_if(rest.len() == 0, "-a"@)
    } else if sub == "stash"@ {
        arg_if(rest.len() == 0, "list"@)
    } else if sub == "remote"@ {
        arg_if(rest.len() == 0, "-v"@)
    } else if sub == "tag"@ {
        arg_if(rest.len() == 0, "-l"@)
    } else if sub == "clean"@ {
        arg_if(!(names(rest, "-f"@) || names(rest, "--force"@)), "-n"@)
    } else {
        Seq::empty()
    }
}

/// The subcommand, and the arguments that git is run with: `status` where
/// none are given, else the given ones with the defaults of the subcommand
/// right behind it.
pub open spec fn git_command(args: Seq<Seq<char>>) -> (Seq<char>, Seq<Seq<char>>) {
    if args.len() == 0 {
        ("status"@, seq!["status"@])
    } else {
        (args[0], seq![args[0]] + git_defaults(args[0], args.skip(1)) + args.skip(1))
    }
}

impl GitTool {
    /// The arguments as given: the subcommand and what follows it.
    pub closed spec fn args(&self) -> Seq<Seq<char>> {
        texts(self.args@)
    }

    /// The tool for the given arguments: the subcommand and what follows it.
    pub fn new(args: Vec<String>) -> (tool: Self)
        ensures
            tool.args() == texts(args@),
    {
        Self { args }
    }

    /// Inject sensible defaults per subcommand: a short log, a statistic in
    /// place of a patch, lists where nothing else is asked for, and a dry
    /// run of `clean` unless it is forced.
    pub fn build_args(&self) -> (r: (String, Vec<String>))
        ensures
            (r.0@, texts(r.1@)) == git_command(self.args()),
    {
        let mut out: Vec<String> = Vec::new();
        if self.args.len() == 0 {
            push_arg(&mut out, "status");
            assert(texts(out@) =~= seq!["status"@]);
            return ("status".to_owned(), out);
        }
        let sub = self.args[0].as_str();
        let ghost rest = texts(self.args@).skip(1);
        assert(rest.len() == self.args.len() - 1);
        let bare = self.args.len() == 1;
        push_arg(&mut out, sub);
        assert(texts(out@) =~= seq![self.args()[0]]);
        if str_equals(sub, "log") {
            let formatted = has_arg_with_prefix(&self.args, 1, "--format") || has_arg_with_prefix(
                &self.args,
                1,
                "--pretty",
            );
            push_arg_if(&mut out, !formatted, "--oneline");
            let limited = has_arg_with_prefix(&self.args, 1, "-n") || has_arg_with_prefix(
                &self.args,
                1,
                "--max-count",
            );
            push_arg_if(&mut out, !limited, "-n30");
            assert(texts(out@) =~= seq![self.args()[0]] + git_defaults(self.args()[0], rest));
        } else if str_equals(sub, "diff") {
            let chosen = has_arg(&self.args, 1, "--stat") || has_arg(&self.args, 1, "--name-only")
                || has_arg(&self.args, 1, "--cached");
            push_arg_if(&mut out, !chosen, "--stat");
        } else if str_equals(sub, "branch") {
            push_arg_if(&mut out, bare, "-a");
        } else if str_equals(sub, "stash") {
            push_arg_if(&mut out, bare, "list");
        } else if str_equals(sub, "remote") {
            push_arg_if(&mut out, bare, "-v");
        } else if str_equals(sub, "tag") {
            push_arg_if(&mut out, bare, "-l");
        } else if str_equals(sub, "clean") {
            let forced = has_arg(&self.args, 1, "-f") || has_arg(&self.args, 1, "--force");
            push_arg_if(&mut out, !forced, "-n");
        } else {
            assert(texts(out@) =~= seq![self.args()[0]] + Seq::<Seq<char>>::empty());
        }
        push_copies(&mut out, &self.args, 1);
        (self.args[0].clone(), out)
    }
}

impl Tool for GitTool {
    open spec fn planned(&self) -> PlanView {
        PlanView::Run("git"@, git_command(self.args()).1)
    }

    open spec fn reported(&self, outcome: Result<RunResult, String>) -> Seq<char> {
        report_text(
            "git"@,
            |raw: Seq<char>| git_summary(raw, git_command(self.args()).0),
            outcome,
        )
    }

    fn plan(&self) -> (p: Plan) {
        let (sub, args) = self.build_args();
        Plan::Run("git".to_owned(), args)
    }

    fn report(&self, outcome: &Result<RunResult, String>) -> (out: String) {
        match outcome {
            Ok(result) => {
                let raw = result.combined();
                let sub = if self.args.len() == 0 {
                    "status"
                } else {
                    self.args[0].as_str()
                };
                let summary = GitCompressor.compress(raw.as_str(), Some(sub));
                success_report(&summary, "git", result)
            },
            Err(reason) => failure_report("git", reason),
        }
    }
}

} // verus!
