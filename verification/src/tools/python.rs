//! Running the tools of the Python ecosystem: pytest, ruff, mypy and uv.
use crate::compress::python::{python_summary, PythonCompressor};
use crate::compress::Compressor;
use crate::runner::RunResult;
use crate::text::convert::{str_equals, texts};
use crate::tools::{
    arg_if, copy_from, failure_report, has_arg, names, push_arg, push_arg_if, push_copies,
    report_text, success_report, Plan, PlanView, Tool,
};
use vstd::prelude::*;

verus! {

/// Python and uv tool: dispatches to the right program and compresses
/// output.
pub struct PythonTool {
    args: Vec<String>,
}

/// A command of the Python ecosystem: the program, its arguments, and the
/// key by which its output is summarised.
pub ghost struct PythonCommand {
    pub program: Seq<char>,
    pub args: Seq<Seq<char>>,
    pub key: Seq<char>,
}

/// The key for the output of `uv pip` followed by `pip_sub`.
pub open spec fn pip_key(pip_sub: Seq<char>) -> Seq<char> {
    if pip_sub == "list"@ || pip_sub == "freeze"@ {
        "list"@
    } else if pip_sub == "outdated"@ {
        "outdated"@
    } else {
        "pip"@
    }
}

/// The command for the given arguments.
///
/// The test runner stops at the first failure and is quiet unless told how
/// loud to be; the linter checks unless told otherwise; everything else
/// but mypy goes to `uv`, with the key of its subcommand where
/// that has a summary of its own.
pub open spec fn python_command(args: Seq<Seq<char>>) -> PythonCommand {
    if args.len() == 0 {
        PythonCommand { program: "python"@, args: seq!["--version"@], key: "run"@ }
    } else {
        let sub = args[0];
        let rest = args.skip(1);
        if sub == "pytest"@ || sub == "test"@ {
            let loud = names(rest, "-v"@) || names(rest, "--verbose"@) || names(rest, "-q"@);
            PythonCommand {
                program: "pytest"@,
                args: arg_if(!loud, "-x"@) + arg_if(!loud, "-q"@) + rest,
                key: "pytest"@,
            }
        } else if sub == "ruff"@ {
            PythonCommand {
                program: "ruff"@,
                args: if rest.len() == 0 {
                    seq!["check"@]
                } else {
                    rest
                },
                key: "ruff"@,
            }
        } else if sub == "mypy"@ {
            PythonCommand { program: "mypy"@, args: rest, key: "mypy"@ }
        } else if sub == "pip"@ {
            if rest.len() == 0 {
                PythonCommand { program: "uv"@, args: seq!["pip"@, "list"@], key: "list"@ }
            } else {
                PythonCommand { program: "uv"@, args: args, key: pip_key(rest[0]) }
            }
        } else if sub == "sync"@ || sub == "lock"@ || sub == "add"@ || sub == "remove"@ {
            PythonCommand { program: "uv"@, args: args, key: sub }
        } else {
            PythonCommand { program: "uv"@, args: args, key: "run"@ }
        }
    }
}

impl PythonTool {
    /// The arguments as given: the subcommand and what follows it.
    pub closed spec fn args(&self) -> Seq<Seq<char>> {
        texts(self.args@)
    }

    /// The tool for the given arguments: the subcommand and what follows it.
    pub fn new(args: Vec<String>) -> (tool: Self)
        ensures
            tool.args() == texts(args@),
    {
        Self { args }
    }

    /// Determine which program to run, with which arguments, and what key
    /// to compress by.
    pub fn build_command(&self) -> (c: (&'static str, Vec<String>, &'static str))
        ensures
            (PythonCommand { program: c.0@, args: texts(c.1@), key: c.2@ }) == python_command(
                self.args(),
            ),
    {
        let mut out: Vec<String> = Vec::new();
        if self.args.len() == 0 {
            push_arg(&mut out, "--version");
            assert(texts(out@) =~= seq!["--version"@]);
            return ("python", out, "run");
        }
        let sub = self.args[0].as_str();
        let ghost rest = texts(self.args@).skip(1);
        assert(rest.len() == self.args.len() - 1);
        assert(texts(self.args@).skip(0) =~= texts(self.args@));
        if str_equals(sub, "pytest") || str_equals(sub, "test") {
            let loud = has_arg(&self.args, 1, "-v") || has_arg(&self.args, 1, "--verbose")
                || has_arg(&self.args, 1, "-q");
            push_arg_if(&mut out, !loud, "-x");
            push_arg_if(&mut out, !loud, "-q");
            push_copies(&mut out, &self.args, 1);
            assert(texts(out@) =~= arg_if(!loud, "-x"@) + arg_if(!loud, "-q"@) + rest);
            ("pytest", out, "pytest")
        } else if str_equals(sub, "ruff") {
            if self.args.len() == 1 {
                push_arg(&mut out, "check");
                assert(texts(out@) =~= seq!["check"@]);
            } else {
                push_copies(&mut out, &self.args, 1);
                assert(texts(out@) =~= rest);
            }
            ("ruff", out, "ruff")
        } else if str_equals(sub, "mypy") {
            ("mypy", copy_from(&self.args, 1), "mypy")
        } else if str_equals(sub, "pip") {
            if self.args.len() == 1 {
                push_arg(&mut out, "pip");
                push_arg(&mut out, "list");
                assert(texts(out@) =~= seq!["pip"@, "list"@]);
                ("uv", out, "list")
            } else {
                let pip_sub = self.args[1].as_str();
                assert(rest[0] == pip_sub@);
                let key = if str_equals(pip_sub, "list") || str_equals(pip_sub, "freeze") {
                    "list"
                } else if str_equals(pip_sub, "outdated") {
                    "outdated"
                } else {
                    "pip"
                };
                ("uv", copy_from(&self.args, 0), key)
            }
        } else if str_equals(sub, "sync") {
            ("uv", copy_from(&self.args, 0), "sync")
        } else if str_equals(sub, "lock") {
            ("uv", copy_from(&self.args, 0), "lock")
        } else if str_equals(sub, "add") {
            ("uv", copy_from(&self.args, 0), "add")
        } else if str_equals(sub, "remove") {
            ("uv", copy_from(&self.args, 0), "remove")
        } else {
            ("uv", copy_from(&self.args, 0), "run")
        }
    }
}

impl Tool for PythonTool {
    open spec fn planned(&self) -> PlanView {
        PlanView::Run(python_command(self.args()).program, python_command(self.args()).args)
    }

    open spec fn reported(&self, outcome: Result<RunResult, String>) -> Seq<char> {
        report_text(
            "python"@,
            |raw: Seq<char>| python_summary(raw, python_command(self.args()).key),
            outcome,
        )
    }

    fn plan(&self) -> (p: Plan) {
        let (program, args, key) = self.build_command();
        Plan::Run(program.to_owned(), args)
    }

    fn report(&self, outcome: &Result<RunResult, String>) -> (out: String) {
        match outcome {
            Ok(result) => {
                let raw = result.combined();
                let (program, args, key) = self.build_command();
                let summary = PythonCompressor.compress(raw.as_str(), Some(key));
                success_report(&summary, "python", result)
            },
            Err(reason) => failure_report("python", reason),
        }
    }
}

} // verus!
