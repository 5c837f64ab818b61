//! Running cargo.
use crate::compress::cargo::{cargo_summary, CargoCompressor};
use crate::compress::Compressor;
use crate::runner::RunResult;
use crate::text::convert::{str_equals, texts};
use crate::tools::{
    any_starts_with, arg_if, failure_report, has_arg, has_arg_with_prefix, names, push_arg,
    push_arg_if, push_copies, report_text, success_report, Plan, PlanView, Tool,
};
use vstd::prelude::*;

verus! {

/// Cargo tool: runs cargo subcommands with smart defaults, compresses
/// output.
pub struct CargoTool {
    args: Vec<String>,
}

/// The flags that are put in by default behind the subcommand `sub`, given
/// the arguments `rest` that follow it.
pub open spec fn cargo_defaults(sub: Seq<char>, rest: Seq<Seq<char>>) -> Seq<Seq<char>> {
    if sub == "fmt"@ {
        arg_if(rest.len() == 0, "--check"@)
    } else if sub == "clippy"@ {
        arg_if(!any_starts_with(rest, "--message-format"@), "--message-format=short"@)
    } else if sub == "doc"@ {
        arg_if(!names(rest, "--no-deps"@), "--no-deps"@)
    } else {
        Seq::empty()
    }
}

/// The arguments that cargo is run with: `check` where none are given, else
/// the given ones with the defaults of the subcommand right behind it.
pub open spec fn cargo_args(args: Seq<Seq<char>>) -> Seq<Seq<char>> {
    if args.len() == 0 {
        seq!["check"@]
    } else {
        seq![args[0]] + cargo_defaults(args[0], args.skip(1)) + args.skip(1)
    }
}

impl CargoTool {
    /// The arguments as given: the subcommand and what follows it.
    pub closed spec fn args(&self) -> Seq<Seq<char>> {
        texts(self.args@)
    }

    /// The tool for the given arguments: the subcommand and what follows it.
    pub fn new(args: Vec<String>) -> (tool: Self)
        ensures
            tool.args() == texts(args@),
    {
        Self { args }
    }

    /// Inject sensible defaults per subcommand: `fmt` only checks, `clippy`
    /// reports in short form, and `doc` leaves the dependencies out.
    pub fn build_args(&self) -> (out: Vec<String>)
        ensures
            texts(out@) == cargo_args(self.args()),
    {
        let mut out: Vec<String> = Vec::new();
        if self.args.len() == 0 {
            push_arg(&mut out, "check");
            assert(texts(out@) =~= seq!["check"@]);
            return out;
        }
        let sub = self.args[0].as_str();
        let ghost rest = texts(self.args@).skip(1);
        push_arg(&mut out, sub);
        assert(texts(out@) =~= seq![self.args()[0]]);
        if str_equals(sub, "fmt") {
            assert(rest.len() == self.args.len() - 1);
            push_arg_if(&mut out, self.args.len() == 1, "--check");
        } else if str_equals(sub, "clippy") {
            let given = has_arg_with_prefix(&self.args, 1, "--message-format");
            push_arg_if(&mut out, !given, "--message-format=short");
        } else if str_equals(sub, "doc") {
            let given = has_arg(&self.args, 1, "--no-deps");
            push_arg_if(&mut out, !given, "--no-deps");
        } else {
            assert(texts(out@) =~= seq![self.args()[0]] + Seq::<Seq<char>>::empty());
        }
        push_copies(&mut out, &self.args, 1);
        out
    }
}

impl Tool for CargoTool {
    open spec fn planned(&self) -> PlanView {
        if self.args().len() == 0 {
            PlanView::Answer("[cargo] error: needs a subcommand (build, test, clippy, …)"@)
        } else {
            PlanView::Run("cargo"@, cargo_args(self.args()))
        }
    }

    /// The summary for the subcommand and the footer; without a subcommand,
    /// the answer of the plan.
    open spec fn reported(&self, outcome: Result<RunResult, String>) -> Seq<char> {
        if self.args().len() == 0 {
            "[cargo] error: needs a subcommand (build, test, clippy, …)"@
        } else {
            report_text("cargo"@, |raw: Seq<char>| cargo_summary(raw, self.args()[0]), outcome)
        }
    }

    fn plan(&self) -> (p: Plan) {
        if self.args.len() == 0 {
            Plan::Answer("[cargo] error: needs a subcommand (build, test, clippy, …)".to_owned())
        } else {
            Plan::Run("cargo".to_owned(), self.build_args())
        }
    }

    fn report(&self, outcome: &Result<RunResult, String>) -> (out: String) {
        if self.args.len() == 0 {
            return "[cargo] error: needs a subcommand (build, test, clippy, …)".to_owned();
        }
        match outcome {
            Ok(result) => {
                let raw = result.combined();
                let summary = CargoCompressor.compress(raw.as_str(), Some(self.args[0].as_str()));
                success_report(&summary, "cargo", result)
            },
            Err(reason) => failure_report("cargo", reason),
        }
    }
}

} // verus!
