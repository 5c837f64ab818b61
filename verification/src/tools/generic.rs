//! Any command, with its output truncated.
use crate::compress::generic::GenericCompressor;
use crate::compress::Compressor;
use crate::runner::RunResult;
use crate::text::convert::texts;
use crate::tools::{copy_from, failure_report, report_text, success_report, Plan, PlanView, Tool};
use crate::truncate::truncated;
use vstd::prelude::*;

verus! {

/// Generic fallback tool: execute any command, truncate output.
pub struct GenericTool {
    args: Vec<String>,
}

impl GenericTool {
    /// The program and its arguments.
    pub closed spec fn args(&self) -> Seq<Seq<char>> {
        texts(self.args@)
    }

    /// The tool for the given command: the program and its arguments.
    pub fn new(args: Vec<String>) -> (tool: Self)
        ensures
            tool.args() == texts(args@),
    {
        Self { args }
    }
}

impl Tool for GenericTool {
    /// The first argument is the program, the others are its arguments;
    /// without any there is nothing to run.
    open spec fn planned(&self) -> PlanView {
        if self.args().len() == 0 {
            PlanView::Answer("[run] error: no command provided"@)
        } else {
            PlanView::Run(self.args()[0], self.args().skip(1))
        }
    }

    open spec fn reported(&self, outcome: Result<RunResult, String>) -> Seq<char> {
        report_text("run"@, |raw: Seq<char>| truncated(raw), outcome)
    }

    fn plan(&self) -> (p: Plan) {
        if self.args.len() == 0 {
            Plan::Answer("[run] error: no command provided".to_owned())
        } else {
            Plan::Run(self.args[0].clone(), copy_from(&self.args, 1))
        }
    }

    fn report(&self, outcome: &Result<RunResult, String>) -> (out: String) {
        match outcome {
            Ok(result) => {
                let raw = result.combined();
                let summary = GenericCompressor.compress(raw.as_str(), None);
                success_report(&summary, "run", result)
            },
            Err(reason) => failure_report("run", reason),
        }
    }
}

} // verus!
