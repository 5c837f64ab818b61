//! Running docker.
use crate::compress::docker::{docker_summary, DockerCompressor};
use crate::compress::Compressor;
use crate::runner::RunResult;
use crate::text::convert::texts;
use crate::tools::{copy_from, failure_report, report_text, success_report, Plan, PlanView, Tool};
use vstd::prelude::*;

verus! {

/// Docker tool: runs docker subcommands, compresses output.
pub struct DockerTool {
    args: Vec<String>,
}

impl DockerTool {
    /// The arguments as given: the subcommand and what follows it.
    pub closed spec fn args(&self) -> Seq<Seq<char>> {
        texts(self.args@)
    }

    /// The tool for the given arguments: the subcommand and what follows it.
    pub fn new(args: Vec<String>) -> (tool: Self)
        ensures
            tool.args() == texts(args@),
    {
        Self { args }
    }
}

impl Tool for DockerTool {
    open spec fn planned(&self) -> PlanView {
        if self.args().len() == 0 {
            PlanView::Answer("[docker] error: needs a subcommand (ps, images, logs, …)"@)
        } else {
            PlanView::Run("docker"@, self.args())
        }
    }

    /// The summary for the subcommand and the footer; without a subcommand,
    /// the answer of the plan.
    open spec fn reported(&self, outcome: Result<RunResult, String>) -> Seq<char> {
        if self.args().len() == 0 {
            "[docker] error: needs a subcommand (ps, images, logs, …)"@
        } else {
            report_text("docker"@, |raw: Seq<char>| docker_summary(raw, self.args()[0]), outcome)
        }
    }

    fn plan(&self) -> (p: Plan) {
        if self.args.len() == 0 {
            Plan::Answer("[docker] error: needs a subcommand (ps, images, logs, …)".to_owned())
        } else {
            let args = copy_from(&self.args, 0);
            assert(texts(self.args@).skip(0) =~= texts(self.args@));
            Plan::Run("docker".to_owned(), args)
        }
    }

    fn report(&self, outcome: &Result<RunResult, String>) -> (out: String) {
        if self.args.len() == 0 {
            return "[docker] error: needs a subcommand (ps, images, logs, …)".to_owned();
        }
        match outcome {
            Ok(result) => {
                let raw = result.combined();
                let summary = DockerCompressor.compress(raw.as_str(), Some(self.args[0].as_str()));
                success_report(&summary, "docker", result)
            },
            Err(reason) => failure_report("docker", reason),
        }
    }
}

} // verus!
