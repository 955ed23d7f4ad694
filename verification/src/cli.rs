//! The arguments of a run, as the command line gives them.

use crate::result::OutputFormat;
use vstd::prelude::*;

verus! {

/// What is shown for a query that was not given.
pub const NOT_PROVIDED: &'static str = "<NOT PROVIDED>";

/// The command of a run.
#[derive(Debug, Clone, PartialEq, Eq)]
pub enum GraphQCommand {
    /// Start the console, or run the one query that is given.
    Run {
        /// The query; `-` stands for the standard input.
        query: Option<String>,
        /// Show the rows of the query in the pager.
        page_results: bool,
        /// Benchmark the query.
        benchmark: bool,
        /// The number of measured runs of a benchmark.
        bench_num_runs: u16,
        /// The number of warmup runs of a benchmark.
        bench_num_warmup_runs: u16,
        /// Show the query before it runs.
        print_query: bool,
        /// Write the rows of the query to a file.
        write_results: bool,
        /// The directory that the rows are written to.
        results_directory: String,
        /// The format that the rows are written in.
        results_format: OutputFormat,
    },
}

/// The arguments of a run.
#[derive(Debug, Clone, PartialEq, Eq)]
pub struct Args {
    pub command: GraphQCommand,
    /// Show the arguments and do nothing else.
    pub debug: bool,
}

/// The text of a query that may not be given.
pub open spec fn query_text(query: Option<String>) -> Seq<char> {
    match query {
        Some(q) => q@,
        None => NOT_PROVIDED@,
    }
}

impl Args {
    /// The query of the command, if one is given.
    pub open spec fn spec_query(&self) -> Option<String> {
        match self.command {
            GraphQCommand::Run { query, .. } => query,
        }
    }

    /// The text that shows the arguments: the command, and the query where
    /// one is given.
    pub open spec fn spec_text(&self) -> Seq<char> {
        "\ncommand:    Run\nquery:\n"@ + query_text(self.spec_query()) + "\n"@
    }

    /// The text that shows the arguments.
    pub fn to_text(&self) -> (r: String)
        ensures
            r@ == self.spec_text(),
    {
        match &self.command {
            GraphQCommand::Run { query, .. } => {
                let shown = match query {
                    Some(q) => q.as_str(),
                    None => NOT_PROVIDED,
                };
                String::from_str("\ncommand:    Run\nquery:\n").concat(shown).concat("\n")
            },
        }
    }
}

} // verus!
