//! What a run does: which mode the arguments ask for, where the query comes
//! from, and how the rows of a one-off query are delivered.

use crate::cli::{Args, GraphQCommand};
use crate::text::{str_eq, trim, trimmed};
use vstd::prelude::*;

verus! {

/// The message for a query that is to be benchmarked and written at once.
pub const BENCHMARK_AND_WRITE: &'static str = "cannot benchmark and write results at the same time";

/// The notice for a query without rows.
pub const NO_RESULTS: &'static str = "No results";

/// The query argument that stands for the standard input.
pub const STDIN_MARK: &'static str = "-";

/// The mode of a run.
#[derive(Debug, Clone, Copy, PartialEq, Eq, Structural)]
pub enum RunMode {
    /// Show the arguments and stop.
    Debug,
    /// Start the console.
    Console,
    /// Run the one query that is given.
    Query,
}

/// The mode that the arguments ask for: showing the arguments comes first,
/// then the query where one is given, else the console.
pub open spec fn mode_of(args: Args) -> RunMode {
    if args.debug {
        RunMode::Debug
    } else {
        match args.spec_query() {
            Some(_) => RunMode::Query,
            None => RunMode::Console,
        }
    }
}

/// The mode that the arguments ask for.
pub fn run_mode(args: &Args) -> (r: RunMode)
    ensures
        r == mode_of(*args),
{
    if args.debug {
        RunMode::Debug
    } else {
        match &args.command {
            GraphQCommand::Run { query: Some(_), .. } => RunMode::Query,
            GraphQCommand::Run { query: None, .. } => RunMode::Console,
        }
    }
}

/// The text that shows the arguments of a run.
pub fn debug_text(args: &Args) -> (r: String)
    ensures
        r@ == "DEBUG INFO\n"@ + args.spec_text(),
{
    String::from_str("DEBUG INFO\n").concat(args.to_text().as_str())
}

/// The switches of a one-off query.
#[derive(Debug, Clone, Copy, PartialEq, Eq, Structural)]
pub struct QueryOptions {
    pub page_results: bool,
    pub benchmark: bool,
    pub write_results: bool,
}

/// The switches that the arguments set.
pub open spec fn options_of(args: Args) -> QueryOptions {
    match args.command {
        GraphQCommand::Run { page_results, benchmark, write_results, .. } => QueryOptions {
            page_results,
            benchmark,
            write_results,
        },
    }
}

/// The switches that the arguments set.
pub fn query_options(args: &Args) -> (r: QueryOptions)
    ensures
        r == options_of(*args),
{
    match &args.command {
        GraphQCommand::Run { page_results, benchmark, write_results, .. } => QueryOptions {
            page_results: *page_results,
            benchmark: *benchmark,
            write_results: *write_results,
        },
    }
}

/// How the rows of a query are delivered.
#[derive(Debug, Clone, Copy, PartialEq, Eq, Structural)]
pub enum Delivery {
    /// Write them to the results directory, and page the file if asked to.
    Write { page: bool },
    /// Write them to a temporary directory and page the file.
    PageTemporary,
    /// Print them as a table.
    Print,
}

/// What a one-off query does.
#[derive(Debug, Clone, Copy, PartialEq, Eq, Structural)]
pub enum QueryPlan {
    /// Benchmark the query.
    Benchmark,
    /// Run the query once and deliver its rows.
    Execute { delivery: Delivery },
}

/// What a one-off query with these switches does. Benchmarking and writing
/// exclude each other; writing comes before paging, paging before printing.
pub open spec fn planned(options: QueryOptions) -> Option<QueryPlan> {
    if options.benchmark && options.write_results {
        None
    } else if options.benchmark {
        Some(QueryPlan::Benchmark)
    } else if options.write_results {
        Some(QueryPlan::Execute { delivery: Delivery::Write { page: options.page_results } })
    } else if options.page_results {
        Some(QueryPlan::Execute { delivery: Delivery::PageTemporary })
    } else {
        Some(QueryPlan::Execute { delivery: Delivery::Print })
    }
}

/// What a one-off query with these switches does.
pub fn plan_query(options: &QueryOptions) -> (r: Result<QueryPlan, &'static str>)
    ensures
        match planned(*options) {
            Some(plan) => r == Ok::<QueryPlan, &'static str>(plan),
            None => r matches Err(e) && e@ == BENCHMARK_AND_WRITE@,
        },
{
    if options.benchmark && options.write_results {
        Err(BENCHMARK_AND_WRITE)
    } else if options.benchmark {
        Ok(QueryPlan::Benchmark)
    } else if options.write_results {
        Ok(QueryPlan::Execute { delivery: Delivery::Write { page: options.page_results } })
    } else if options.page_results {
        Ok(QueryPlan::Execute { delivery: Delivery::PageTemporary })
    } else {
        Ok(QueryPlan::Execute { delivery: Delivery::Print })
    }
}

/// Whether the query is to be read from the standard input.
pub fn reads_stdin(query: &str) -> (r: bool)
    ensures
        r == (query@ == STDIN_MARK@),
{
    str_eq(query, STDIN_MARK)
}

/// The query that was read from the standard input: what was read, without
/// the whitespace around it.
pub fn query_from_stdin(buffer: &str) -> (r: String)
    ensures
        r@ == trimmed(buffer@),
{
    String::from_str(trim(buffer))
}

/// The text that shows the query before it runs.
pub fn query_banner(query: &str) -> (r: String)
    ensures
        r@ == "---\n"@ + query@ + "\n---\n"@,
{
    String::from_str("---\n").concat(query).concat("\n---\n")
}

} // verus!
