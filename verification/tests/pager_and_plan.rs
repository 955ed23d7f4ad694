use gcue::cli::{Args, GraphQCommand};
use gcue::pager::{get_pager, page_results, split_words, Pager, PagerError};
use gcue::plan::{
    debug_text, plan_query, query_banner, query_from_stdin, query_options, reads_stdin, run_mode,
    Delivery, QueryOptions, QueryPlan, RunMode,
};
use gcue::result::OutputFormat;

fn args(query: Option<&str>, debug: bool) -> Args {
    Args {
        command: GraphQCommand::Run {
            query: query.map(|q| q.to_string()),
            page_results: false,
            benchmark: false,
            bench_num_runs: 5,
            bench_num_warmup_runs: 3,
            print_query: false,
            write_results: false,
            results_directory: ".gcue".to_string(),
            results_format: OutputFormat::Csv,
        },
        debug,
    }
}

#[test]
fn words_are_runs_without_whitespace() {
    assert_eq!(split_words(""), Vec::<String>::new());
    assert_eq!(split_words(" \t\n"), Vec::<String>::new());
    assert_eq!(split_words("less"), vec!["less"]);
    assert_eq!(split_words("  less   -R\t-F "), vec!["less", "-R", "-F"]);
    assert_eq!(split_words("a\u{a0}b"), vec!["a", "b"]);
}

#[test]
fn pager_defaults_to_less() {
    let pager = get_pager(None).unwrap();
    assert_eq!(pager.get_command(), &vec!["less".to_string()]);
    assert_eq!(Pager::default(), get_pager(None));
}

#[test]
fn pager_is_taken_from_the_setting() {
    let pager = get_pager(Some("bat --paging always".to_string())).unwrap();
    assert_eq!(pager.get_command(), &vec!["bat", "--paging", "always"]);
    assert_eq!(get_pager(Some("  ".to_string())), Err(PagerError::EmptyCommand));
    assert_eq!(Pager::custom(""), Err(PagerError::EmptyCommand));
    assert_eq!(PagerError::EmptyCommand.message(), "pager command is empty");
}

#[test]
fn file_is_the_last_argument_of_the_pager() {
    let pager = Pager::custom("less -R").unwrap();
    assert_eq!(page_results("/tmp/a b.csv", &pager), vec!["less", "-R", "/tmp/a b.csv"]);
    assert_eq!(page_results("x.json", &Pager::default().unwrap()), vec!["less", "x.json"]);
}

#[test]
fn arguments_are_shown_with_their_query() {
    let args = args(Some("MATCH (n) RETURN n"), true);
    assert_eq!(args.to_text(), "\ncommand:    Run\nquery:\nMATCH (n) RETURN n\n");
    assert_eq!(debug_text(&args), "DEBUG INFO\n\ncommand:    Run\nquery:\nMATCH (n) RETURN n\n");
    let args = self::args(None, false);
    assert_eq!(args.to_text(), "\ncommand:    Run\nquery:\n<NOT PROVIDED>\n");
}

#[test]
fn switches_are_taken_from_the_arguments() {
    let args = Args {
        command: GraphQCommand::Run {
            query: Some("q".to_string()),
            page_results: true,
            benchmark: false,
            bench_num_runs: 1,
            bench_num_warmup_runs: 0,
            print_query: true,
            write_results: true,
            results_directory: "out".to_string(),
            results_format: OutputFormat::Json,
        },
        debug: false,
    };
    assert_eq!(
        query_options(&args),
        QueryOptions { page_results: true, benchmark: false, write_results: true }
    );
    assert_eq!(
        plan_query(&query_options(&args)),
        Ok(QueryPlan::Execute { delivery: Delivery::Write { page: true } })
    );
    assert_eq!(
        query_options(&self::args(None, false)),
        QueryOptions { page_results: false, benchmark: false, write_results: false }
    );
}

#[test]
fn mode_follows_debug_then_query() {
    let run = |query: Option<&str>, debug: bool| run_mode(&args(query, debug));
    assert_eq!(run(None, false), RunMode::Console);
    assert_eq!(run(Some("q"), false), RunMode::Query);
    assert_eq!(run(None, true), RunMode::Debug);
    assert_eq!(run(Some("q"), true), RunMode::Debug);
}

#[test]
fn benchmark_and_write_exclude_each_other() {
    for page_results in [false, true] {
        assert_eq!(
            plan_query(&QueryOptions { page_results, benchmark: true, write_results: true }),
            Err("cannot benchmark and write results at the same time")
        );
    }
}

#[test]
fn plan_orders_write_page_print() {
    let plan = |page_results, benchmark, write_results| {
        plan_query(&QueryOptions { page_results, benchmark, write_results })
    };
    assert_eq!(plan(false, true, false), Ok(QueryPlan::Benchmark));
    assert_eq!(plan(true, true, false), Ok(QueryPlan::Benchmark));
    assert_eq!(
        plan(false, false, true),
        Ok(QueryPlan::Execute { delivery: Delivery::Write { page: false } })
    );
    assert_eq!(
        plan(true, false, true),
        Ok(QueryPlan::Execute { delivery: Delivery::Write { page: true } })
    );
    assert_eq!(plan(true, false, false), Ok(QueryPlan::Execute { delivery: Delivery::PageTemporary }));
    assert_eq!(plan(false, false, false), Ok(QueryPlan::Execute { delivery: Delivery::Print }));
}

#[test]
fn query_comes_from_stdin_for_a_hyphen() {
    assert!(reads_stdin("-"));
    assert!(!reads_stdin(" -"));
    assert!(!reads_stdin("--"));
    assert!(!reads_stdin(""));
    assert_eq!(query_from_stdin("\n  MATCH (n)\n RETURN n;\n\n"), "MATCH (n)\n RETURN n;");
    assert_eq!(query_from_stdin(""), "");
    assert_eq!(query_banner("RETURN 1"), "---\nRETURN 1\n---\n");
}
