use gcue::bench::{
    failure_message, run_line, statistics, statistics_lines, BenchStep, Benchmark,
    BenchmarkNumRuns, Statistics,
};

#[test]
fn fixed_latency_gives_equal_statistics() {
    let mut bench = Benchmark::new(BenchmarkNumRuns::new(3).unwrap(), 2);
    let mut steps = Vec::new();
    loop {
        let step = bench.next();
        steps.push(step);
        if let BenchStep::Report { .. } = step {
            break;
        }
        bench.record(17);
    }
    assert_eq!(
        steps,
        vec![
            BenchStep::Warmup { number: 1 },
            BenchStep::Warmup { number: 2 },
            BenchStep::Measure { number: 1 },
            BenchStep::Measure { number: 2 },
            BenchStep::Measure { number: 3 },
            BenchStep::Report { statistics: Statistics { min: 17, max: 17, mean: 17 } },
        ]
    );
}

#[test]
fn warmup_latencies_do_not_count() {
    let mut bench = Benchmark::new(BenchmarkNumRuns::new(2).unwrap(), 1);
    bench.record(1_000_000);
    bench.record(10);
    bench.record(20);
    assert_eq!(
        bench.next(),
        BenchStep::Report { statistics: Statistics { min: 10, max: 20, mean: 15 } }
    );
    bench.record(99);
    assert_eq!(
        bench.next(),
        BenchStep::Report { statistics: Statistics { min: 10, max: 20, mean: 15 } }
    );
}

#[test]
fn benchmark_without_warmup_starts_measuring() {
    let bench = Benchmark::new(BenchmarkNumRuns::new(1).unwrap(), 0);
    assert_eq!(bench.next(), BenchStep::Measure { number: 1 });
}

#[test]
fn number_of_runs_is_at_least_one() {
    assert!(BenchmarkNumRuns::new(0).is_none());
    assert_eq!(BenchmarkNumRuns::new(1).unwrap().value(), 1);
    assert_eq!(BenchmarkNumRuns::new(u16::MAX).unwrap().value(), u16::MAX);
}

#[test]
fn statistics_are_least_greatest_and_mean_rounded_down() {
    assert_eq!(statistics(&vec![]), None);
    assert_eq!(statistics(&vec![5]), Some(Statistics { min: 5, max: 5, mean: 5 }));
    assert_eq!(statistics(&vec![3, 1, 2]), Some(Statistics { min: 1, max: 3, mean: 2 }));
    assert_eq!(statistics(&vec![1, 2]), Some(Statistics { min: 1, max: 2, mean: 1 }));
    assert_eq!(
        statistics(&vec![u64::MAX, u64::MAX, u64::MAX - 3]),
        Some(Statistics { min: u64::MAX - 3, max: u64::MAX, mean: u64::MAX - 1 })
    );
}

#[test]
fn run_lines_show_number_and_latency() {
    assert_eq!(run_line(1, 12), "run 001:      12ms");
    assert_eq!(run_line(42, 0), "run 042:      0ms");
    assert_eq!(run_line(100, 1234), "run 100:      1234ms");
    assert_eq!(run_line(65535, u64::MAX), "run 65535:      18446744073709551615ms");
}

#[test]
fn failure_messages_name_the_run() {
    assert_eq!(
        failure_message(&BenchStep::Warmup { number: 2 }),
        "couldn't get results for warmup run #2"
    );
    assert_eq!(
        failure_message(&BenchStep::Measure { number: 10 }),
        "couldn't execute query for benchmark run #10"
    );
}

#[test]
fn statistics_lines_show_three_values() {
    assert_eq!(
        statistics_lines(&Statistics { min: 1, max: 30, mean: 15 }),
        "min:          1ms\nmax:          30ms\nmean:         15ms\n"
    );
}

#[test]
fn mean_lies_between_least_and_greatest() {
    for times in [vec![1u64], vec![1, 2], vec![0, 0, 7], vec![u64::MAX, 0], vec![5, 9, 6, 8, 7]] {
        let s = statistics(&times).unwrap();
        assert!(s.min <= s.mean && s.mean <= s.max, "{:?}", s);
        assert_eq!(s.min, *times.iter().min().unwrap());
        assert_eq!(s.max, *times.iter().max().unwrap());
    }
}
