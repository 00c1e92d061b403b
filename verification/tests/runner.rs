use blackheap::benchmarker::AccessPattern;
use blackheap::runner::benchmark::{access_sizes, Benchmark, BenchmarkScenario, GIB};
use blackheap::runner::cli::{draw_probe, validate_cli, validate_cli_next, Cli, CliError, Model, ValidationEvent, ValidationStep};
use blackheap::runner::measurements::{csv_line_prefix, measurement_directory, measurement_file, progress_file, CSV_HEADER};
use blackheap::runner::progress::{BenchmarkProgressToml, BenchmarkStatus, Meta, Operation, VERSION_NUMBER};

#[test]
fn access_sizes_are_powers_of_two_up_to_16_mib() {
    let sizes = access_sizes();
    assert_eq!(sizes.len(), 24);
    assert_eq!(sizes[0], 2);
    assert_eq!(sizes[11], 4096);
    assert_eq!(sizes[23], 16777216);
    for w in sizes.windows(2) {
        assert_eq!(w[1], 2 * w[0]);
    }
}

#[test]
fn all_benchmarks_cover_every_scenario_and_operation() {
    let bs = Benchmark::get_all_benchmarks(true, "/tmp/bench.dat");
    assert_eq!(bs.len(), 8);
    let expected = [
        (BenchmarkScenario::RandomUncached, true),
        (BenchmarkScenario::RandomUncached, false),
        (BenchmarkScenario::Reverse, true),
        (BenchmarkScenario::Reverse, false),
        (BenchmarkScenario::SameOffset, true),
        (BenchmarkScenario::SameOffset, false),
        (BenchmarkScenario::Sequential, true),
        (BenchmarkScenario::Sequential, false),
    ];
    for (b, (scenario, is_read)) in bs.iter().zip(expected.iter()) {
        assert_eq!(b.scenario, *scenario);
        assert_eq!(b.config.is_read_operation, *is_read);
        assert_eq!(b.config.filepath, "/tmp/bench.dat");
        assert_eq!(b.config.memory_buffer_in_bytes, 4 * GIB);
        assert_eq!(b.config.file_size_in_bytes, 25 * 1024 * 1024 * 1024);
        assert_eq!(b.config.access_size_in_bytes, 4096);
        assert_eq!(b.config.number_of_io_op_tests, 1000);
        assert!(b.config.prepare_file_size);
        assert_eq!(b.config.restrict_free_ram_to, None);
    }
}

#[test]
fn only_uncached_benchmarks_drop_caches_and_only_as_root() {
    for root in [false, true] {
        for b in Benchmark::get_all_benchmarks(root, "f") {
            let uncached = matches!(b.scenario, BenchmarkScenario::RandomUncached | BenchmarkScenario::Reverse);
            assert_eq!(b.config.drop_cache_first, uncached && root);
            assert_eq!(b.config.do_reread, b.scenario == BenchmarkScenario::SameOffset);
        }
    }
}

#[test]
fn scenarios_use_their_access_pattern() {
    assert_eq!(Benchmark::new_reverse_write("f", false).config.access_pattern_in_file, AccessPattern::Reverse);
    assert_eq!(Benchmark::new_random_uncached_read("f", false).config.access_pattern_in_memory, AccessPattern::Random);
    assert_eq!(Benchmark::new_same_offset_write("f").config.access_pattern_in_file, AccessPattern::Const);
    assert_eq!(Benchmark::new_sequential_read("f").config.access_pattern_in_memory, AccessPattern::Sequential);
    assert!(!Benchmark::new_sequential_write("f").config.is_read_operation);
}

#[test]
fn scenario_and_operation_names() {
    assert_eq!(BenchmarkScenario::RandomUncached.to_string(), "RandomUncached");
    assert_eq!(BenchmarkScenario::SameOffset.to_string(), "SameOffset");
    assert_eq!(BenchmarkScenario::Sequential.to_string(), "Sequential");
    assert_eq!(BenchmarkScenario::Reverse.to_string(), "Reverse");
    assert_eq!(Operation::Read.to_string(), "read");
    assert_eq!(Operation::Write.to_string(), "write");
    assert_eq!(Operation::from_is_read_op(true), Operation::Read);
    assert_eq!(Operation::from_is_read_op(false), Operation::Write);
}

#[test]
fn fresh_progress_reports_all_sizes_missing() {
    let bs = Benchmark::get_all_benchmarks(false, "f");
    let sizes = access_sizes();
    let p = BenchmarkProgressToml::new_from_benchmarks(&bs, &sizes);
    assert_eq!(p.meta(), Meta { version: VERSION_NUMBER });
    for b in &bs {
        assert_eq!(p.get_missing_access_sizes(b), Some(&sizes[..]));
        let op = Operation::from_is_read_op(b.config.is_read_operation);
        let st = p.status(b.scenario, op).unwrap();
        assert!(!st.done);
        assert!(st.access_sizes_done.is_empty());
    }
}

#[test]
fn missing_sizes_are_those_of_the_read_benchmark() {
    // Only a write benchmark: nothing is kept under the read key.
    let bs = vec![Benchmark::new_sequential_write("f")];
    let p = BenchmarkProgressToml::new_from_benchmarks(&bs, &[2, 4]);
    assert_eq!(p.get_missing_access_sizes(&bs[0]), None);
    assert!(p.status(BenchmarkScenario::Sequential, Operation::Write).is_some());

    // Writes report what is missing for reads of the same scenario.
    let both = vec![Benchmark::new_sequential_read("f"), Benchmark::new_sequential_write("f")];
    let mut p = BenchmarkProgressToml::new_from_benchmarks(&both, &[2, 4]);
    p.update_access_sizes_done(&both[1], 2);
    assert_eq!(p.get_missing_access_sizes(&both[1]), Some(&[2u32, 4][..]));
    assert_eq!(p.status(BenchmarkScenario::Sequential, Operation::Write).unwrap().access_sizes_missing, vec![4]);
}

#[test]
fn updating_progress_moves_sizes_to_done() {
    let bs = vec![Benchmark::new_same_offset_read("f")];
    let mut p = BenchmarkProgressToml::new_from_benchmarks(&bs, &[2, 4, 8]);
    p.update_access_sizes_done(&bs[0], 4);
    let st = p.status(BenchmarkScenario::SameOffset, Operation::Read).unwrap();
    assert_eq!(st.access_sizes_missing, vec![2, 8]);
    assert_eq!(st.access_sizes_done, vec![4]);
    assert!(!st.done);

    // Recording the same size again changes nothing.
    p.update_access_sizes_done(&bs[0], 4);
    let st = p.status(BenchmarkScenario::SameOffset, Operation::Read).unwrap();
    assert_eq!(st.access_sizes_missing, vec![2, 8]);
    assert_eq!(st.access_sizes_done, vec![4]);

    p.update_access_sizes_done(&bs[0], 8);
    p.update_access_sizes_done(&bs[0], 2);
    let st = p.status(BenchmarkScenario::SameOffset, Operation::Read).unwrap();
    assert!(st.access_sizes_missing.is_empty());
    assert_eq!(st.access_sizes_done, vec![4, 8, 2]);
    assert!(st.done);

    // A benchmark that is not kept is ignored.
    p.update_access_sizes_done(&Benchmark::new_reverse_read("f", false), 2);
    assert!(p.status(BenchmarkScenario::Reverse, Operation::Read).is_none());
}

#[test]
fn progress_insert_replaces_the_status_of_one_key() {
    let mut p = BenchmarkProgressToml::new(Meta { version: 7 });
    assert!(p.status(BenchmarkScenario::Reverse, Operation::Write).is_none());
    p.insert(
        BenchmarkScenario::Reverse,
        Operation::Write,
        BenchmarkStatus { done: true, access_sizes_done: vec![1], access_sizes_missing: vec![] },
    );
    assert!(p.status(BenchmarkScenario::Reverse, Operation::Write).unwrap().done);
    assert!(p.status(BenchmarkScenario::Reverse, Operation::Read).is_none());
    assert_eq!(p.meta().version, 7);
}

fn cli(drop_caches: bool) -> Cli {
    Cli { to: String::from("out"), file: String::from("bench.dat"), model: Model::ConstantLinear, drop_caches }
}

fn run(cli: &Cli, events: Vec<ValidationEvent>) -> ValidationStep {
    let mut step = validate_cli(cli);
    for e in events {
        step = validate_cli_next(cli, &step, e);
    }
    step
}

#[test]
fn validation_without_root_fails_when_dropping_caches() {
    let c = cli(true);
    assert!(matches!(validate_cli(&c), ValidationStep::CheckRoot));
    match run(&c, vec![ValidationEvent::Answer(false)]) {
        ValidationStep::Finished(Err(e)) => assert_eq!(e, CliError::RootRequired),
        other => panic!("unexpected {:?}", other),
    }
}

#[test]
fn validation_succeeds_when_all_checks_pass() {
    let c = cli(false);
    assert!(matches!(validate_cli(&c), ValidationStep::CheckOutputExists));
    let events = vec![
        ValidationEvent::Answer(true),
        ValidationEvent::Answer(true),
        ValidationEvent::Probe(String::from("out/a"), true),
        ValidationEvent::Probe(String::from("out/b"), false),
        ValidationEvent::Answer(true),
        ValidationEvent::Answer(false),
        ValidationEvent::Answer(true),
        ValidationEvent::Answer(true),
    ];
    assert!(matches!(run(&c, events), ValidationStep::Finished(Ok(()))));
}

#[test]
fn validation_reports_each_failure() {
    let c = cli(false);
    let cases: Vec<(Vec<ValidationEvent>, CliError)> = vec![
        (vec![ValidationEvent::Answer(false), ValidationEvent::Answer(false)], CliError::CannotCreateDirectory(String::from("out"))),
        (vec![ValidationEvent::Answer(true), ValidationEvent::Answer(false)], CliError::NotADirectory(String::from("out"))),
        (
            vec![ValidationEvent::Answer(true), ValidationEvent::Answer(true), ValidationEvent::Probe(String::from("p"), false), ValidationEvent::Answer(false)],
            CliError::DirectoryNotWritable(String::from("out")),
        ),
        (
            vec![
                ValidationEvent::Answer(true), ValidationEvent::Answer(true), ValidationEvent::Probe(String::from("p"), false),
                ValidationEvent::Answer(true), ValidationEvent::Answer(false), ValidationEvent::Answer(false),
            ],
            CliError::CannotCreateFile(String::from("bench.dat")),
        ),
        (
            vec![
                ValidationEvent::Answer(true), ValidationEvent::Answer(true), ValidationEvent::Probe(String::from("p"), false),
                ValidationEvent::Answer(true), ValidationEvent::Answer(true), ValidationEvent::Answer(false),
            ],
            CliError::CannotDeleteFile(String::from("bench.dat")),
        ),
    ];
    for (events, expected) in cases {
        match run(&c, events) {
            ValidationStep::Finished(Err(e)) => assert_eq!(e, expected),
            other => panic!("unexpected {:?}", other),
        }
    }
}

#[test]
fn validation_writes_the_fresh_probe() {
    let c = cli(false);
    let step = run(&c, vec![
        ValidationEvent::Answer(false),
        ValidationEvent::Answer(true),
        ValidationEvent::Answer(true),
        ValidationEvent::Probe(String::from("out/1234"), false),
    ]);
    match step {
        ValidationStep::WriteProbe(path) => assert_eq!(path, "out/1234"),
        other => panic!("unexpected {:?}", other),
    }
}

#[test]
fn measurement_locations() {
    let b = Benchmark::new_reverse_write("f", true);
    let dir = measurement_directory("results", &b);
    assert_eq!(dir, "results/Reverse/write");
    assert_eq!(measurement_file(&dir, 4096), "results/Reverse/write/4096.txt");
    assert_eq!(progress_file("results"), "results/BenchmarkProgress.toml");
}

#[test]
fn csv_line_prefixes() {
    assert_eq!(CSV_HEADER, "classification,io_type,bytes,sec");
    assert_eq!(csv_line_prefix("SameOffset", Operation::Read, "4096.txt"), "SameOffset,r,4096");
    assert_eq!(csv_line_prefix("Reverse", Operation::Write, "16"), "Reverse,w,16");
    assert_eq!(csv_line_prefix("Sequential", Operation::Write, ".txt"), "Sequential,w,");
    assert_eq!(csv_line_prefix("Sequential", Operation::Read, "8.tar.gz"), "Sequential,r,8");
}

#[test]
fn probes_are_fresh_uuids_inside_the_output_directory() {
    for (to, prefix) in [("out", "out/"), ("out/", "out/"), ("", "")] {
        let c = Cli { to: String::from(to), file: String::from("f"), model: Model::Linear, drop_caches: false };
        let first = draw_probe(&c);
        let second = draw_probe(&c);
        assert!(first.starts_with(prefix));
        let name = &first[prefix.len()..];
        assert_eq!(name.len(), 36);
        for (i, ch) in name.chars().enumerate() {
            if [8, 13, 18, 23].contains(&i) {
                assert_eq!(ch, '-');
            } else {
                assert!(ch.is_ascii_digit() || ('a'..='f').contains(&ch));
            }
        }
        assert_ne!(first, second);
    }
}
