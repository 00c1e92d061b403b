use blackheap::io_modeller::benchmark_wrapper::PerformanceBenchmark as LinkedBenchmark;
use blackheap::modeller::benchmark_wrapper::{AccessPattern, BenchmarkType};
use blackheap::modeller::frontend::Asset;
use blackheap::process_modeller::benchmark_wrapper::PerformanceBenchmark as ProcessBenchmark;
use blackheap::process_modeller::cli::{Cli, Commands};
use blackheap::process_modeller::frontend::create_frontend;
use blackheap::process_modeller::subprograms::create_model::validate;
use blackheap::process_modeller::subprograms::helper::{path_does_not_exist, path_exists, PathError};

#[test]
fn linked_benchmarks_and_configs() {
    let all = LinkedBenchmark::get_all_benchmarks("m", "f", "unused", false);
    assert_eq!(all.len(), 4);
    assert_eq!(all[0].benchmark_type, BenchmarkType::RandomUncached);
    assert!(!all[0].drop_cache_before);
    assert_eq!(all[3].get_benchmark_folder(), "m/SameOffset/write");
    let root_read = LinkedBenchmark::new_random_uncached_read("m", "/tmp/x", "b", true);
    let c = root_read.benchmark_config(512);
    assert_eq!(c.filepath, "/tmp/x");
    assert_eq!(c.access_size_in_bytes, 512);
    assert_eq!(c.number_of_io_op_tests, 1000);
    assert_eq!(c.access_pattern_in_memory, AccessPattern::Rnd.to_c());
    assert_eq!(c.access_pattern_in_file, 2);
    assert!(c.prepare_file_size && c.drop_cache_first && c.delete_afterwards && !c.do_reread);
    assert_eq!(c.restrict_free_ram_to, 0);
    let same = LinkedBenchmark::new_same_offset_read("m", "f", "b").benchmark_config(8);
    assert_eq!(same.access_pattern_in_memory, 0);
    assert!(same.do_reread && !same.delete_afterwards);
}

#[test]
fn process_benchmarks_and_parameters() {
    let (m, f, b) = (String::from("model"), String::from("file"), String::from("bench"));
    let all = ProcessBenchmark::get_all_benchmarks(&m, &f, &b);
    assert_eq!(all.len(), 4);
    assert!(all[0].drop_cache_before && all[1].drop_cache_before);
    assert!(!all[2].drop_cache_before && all[2].reread_every_block);
    assert_eq!(all[1].get_benchmark_folder(), "model/RandomUncached/write");
    assert_eq!(
        all[2].get_parameters(&8),
        vec![
            "--read",
            "--mem-pattern=off0",
            "--file-pattern=off0",
            "--repeats=1000",
            "--mem-buf=4294967296",
            "--file-buf=26843545600",
            "--access-size=8",
            "--file=file",
            "--reread",
        ]
    );
    assert_eq!(ProcessBenchmark::new_random_uncached_write(&m, &f, &b).benchmarker_path, "bench");
}

#[test]
fn process_frontend_layout() {
    let plan = create_frontend("out");
    assert_eq!(plan.directories, vec!["out/finished", "out/finished/css", "out/finished/js"]);
    assert_eq!(plan.files.len(), 6);
    assert_eq!(plan.files[4], (Asset::SingleModelTemplateHtml, String::from("out/finished/single_model.html")));
    assert_eq!(plan.files[5], (Asset::ModelSummaryHtml, String::from("out/finished/model_summary.html")));
}

#[test]
fn path_checks() {
    assert_eq!(path_exists("a/b", true), Ok(()));
    assert_eq!(path_exists("a/b", false), Err(PathError::NotFound(String::from("a/b"))));
    assert_eq!(path_does_not_exist("a/b", false), Ok(()));
    assert_eq!(path_does_not_exist("a/b", true), Err(PathError::AlreadyExists(String::from("a/b"))));
    assert_eq!(validate("model", "bench", true), Ok(()));
    assert_eq!(validate("model", "bench", false), Err(PathError::NotFound(String::from("bench"))));
}

#[test]
fn process_modeller_commands() {
    let cli = Cli { command: Commands::UseModel { model: String::from("m"), file: String::from("f") } };
    assert!(matches!(cli.command, Commands::UseModel { .. }));
}

#[test]
fn path_error_messages() {
    let missing = path_exists("a/b", false).unwrap_err();
    assert_eq!(missing.message(), "\"a/b\" does not exist!");
    assert_eq!(missing.message(), format!("{:?} does not exist!", std::path::PathBuf::from("a/b")));
    let taken = path_does_not_exist("x \"y\"", true).unwrap_err();
    assert_eq!(taken.message(), "\"x \\\"y\\\"\" already exists!");
    assert_eq!(taken.message(), format!("{:?} already exists!", std::path::PathBuf::from("x \"y\"")));
}
