use blackheap::modeller::benchmark_wrapper::{
    benchmark_access_sizes, AccessPattern, BenchmarkType, PerformanceBenchmark, GIB,
};
use blackheap::modeller::cli::{Cli, ModelEnum};
use blackheap::modeller::frontend::{create_frontend, get_asset_path, parametrize_single_model, use_frontend, Asset};
use blackheap::modeller::prediction_model::{positions_in_interval, split_at_page_size, Interval, PAGE_SIZE};
use blackheap::modeller::use_model::{count_classifications, key_to_string, split_by_operation};
use blackheap::modeller::json_reader::is_json_file_name;

#[test]
fn benchmark_type_names_parse_back() {
    for t in [BenchmarkType::RandomUncached, BenchmarkType::SameOffset] {
        assert_eq!(BenchmarkType::from_str(&t.to_string()), Ok(t));
    }
    assert_eq!(BenchmarkType::RandomUncached.to_string(), "RandomUncached");
    assert_eq!(BenchmarkType::from_str("SameOffset"), Ok(BenchmarkType::SameOffset));
    assert_eq!(BenchmarkType::from_str("sameoffset"), Err(String::from("Unknown BenchmarkType")));
    assert_eq!(BenchmarkType::from_str(""), Err(String::from("Unknown BenchmarkType")));
}

#[test]
fn access_pattern_names_and_codes() {
    assert_eq!(AccessPattern::Off0.to_string(), "off0");
    assert_eq!(AccessPattern::Rnd.to_string(), "rnd");
    assert_eq!(AccessPattern::Off0.to_c(), 0);
    assert_eq!(AccessPattern::Rnd.to_c(), 2);
}

#[test]
fn modeller_benchmarks() {
    let all = PerformanceBenchmark::get_all_benchmarks("model", "file", "bench.exe", true);
    assert_eq!(all.len(), 4);
    assert_eq!(all[0].benchmark_type, BenchmarkType::RandomUncached);
    assert!(all[0].is_read_op && all[0].drop_cache_before && all[0].delete_afterwards);
    assert!(!all[1].is_read_op && all[1].mem_pattern == AccessPattern::Rnd);
    assert_eq!(all[2].benchmark_type, BenchmarkType::SameOffset);
    assert!(all[2].reread_every_block && !all[2].drop_cache_before && !all[2].delete_afterwards);
    assert_eq!(all[3].file_pattern, AccessPattern::Off0);
    for b in &all {
        assert_eq!(b.repeats, 1000);
        assert_eq!(b.memory_buffer_size_in_bytes, 4 * GIB);
        assert_eq!(b.file_buffer_size_in_bytes, 25 * GIB);
        assert_eq!(b.benchmarker_path, "bench.exe");
        assert_eq!(b.available_ram_in_bytes, None);
    }
    let no_root = PerformanceBenchmark::new_random_uncached_write("m", "f", "b", false);
    assert!(!no_root.drop_cache_before);
}

#[test]
fn benchmarker_parameters() {
    let b = PerformanceBenchmark::new_random_uncached_read("model", "/tmp/f.dat", "bench", true);
    assert_eq!(
        b.get_parameters(&4096),
        vec![
            "--read",
            "--mem-pattern=rnd",
            "--file-pattern=rnd",
            "--repeats=1000",
            "--mem-buf=4294967296",
            "--file-buf=26843545600",
            "--access-size=4096",
            "--file=/tmp/f.dat",
            "--drop-cache",
            "--delete-afterwards",
        ]
    );
    let mut w = PerformanceBenchmark::new_same_offset_write("model", "f", "bench");
    w.use_o_direct = true;
    w.available_ram_in_bytes = Some(-12);
    assert_eq!(
        w.get_parameters(&2),
        vec![
            "--write",
            "--mem-pattern=off0",
            "--file-pattern=off0",
            "--repeats=1000",
            "--mem-buf=4294967296",
            "--file-buf=26843545600",
            "--access-size=2",
            "--file=f",
            "--o-direct",
            "--free-ram=-12",
            "--reread",
        ]
    );
}

#[test]
fn benchmark_folders() {
    let b = PerformanceBenchmark::new_same_offset_read("out/model", "f", "b");
    assert_eq!(b.get_benchmark_folder(), "out/model/SameOffset/read");
    let w = PerformanceBenchmark::new_random_uncached_write("m", "f", "b", false);
    assert_eq!(w.get_benchmark_folder(), "m/RandomUncached/write");
}

#[test]
fn benchmark_access_sizes_are_powers_of_two() {
    let sizes = benchmark_access_sizes();
    assert_eq!(sizes.len(), 27);
    assert_eq!(sizes[0], 2);
    assert_eq!(sizes[26], 134217728);
    for (i, s) in sizes.iter().enumerate() {
        assert_eq!(*s, 1u64 << (i + 1));
    }
}

#[test]
fn cli_model_choice() {
    let cli = Cli { to: String::from("t"), file: String::from("f"), model: ModelEnum::Linear, analyze_only: false, root: false };
    assert!(cli.use_linear());
    let cli = Cli { model: ModelEnum::ConstantLinear, ..cli };
    assert!(!cli.use_linear());
}

#[test]
fn use_frontend_layout() {
    let plan = use_frontend("report");
    assert_eq!(plan.directories, vec!["report", "report/css", "report/js"]);
    let files: Vec<(Asset, &str)> = plan.files.iter().map(|(a, p)| (*a, p.as_str())).collect();
    assert_eq!(
        files,
        vec![
            (Asset::NormalizeCss, "report/css/normalize.css"),
            (Asset::SkeletonCss, "report/css/skeleton.css"),
            (Asset::CustomJs, "report/js/custom.js"),
            (Asset::PlotlyJs, "report/js/plotly.1.33.1.min.js"),
            (Asset::UseModelReportHtml, "report/use_model_report.html"),
        ]
    );
}

#[test]
fn create_frontend_layout() {
    let plan = create_frontend(
        &[(BenchmarkType::RandomUncached, true), (BenchmarkType::SameOffset, false)],
        "model",
    );
    assert_eq!(plan.directories, vec!["model/finished", "model/finished/css", "model/finished/js"]);
    let paths: Vec<&str> = plan.files.iter().map(|(_, p)| p.as_str()).collect();
    assert_eq!(
        paths,
        vec![
            "model/finished/css/normalize.css",
            "model/finished/css/skeleton.css",
            "model/finished/js/custom.js",
            "model/finished/js/plotly.1.33.1.min.js",
            "model/finished/js/lodash.4.17.21.min.js",
            "model/finished/model_summary.html",
            "model/finished/RandomUncached_read.html",
            "model/finished/SameOffset_write.html",
        ]
    );
    assert_eq!(plan.files[6].0, Asset::SingleModelHtml(BenchmarkType::RandomUncached, true));
    assert_eq!(get_asset_path(Asset::SingleModelHtml(BenchmarkType::SameOffset, true)), "SameOffset_read.html");
}

#[test]
fn single_model_page_is_parametrized() {
    let template = "let t = TYPE_OF_BENCHMARK; let r = IS_READING_OPERATION; // TYPE_OF_BENCHMARK";
    assert_eq!(
        parametrize_single_model(template, &BenchmarkType::SameOffset, false),
        "let t = \"SameOffset\"; let r = false; // \"SameOffset\""
    );
    assert_eq!(
        parametrize_single_model("IS_READING_OPERATIONIS_READING_OPERATION", &BenchmarkType::RandomUncached, true),
        "truetrue"
    );
    assert_eq!(parametrize_single_model("TYPE_OF", &BenchmarkType::RandomUncached, true), "TYPE_OF");
}

#[test]
fn intervals() {
    let all = Interval::new();
    assert!(all.contains(0) && all.contains(u64::MAX));
    let left = Interval::new_left_closed(10);
    assert!(!left.contains(9) && left.contains(10) && left.contains(u64::MAX));
    let right = Interval::new_right_closed(10);
    assert!(right.contains(0) && right.contains(10) && !right.contains(11));
    let closed = Interval::new_closed(5, 10);
    assert!(!closed.contains(4) && closed.contains(5) && closed.contains(10) && !closed.contains(11));
}

#[test]
fn page_size_split() {
    let (lower, upper) = split_at_page_size(Interval::new());
    assert_eq!(lower, Interval::new_right_closed(PAGE_SIZE));
    assert_eq!(upper, Interval::new_left_closed(PAGE_SIZE));
    let (lower, upper) = split_at_page_size(Interval::new_closed(2, 8192));
    assert_eq!(lower, Interval::new_closed(2, 4096));
    assert_eq!(upper, Interval::new_closed(4096, 8192));
    for v in [0u64, 2, 4095, 4096, 4097, 8192, 8193] {
        let inside = Interval::new_closed(2, 8192).contains(v);
        assert_eq!(inside, lower.contains(v) || upper.contains(v));
        assert_eq!(lower.contains(v) && upper.contains(v), v == 4096);
    }
}

#[test]
fn positions_in_an_interval() {
    let sizes = [2u64, 4096, 8192, 3, 1 << 20];
    assert_eq!(positions_in_interval(&sizes, Interval::new_right_closed(4096)), vec![0, 1, 3]);
    assert_eq!(positions_in_interval(&sizes, Interval::new_left_closed(4096)), vec![1, 2, 4]);
    assert_eq!(positions_in_interval(&sizes, Interval::new_closed(5, 6)), Vec::<usize>::new());
    assert_eq!(positions_in_interval(&[], Interval::new()), Vec::<usize>::new());
}

#[test]
fn classification_keys() {
    assert_eq!(key_to_string(BenchmarkType::SameOffset, true), "read SameOffset");
    assert_eq!(key_to_string(BenchmarkType::RandomUncached, false), "write RandomUncached");
}

#[test]
fn json_file_names() {
    assert!(is_json_file_name("4096.json"));
    assert!(is_json_file_name("a.b.JSON"));
    assert!(is_json_file_name("x.Json"));
    assert!(is_json_file_name(".hidden.json"));
    assert!(!is_json_file_name(".json"));
    assert!(!is_json_file_name("json"));
    assert!(!is_json_file_name("a.jsonl"));
    assert!(!is_json_file_name("a.json.bak"));
    assert!(!is_json_file_name("a."));
    assert!(!is_json_file_name(""));
    for name in ["a.json", ".json", "b.JsOn", "c.txt", "noext", ".x.json", "a.json."] {
        let by_path = std::path::Path::new(name)
            .extension()
            .map(|e| e.to_ascii_lowercase() == "json")
            .unwrap_or(false);
        assert_eq!(is_json_file_name(name), by_path, "{}", name);
    }
}

#[test]
fn classification_counts_by_key() {
    let outcomes = vec![
        Some((BenchmarkType::SameOffset, false)),
        None,
        Some((BenchmarkType::RandomUncached, true)),
        Some((BenchmarkType::SameOffset, false)),
        None,
        None,
    ];
    let counts = count_classifications(&outcomes);
    assert_eq!(
        counts.classified,
        vec![(String::from("read RandomUncached"), 1), (String::from("write SameOffset"), 2)]
    );
    assert_eq!(counts.unclassified, 3);
    let total: u64 = counts.classified.iter().map(|e| e.1).sum::<u64>() + counts.unclassified;
    assert_eq!(total, outcomes.len() as u64);
}

#[test]
fn classification_counts_of_nothing() {
    let counts = count_classifications(&[]);
    assert!(counts.classified.is_empty());
    assert_eq!(counts.unclassified, 0);
    let all = count_classifications(&[
        Some((BenchmarkType::SameOffset, true)),
        Some((BenchmarkType::RandomUncached, false)),
        Some((BenchmarkType::SameOffset, true)),
    ]);
    assert_eq!(
        all.classified,
        vec![(String::from("read SameOffset"), 2), (String::from("write RandomUncached"), 1)]
    );
    assert_eq!(all.unclassified, 0);
}

#[test]
fn recorded_accesses_split_into_reads_and_writes() {
    let (reads, writes) = split_by_operation(&['r', 'w', 'w', 'r', 'x']);
    assert_eq!(reads, vec![0, 3]);
    assert_eq!(writes, vec![1, 2, 4]);
    assert_eq!(split_by_operation(&[]), (vec![], vec![]));
}
