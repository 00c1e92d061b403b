use blackheap::benchmarker::{
    AccessPattern, BenchmarkConfig, ErrorCodes, ACCESS_PATTERN_COUNT, ERROR_CODES_COUNT,
};

#[test]
fn access_pattern_codes_round_trip() {
    let all = [
        AccessPattern::Const,
        AccessPattern::Sequential,
        AccessPattern::Random,
        AccessPattern::Reverse,
    ];
    for (i, p) in all.iter().enumerate() {
        assert_eq!(p.to_c_code(), i as u32);
        assert!(p.to_c_code() < ACCESS_PATTERN_COUNT);
    }
    // The reverse pattern is encoded for the C side but never decoded.
    for p in &all[..3] {
        assert_eq!(AccessPattern::from_c_code(p.to_c_code()), *p);
    }
    for n in 0..3 {
        assert_eq!(AccessPattern::from_c_code(n).to_c_code(), n);
    }
}

#[test]
fn error_codes_round_trip() {
    for n in 0..ERROR_CODES_COUNT {
        assert_eq!(ErrorCodes::from_c_code(n).to_c_code(), n);
    }
    assert_eq!(ErrorCodes::from_c_code(0), ErrorCodes::Success);
    assert_eq!(ErrorCodes::from_c_code(8), ErrorCodes::IOOpFailed);
    assert_eq!(ErrorCodes::from_c_code(12), ErrorCodes::IncorrectFileBufferSize);
    assert_eq!(ErrorCodes::DropPageCacheFailedNoPermissions.to_c_code(), 10);
}

#[test]
fn config_to_c_code_maps_patterns_and_ram_limit() {
    let config = BenchmarkConfig {
        filepath: String::from("/tmp/file"),
        memory_buffer_in_bytes: 1024,
        file_size_in_bytes: 4096,
        access_size_in_bytes: 16,
        number_of_io_op_tests: 10,
        access_pattern_in_memory: AccessPattern::Sequential,
        access_pattern_in_file: AccessPattern::Reverse,
        is_read_operation: true,
        prepare_file_size: false,
        drop_cache_first: true,
        do_reread: false,
        restrict_free_ram_to: None,
    };
    let c = config.to_c_code();
    assert_eq!(c.filepath, "/tmp/file");
    assert_eq!(c.access_pattern_in_memory, 1);
    assert_eq!(c.access_pattern_in_file, 3);
    assert_eq!(c.restrict_free_ram_to, 0);
    assert_eq!(c.memory_buffer_in_bytes, 1024);
    assert_eq!(c.file_size_in_bytes, 4096);
    assert_eq!(c.access_size_in_bytes, 16);
    assert_eq!(c.number_of_io_op_tests, 10);
    assert!(c.is_read_operation && !c.prepare_file_size && c.drop_cache_first && !c.do_reread);

    let limited = BenchmarkConfig { restrict_free_ram_to: Some(777), ..config };
    assert_eq!(limited.to_c_code().restrict_free_ram_to, 777);
}
