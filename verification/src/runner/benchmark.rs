//! The benchmark scenarios the runner measures and their configurations.

use vstd::prelude::*;

use crate::benchmarker::{AccessPattern, BenchmarkConfig};

verus! {

/// One gibibyte.
pub const GIB: u64 = 1073741824;

/// `2` to the power of `n`.
pub open spec fn pow2(n: nat) -> nat
    decreases n,
{
    if n == 0 {
        1
    } else {
        2 * pow2((n - 1) as nat)
    }
}

/// Number of access sizes every benchmark is run with.
pub const NUMBER_OF_ACCESS_SIZES: usize = 24;

/// The access sizes every benchmark is run with: the powers of two from
/// `2` up to `16 MiB`, in increasing order.
pub fn access_sizes() -> (sizes: Vec<u32>)
    ensures
        sizes.len() == NUMBER_OF_ACCESS_SIZES,
        forall|i: int| 0 <= i < sizes.len() ==> sizes[i] == pow2((i + 1) as nat),
{
    let mut sizes: Vec<u32> = Vec::new();
    let mut size: u32 = 2;
    let mut i: usize = 0;
    assert(pow2(1) == 2) by {
        reveal_with_fuel(pow2, 2);
    }
    while i < NUMBER_OF_ACCESS_SIZES
        invariant
            i <= NUMBER_OF_ACCESS_SIZES,
            sizes.len() == i,
            i < NUMBER_OF_ACCESS_SIZES ==> size == pow2((i + 1) as nat),
            forall|j: int| 0 <= j < i ==> sizes[j] == pow2((j + 1) as nat),
        decreases NUMBER_OF_ACCESS_SIZES - i,
    {
        sizes.push(size);
        i = i + 1;
        if i < NUMBER_OF_ACCESS_SIZES {
            proof {
                lemma_pow2_bound(i as nat);
            }
            size = size * 2;
        }
    }
    sizes
}

proof fn lemma_pow2_bound(n: nat)
    requires
        n <= 23,
    ensures
        pow2(n) <= 8388608,
{
    lemma_pow2_monotone(n, 23);
    assert(pow2(23) == 8388608) by {
        reveal_with_fuel(pow2, 24);
    }
}

/// Powers of two grow with the exponent.
pub proof fn lemma_pow2_monotone(n: nat, m: nat)
    requires
        n <= m,
    ensures
        pow2(n) <= pow2(m),
    decreases m,
{
    if n < m {
        lemma_pow2_monotone(n, (m - 1) as nat);
    }
}

/// The kind of access a benchmark measures.
#[derive(Clone, Copy, Debug, PartialEq, Eq, Hash, Structural)]
pub enum BenchmarkScenario {
    RandomUncached,
    SameOffset,
    Sequential,
    Reverse,
}

/// The name of a scenario, as it appears in directory names and reports.
pub open spec fn scenario_name(s: BenchmarkScenario) -> Seq<char> {
    match s {
        BenchmarkScenario::RandomUncached => "RandomUncached"@,
        BenchmarkScenario::SameOffset => "SameOffset"@,
        BenchmarkScenario::Sequential => "Sequential"@,
        BenchmarkScenario::Reverse => "Reverse"@,
    }
}

impl BenchmarkScenario {
    /// The name of the scenario.
    pub fn to_string(&self) -> (s: String)
        ensures
            s@ == scenario_name(*self),
    {
        match self {
            BenchmarkScenario::SameOffset => "SameOffset".to_owned(),
            BenchmarkScenario::Sequential => "Sequential".to_owned(),
            BenchmarkScenario::RandomUncached => "RandomUncached".to_owned(),
            BenchmarkScenario::Reverse => "Reverse".to_owned(),
        }
    }
}

/// A scenario together with the configuration that measures it.
#[derive(Debug, Clone)]
pub struct Benchmark {
    pub scenario: BenchmarkScenario,
    pub config: BenchmarkConfig,
}

/// The configuration shared by all scenarios, which differ only in the
/// access pattern, the operation, whether the page cache is dropped first
/// and whether every block is read twice.
pub open spec fn is_scenario_config(
    c: BenchmarkConfig,
    file_path: Seq<char>,
    pattern: AccessPattern,
    is_read: bool,
    drop_cache: bool,
    reread: bool,
) -> bool {
    &&& c.filepath@ == file_path
    &&& c.memory_buffer_in_bytes == 4 * GIB
    &&& c.file_size_in_bytes == 25 * GIB
    &&& c.access_size_in_bytes == 4 * 1024
    &&& c.number_of_io_op_tests == 1000
    &&& c.access_pattern_in_memory == pattern
    &&& c.access_pattern_in_file == pattern
    &&& c.is_read_operation == is_read
    &&& c.prepare_file_size
    &&& c.drop_cache_first == drop_cache
    &&& c.do_reread == reread
    &&& c.restrict_free_ram_to is None
}

/// The access pattern a scenario uses in memory and in the file.
pub open spec fn scenario_pattern(s: BenchmarkScenario) -> AccessPattern {
    match s {
        BenchmarkScenario::RandomUncached => AccessPattern::Random,
        BenchmarkScenario::SameOffset => AccessPattern::Const,
        BenchmarkScenario::Sequential => AccessPattern::Sequential,
        BenchmarkScenario::Reverse => AccessPattern::Reverse,
    }
}

/// Whether a scenario drops the page cache first; only the uncached ones
/// do, and only when the runner may (as root).
pub open spec fn scenario_drops_cache(s: BenchmarkScenario, root: bool) -> bool {
    match s {
        BenchmarkScenario::RandomUncached | BenchmarkScenario::Reverse => root,
        _ => false,
    }
}

/// Whether a scenario reads every block twice and measures the second read.
pub open spec fn scenario_rereads(s: BenchmarkScenario) -> bool {
    s == BenchmarkScenario::SameOffset
}

/// `b` is the benchmark of scenario `s` for the given operation.
pub open spec fn is_scenario_benchmark(
    b: Benchmark,
    s: BenchmarkScenario,
    file_path: Seq<char>,
    is_read: bool,
    root: bool,
) -> bool {
    &&& b.scenario == s
    &&& is_scenario_config(
        b.config,
        file_path,
        scenario_pattern(s),
        is_read,
        scenario_drops_cache(s, root),
        scenario_rereads(s),
    )
}

fn scenario_config(
    file_path: &str,
    pattern: AccessPattern,
    is_read: bool,
    drop_cache: bool,
    reread: bool,
) -> (c: BenchmarkConfig)
    ensures
        is_scenario_config(c, file_path@, pattern, is_read, drop_cache, reread),
{
    BenchmarkConfig {
        filepath: file_path.to_owned(),
        memory_buffer_in_bytes: 4 * GIB,
        file_size_in_bytes: 25 * GIB,
        access_size_in_bytes: 4 * 1024,
        number_of_io_op_tests: 1000,
        access_pattern_in_memory: pattern,
        access_pattern_in_file: pattern,
        is_read_operation: is_read,
        prepare_file_size: true,
        drop_cache_first: drop_cache,
        do_reread: reread,
        restrict_free_ram_to: None,
    }
}

/// The scenario of the `i`th benchmark that `get_all_benchmarks` returns.
pub open spec fn standard_scenario(i: int) -> BenchmarkScenario {
    if i < 2 {
        BenchmarkScenario::RandomUncached
    } else if i < 4 {
        BenchmarkScenario::Reverse
    } else if i < 6 {
        BenchmarkScenario::SameOffset
    } else {
        BenchmarkScenario::Sequential
    }
}

impl Benchmark {
    /// All eight benchmarks: each scenario once reading and once writing,
    /// reading first.
    pub fn get_all_benchmarks(root: bool, file_path: &str) -> (v: Vec<Self>)
        ensures
            v.len() == 8,
            forall|i: int|
                0 <= i < 8 ==> is_scenario_benchmark(
                    #[trigger] v[i],
                    standard_scenario(i),
                    file_path@,
                    i % 2 == 0,
                    root,
                ),
    {
        let mut v: Vec<Self> = Vec::new();
        v.push(Self::new_random_uncached_read(file_path, root));
        v.push(Self::new_random_uncached_write(file_path, root));
        v.push(Self::new_reverse_read(file_path, root));
        v.push(Self::new_reverse_write(file_path, root));
        v.push(Self::new_same_offset_read(file_path));
        v.push(Self::new_same_offset_write(file_path));
        v.push(Self::new_sequential_read(file_path));
        v.push(Self::new_sequential_write(file_path));
        v
    }

    /// Reads in reverse order through file and memory.
    pub fn new_reverse_read(file_path: &str, root: bool) -> (b: Self)
        ensures
            is_scenario_benchmark(b, BenchmarkScenario::Reverse, file_path@, true, root),
    {
        Benchmark {
            scenario: BenchmarkScenario::Reverse,
            config: scenario_config(file_path, AccessPattern::Reverse, true, root, false),
        }
    }

    /// Writes in reverse order through file and memory.
    pub fn new_reverse_write(file_path: &str, root: bool) -> (b: Self)
        ensures
            is_scenario_benchmark(b, BenchmarkScenario::Reverse, file_path@, false, root),
    {
        let mut config = Self::new_reverse_read(file_path, root).config;
        config.is_read_operation = false;
        Benchmark { scenario: BenchmarkScenario::Reverse, config }
    }

    /// Reads at random offsets.
    pub fn new_random_uncached_read(file_path: &str, root: bool) -> (b: Self)
        ensures
            is_scenario_benchmark(b, BenchmarkScenario::RandomUncached, file_path@, true, root),
    {
        Benchmark {
            scenario: BenchmarkScenario::RandomUncached,
            config: scenario_config(file_path, AccessPattern::Random, true, root, false),
        }
    }

    /// Writes at random offsets.
    pub fn new_random_uncached_write(file_path: &str, root: bool) -> (b: Self)
        ensures
            is_scenario_benchmark(b, BenchmarkScenario::RandomUncached, file_path@, false, root),
    {
        let mut config = Self::new_random_uncached_read(file_path, root).config;
        config.is_read_operation = false;
        Benchmark { scenario: BenchmarkScenario::RandomUncached, config }
    }

    /// Reads the same offset again and again, measuring the second read.
    pub fn new_same_offset_read(file_path: &str) -> (b: Self)
        ensures
            b.scenario == BenchmarkScenario::SameOffset,
            is_scenario_config(b.config, file_path@, AccessPattern::Const, true, false, true),
    {
        Benchmark {
            scenario: BenchmarkScenario::SameOffset,
            config: scenario_config(file_path, AccessPattern::Const, true, false, true),
        }
    }

    /// Writes the same offset again and again.
    pub fn new_same_offset_write(file_path: &str) -> (b: Self)
        ensures
            b.scenario == BenchmarkScenario::SameOffset,
            is_scenario_config(b.config, file_path@, AccessPattern::Const, false, false, true),
    {
        let mut config = Self::new_same_offset_read(file_path).config;
        config.is_read_operation = false;
        Benchmark { scenario: BenchmarkScenario::SameOffset, config }
    }

    /// Reads sequentially.
    pub fn new_sequential_read(file_path: &str) -> (b: Self)
        ensures
            b.scenario == BenchmarkScenario::Sequential,
            is_scenario_config(b.config, file_path@, AccessPattern::Sequential, true, false, false),
    {
        Benchmark {
            scenario: BenchmarkScenario::Sequential,
            config: scenario_config(file_path, AccessPattern::Sequential, true, false, false),
        }
    }

    /// Writes sequentially.
    pub fn new_sequential_write(file_path: &str) -> (b: Self)
        ensures
            b.scenario == BenchmarkScenario::Sequential,
            is_scenario_config(b.config, file_path@, AccessPattern::Sequential, false, false, false),
    {
        let mut config = Self::new_sequential_read(file_path).config;
        config.is_read_operation = false;
        Benchmark { scenario: BenchmarkScenario::Sequential, config }
    }
}

/// Every benchmark of the runner works on a 4 GiB memory buffer and a
/// 25 GiB file, 1000 I/O operations per access size, and prepares the file
/// to its size; it drops the page cache first exactly when it is a random
/// uncached or reverse benchmark and the runner is root, and it rereads
/// every block exactly when it is a same offset benchmark. Its patterns are
/// random, reverse, constant or sequential, by scenario.
pub proof fn runner_benchmarks_settings(
    b: Benchmark,
    s: BenchmarkScenario,
    file_path: Seq<char>,
    is_read: bool,
    root: bool,
)
    requires
        is_scenario_benchmark(b, s, file_path, is_read, root),
    ensures
        b.config.memory_buffer_in_bytes == 4294967296,
        b.config.file_size_in_bytes == 26843545600,
        b.config.number_of_io_op_tests == 1000,
        b.config.prepare_file_size,
        b.config.restrict_free_ram_to is None,
        b.config.is_read_operation == is_read,
        b.config.drop_cache_first <==> root && (s == BenchmarkScenario::RandomUncached || s == BenchmarkScenario::Reverse),
        b.config.do_reread <==> s == BenchmarkScenario::SameOffset,
        b.config.access_pattern_in_memory == b.config.access_pattern_in_file,
        s == BenchmarkScenario::RandomUncached ==> b.config.access_pattern_in_file == AccessPattern::Random,
        s == BenchmarkScenario::Reverse ==> b.config.access_pattern_in_file == AccessPattern::Reverse,
        s == BenchmarkScenario::SameOffset ==> b.config.access_pattern_in_file == AccessPattern::Const,
        s == BenchmarkScenario::Sequential ==> b.config.access_pattern_in_file == AccessPattern::Sequential,
{
}

} // verus!
