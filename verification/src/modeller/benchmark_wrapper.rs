//! The benchmarks the modeller runs and the command lines it runs the
//! benchmarker with.

use vstd::prelude::*;

use crate::benchmarker::{ACCESS_PATTERN_CONST, ACCESS_PATTERN_RANDOM};
use crate::runner::benchmark::{lemma_pow2_monotone, pow2};
use crate::text::{decimal, i32_to_string, join2, signed_decimal, u64_to_string};

verus! {

/// One gibibyte.
pub const GIB: u64 = 1073741824;

/// Number of access sizes each benchmark runs with.
pub const NUMBER_OF_ACCESS_SIZES: usize = 27;

/// The access sizes each benchmark runs with, one run and one result file
/// per size: the powers of two from `2` up to `128 MiB`, in increasing order.
pub fn benchmark_access_sizes() -> (sizes: Vec<u64>)
    ensures
        sizes.len() == NUMBER_OF_ACCESS_SIZES,
        forall|i: int| 0 <= i < sizes.len() ==> sizes[i] == pow2((i + 1) as nat),
{
    let mut sizes: Vec<u64> = Vec::new();
    let mut size: u64 = 2;
    let mut i: usize = 0;
    assert(pow2(1) == 2) by {
        reveal_with_fuel(pow2, 2);
    }
    while i < NUMBER_OF_ACCESS_SIZES
        invariant
            i <= NUMBER_OF_ACCESS_SIZES,
            sizes.len() == i,
            i < NUMBER_OF_ACCESS_SIZES ==> size == pow2((i + 1) as nat),
            forall|j: int| 0 <= j < i ==> sizes[j] == pow2((j + 1) as nat),
        decreases NUMBER_OF_ACCESS_SIZES - i,
    {
        sizes.push(size);
        i = i + 1;
        if i < NUMBER_OF_ACCESS_SIZES {
            proof {
                lemma_pow2_monotone(i as nat, 27);
                assert(pow2(27) == 134217728) by {
                    reveal_with_fuel(pow2, 28);
                }
            }
            size = size * 2;
        }
    }
    sizes
}

/// How the benchmarker chooses offsets: always the same one, or random ones.
#[derive(Debug, Clone, Copy, PartialEq, Eq, Structural)]
pub enum AccessPattern {
    Off0,
    Rnd,
}

/// The name of a pattern on the benchmarker's command line.
pub open spec fn pattern_name(p: AccessPattern) -> Seq<char> {
    match p {
        AccessPattern::Off0 => "off0"@,
        AccessPattern::Rnd => "rnd"@,
    }
}

impl AccessPattern {
    /// The name of the pattern on the benchmarker's command line.
    pub fn to_string(&self) -> (s: String)
        ensures
            s@ == pattern_name(*self),
    {
        match self {
            AccessPattern::Off0 => "off0".to_owned(),
            AccessPattern::Rnd => "rnd".to_owned(),
        }
    }

    /// The code the C benchmarker uses for the pattern.
    pub fn to_c(&self) -> (n: u32)
        ensures
            n == match *self {
                AccessPattern::Off0 => ACCESS_PATTERN_CONST,
                AccessPattern::Rnd => ACCESS_PATTERN_RANDOM,
            },
    {
        match self {
            AccessPattern::Off0 => ACCESS_PATTERN_CONST,
            AccessPattern::Rnd => ACCESS_PATTERN_RANDOM,
        }
    }
}

/// What a benchmark characterises.
#[derive(Clone, Copy, Debug, PartialEq, Eq, PartialOrd, Ord, Structural)]
pub enum BenchmarkType {
    RandomUncached,
    SameOffset,
}

/// The name of a benchmark type.
pub open spec fn benchmark_type_name(t: BenchmarkType) -> Seq<char> {
    match t {
        BenchmarkType::RandomUncached => "RandomUncached"@,
        BenchmarkType::SameOffset => "SameOffset"@,
    }
}

/// The benchmark type a name denotes, if any.
pub open spec fn parsed_type(s: Seq<char>) -> Option<BenchmarkType> {
    if s == "RandomUncached"@ {
        Some(BenchmarkType::RandomUncached)
    } else if s == "SameOffset"@ {
        Some(BenchmarkType::SameOffset)
    } else {
        None
    }
}

impl BenchmarkType {
    /// The name of the benchmark type.
    pub fn to_string(&self) -> (s: String)
        ensures
            s@ == benchmark_type_name(*self),
    {
        match self {
            BenchmarkType::RandomUncached => "RandomUncached".to_owned(),
            BenchmarkType::SameOffset => "SameOffset".to_owned(),
        }
    }

    /// The benchmark type named `input`.
    pub fn from_str(input: &str) -> (r: Result<Self, String>)
        ensures
            match r {
                Ok(t) => parsed_type(input@) == Some(t),
                Err(e) => parsed_type(input@) is None && e@ == "Unknown BenchmarkType"@,
            },
    {
        let s = input.to_owned();
        if s == "RandomUncached".to_owned() {
            Ok(BenchmarkType::RandomUncached)
        } else if s == "SameOffset".to_owned() {
            Ok(BenchmarkType::SameOffset)
        } else {
            Err("Unknown BenchmarkType".to_owned())
        }
    }
}

/// Parsing the name of a benchmark type gives the type back.
pub proof fn benchmark_type_name_parses_back(t: BenchmarkType)
    ensures
        parsed_type(benchmark_type_name(t)) == Some(t),
{
    reveal_strlit("RandomUncached");
    reveal_strlit("SameOffset");
    assert("RandomUncached"@.len() != "SameOffset"@.len());
}

/// The name of the operation of a benchmark.
pub open spec fn op_name(is_read_op: bool) -> Seq<char> {
    if is_read_op {
        "read"@
    } else {
        "write"@
    }
}

/// A benchmark the modeller runs: what the benchmarker is told, and where
/// model, benchmark file and benchmarker live.
#[derive(Debug)]
pub struct PerformanceBenchmark<'a> {
    pub benchmark_type: BenchmarkType,

    pub is_read_op: bool,
    pub mem_pattern: AccessPattern,
    pub file_pattern: AccessPattern,
    pub repeats: u32,
    pub memory_buffer_size_in_bytes: u64,
    pub file_buffer_size_in_bytes: u64,
    pub use_o_direct: bool,
    pub drop_cache_before: bool,
    pub reread_every_block: bool,
    pub delete_afterwards: bool,

    pub model_path: &'a str,
    pub file_path: &'a str,
    pub benchmarker_path: &'a str,

    pub available_ram_in_bytes: Option<i32>,
}

/// `flag` when `on`, nothing otherwise.
pub open spec fn flag_if(on: bool, flag: Seq<char>) -> Seq<Seq<char>> {
    if on {
        seq![flag]
    } else {
        Seq::empty()
    }
}

/// The benchmarker's arguments for one run: the operation, patterns,
/// repeats, buffer sizes, access size and file, then a flag for each option
/// that is on, in this order: direct I/O, RAM restriction, dropping the page
/// cache, reading every block twice, deleting the file afterwards.
pub open spec fn benchmarker_arguments(
    is_read_op: bool,
    mem_pattern: AccessPattern,
    file_pattern: AccessPattern,
    repeats: nat,
    memory_buffer_size_in_bytes: nat,
    file_buffer_size_in_bytes: nat,
    access_size: nat,
    file_path: Seq<char>,
    use_o_direct: bool,
    available_ram_in_bytes: Option<int>,
    drop_cache_before: bool,
    reread_every_block: bool,
    delete_afterwards: bool,
) -> Seq<Seq<char>> {
    seq![
        if is_read_op { "--read"@ } else { "--write"@ },
        "--mem-pattern="@ + pattern_name(mem_pattern),
        "--file-pattern="@ + pattern_name(file_pattern),
        "--repeats="@ + decimal(repeats),
        "--mem-buf="@ + decimal(memory_buffer_size_in_bytes),
        "--file-buf="@ + decimal(file_buffer_size_in_bytes),
        "--access-size="@ + decimal(access_size),
        "--file="@ + file_path,
    ] + option_flags_of(
        use_o_direct,
        available_ram_in_bytes,
        drop_cache_before,
        reread_every_block,
        delete_afterwards,
    )
}

/// The benchmarker's arguments for one run.
pub fn build_benchmarker_arguments(
    is_read_op: bool,
    mem_pattern: AccessPattern,
    file_pattern: AccessPattern,
    repeats: u32,
    memory_buffer_size_in_bytes: u64,
    file_buffer_size_in_bytes: u64,
    access_size: u64,
    file_path: &str,
    use_o_direct: bool,
    available_ram_in_bytes: Option<i32>,
    drop_cache_before: bool,
    reread_every_block: bool,
    delete_afterwards: bool,
) -> (params: Vec<String>)
    ensures
        params@.map_values(|s: String| s@) == benchmarker_arguments(
            is_read_op,
            mem_pattern,
            file_pattern,
            repeats as nat,
            memory_buffer_size_in_bytes as nat,
            file_buffer_size_in_bytes as nat,
            access_size as nat,
            file_path@,
            use_o_direct,
            match available_ram_in_bytes {
                Some(bytes) => Some(bytes as int),
                None => None,
            },
            drop_cache_before,
            reread_every_block,
            delete_afterwards,
        ),
{
    let mut params: Vec<String> = Vec::new();
    params.push(if is_read_op { "--read".to_owned() } else { "--write".to_owned() });
    params.push(join2("--mem-pattern=", mem_pattern.to_string().as_str()));
    params.push(join2("--file-pattern=", file_pattern.to_string().as_str()));
    params.push(join2("--repeats=", u64_to_string(repeats as u64).as_str()));
    params.push(join2("--mem-buf=", u64_to_string(memory_buffer_size_in_bytes).as_str()));
    params.push(join2("--file-buf=", u64_to_string(file_buffer_size_in_bytes).as_str()));
    params.push(join2("--access-size=", u64_to_string(access_size).as_str()));
    params.push(join2("--file=", file_path));
    let ghost base = params@.map_values(|s: String| s@);
    let mut flags = option_flags(
        use_o_direct,
        available_ram_in_bytes,
        drop_cache_before,
        reread_every_block,
        delete_afterwards,
    );
    let ghost tail = flags@.map_values(|s: String| s@);
    let ghost before = params@;
    params.append(&mut flags);
    assert(params@.map_values(|s: String| s@) =~= base + tail);
    params
}

/// The flags of the options that are on.
pub open spec fn option_flags_of(
    use_o_direct: bool,
    available_ram_in_bytes: Option<int>,
    drop_cache_before: bool,
    reread_every_block: bool,
    delete_afterwards: bool,
) -> Seq<Seq<char>> {
    flag_if(use_o_direct, "--o-direct"@)
        + match available_ram_in_bytes {
            Some(bytes) => seq!["--free-ram="@ + signed_decimal(bytes)],
            None => Seq::empty(),
        }
        + flag_if(drop_cache_before, "--drop-cache"@)
        + flag_if(reread_every_block, "--reread"@)
        + flag_if(delete_afterwards, "--delete-afterwards"@)
}

fn option_flags(
    use_o_direct: bool,
    available_ram_in_bytes: Option<i32>,
    drop_cache_before: bool,
    reread_every_block: bool,
    delete_afterwards: bool,
) -> (flags: Vec<String>)
    ensures
        flags@.map_values(|s: String| s@) == option_flags_of(
            use_o_direct,
            match available_ram_in_bytes {
                Some(bytes) => Some(bytes as int),
                None => None,
            },
            drop_cache_before,
            reread_every_block,
            delete_afterwards,
        ),
{
    let mut flags: Vec<String> = Vec::new();
    if use_o_direct {
        flags.push("--o-direct".to_owned());
    }
    match available_ram_in_bytes {
        Some(bytes) => flags.push(join2("--free-ram=", i32_to_string(bytes).as_str())),
        None => {},
    }
    if drop_cache_before {
        flags.push("--drop-cache".to_owned());
    }
    if reread_every_block {
        flags.push("--reread".to_owned());
    }
    if delete_afterwards {
        flags.push("--delete-afterwards".to_owned());
    }
    assert(flags@.map_values(|s: String| s@) =~= option_flags_of(
        use_o_direct,
        match available_ram_in_bytes {
            Some(bytes) => Some(bytes as int),
            None => None,
        },
        drop_cache_before,
        reread_every_block,
        delete_afterwards,
    ));
    flags
}

impl<'a> PerformanceBenchmark<'a> {
    /// `self` is the benchmark of the given type and operation, with the
    /// settings shared by all benchmarks: 1000 repeats, a 4 GiB memory
    /// buffer, a 25 GiB file, no direct I/O and no RAM restriction.
    pub open spec fn is_benchmark(
        &self,
        t: BenchmarkType,
        is_read_op: bool,
        model_path: &'a str,
        file_path: &'a str,
        benchmarker_path: &'a str,
        drop_cache: bool,
    ) -> bool {
        let uncached = t == BenchmarkType::RandomUncached;
        let pattern = if uncached { AccessPattern::Rnd } else { AccessPattern::Off0 };
        &&& self.benchmark_type == t
        &&& self.is_read_op == is_read_op
        &&& self.mem_pattern == pattern
        &&& self.file_pattern == pattern
        &&& self.repeats == 1000
        &&& self.memory_buffer_size_in_bytes == 4 * GIB
        &&& self.file_buffer_size_in_bytes == 25 * GIB
        &&& !self.use_o_direct
        &&& self.drop_cache_before == drop_cache
        &&& self.reread_every_block == !uncached
        &&& self.delete_afterwards == uncached
        &&& self.model_path == model_path
        &&& self.file_path == file_path
        &&& self.benchmarker_path == benchmarker_path
        &&& self.available_ram_in_bytes is None
    }

    /// The four benchmarks: random uncached reads and writes (dropping the
    /// page cache when running as root), then same offset reads and writes.
    pub fn get_all_benchmarks(
        model_path: &'a str,
        benchmark_file_path: &'a str,
        benchmarker_path: &'a str,
        root: bool,
    ) -> (v: Vec<Self>)
        ensures
            v.len() == 4,
            v[0].is_benchmark(BenchmarkType::RandomUncached, true, model_path, benchmark_file_path, benchmarker_path, root),
            v[1].is_benchmark(BenchmarkType::RandomUncached, false, model_path, benchmark_file_path, benchmarker_path, root),
            v[2].is_benchmark(BenchmarkType::SameOffset, true, model_path, benchmark_file_path, benchmarker_path, false),
            v[3].is_benchmark(BenchmarkType::SameOffset, false, model_path, benchmark_file_path, benchmarker_path, false),
    {
        let mut v: Vec<Self> = Vec::new();
        v.push(Self::new_random_uncached_read(model_path, benchmark_file_path, benchmarker_path, root));
        v.push(Self::new_random_uncached_write(model_path, benchmark_file_path, benchmarker_path, root));
        v.push(Self::new_same_offset_read(model_path, benchmark_file_path, benchmarker_path));
        v.push(Self::new_same_offset_write(model_path, benchmark_file_path, benchmarker_path));
        v
    }

    /// Random reads of a file that is deleted afterwards.
    pub fn new_random_uncached_read(
        model_path: &'a str,
        file_path: &'a str,
        benchmarker_path: &'a str,
        root: bool,
    ) -> (b: Self)
        ensures
            b.is_benchmark(BenchmarkType::RandomUncached, true, model_path, file_path, benchmarker_path, root),
    {
        PerformanceBenchmark {
            benchmark_type: BenchmarkType::RandomUncached,
            is_read_op: true,
            mem_pattern: AccessPattern::Rnd,
            file_pattern: AccessPattern::Rnd,
            repeats: 1000,
            memory_buffer_size_in_bytes: 4 * GIB,
            file_buffer_size_in_bytes: 25 * GIB,
            use_o_direct: false,
            drop_cache_before: root,
            reread_every_block: false,
            delete_afterwards: true,
            benchmarker_path,
            file_path,
            model_path,
            available_ram_in_bytes: None,
        }
    }

    /// Random writes to a file that is deleted afterwards.
    pub fn new_random_uncached_write(
        model_path: &'a str,
        file_path: &'a str,
        benchmarker_path: &'a str,
        root: bool,
    ) -> (b: Self)
        ensures
            b.is_benchmark(BenchmarkType::RandomUncached, false, model_path, file_path, benchmarker_path, root),
    {
        PerformanceBenchmark {
            benchmark_type: BenchmarkType::RandomUncached,
            is_read_op: false,
            mem_pattern: AccessPattern::Rnd,
            file_pattern: AccessPattern::Rnd,
            repeats: 1000,
            memory_buffer_size_in_bytes: 4 * GIB,
            file_buffer_size_in_bytes: 25 * GIB,
            use_o_direct: false,
            drop_cache_before: root,
            reread_every_block: false,
            delete_afterwards: true,
            benchmarker_path,
            file_path,
            model_path,
            available_ram_in_bytes: None,
        }
    }

    /// Reads of one offset, every block read twice.
    pub fn new_same_offset_read(
        model_path: &'a str,
        file_path: &'a str,
        benchmarker_path: &'a str,
    ) -> (b: Self)
        ensures
            b.is_benchmark(BenchmarkType::SameOffset, true, model_path, file_path, benchmarker_path, false),
    {
        PerformanceBenchmark {
            benchmark_type: BenchmarkType::SameOffset,
            is_read_op: true,
            mem_pattern: AccessPattern::Off0,
            file_pattern: AccessPattern::Off0,
            repeats: 1000,
            memory_buffer_size_in_bytes: 4 * GIB,
            file_buffer_size_in_bytes: 25 * GIB,
            use_o_direct: false,
            drop_cache_before: false,
            reread_every_block: true,
            delete_afterwards: false,
            benchmarker_path,
            file_path,
            model_path,
            available_ram_in_bytes: None,
        }
    }

    /// Writes to one offset, every block written twice.
    pub fn new_same_offset_write(
        model_path: &'a str,
        file_path: &'a str,
        benchmarker_path: &'a str,
    ) -> (b: Self)
        ensures
            b.is_benchmark(BenchmarkType::SameOffset, false, model_path, file_path, benchmarker_path, false),
    {
        PerformanceBenchmark {
            benchmark_type: BenchmarkType::SameOffset,
            is_read_op: false,
            mem_pattern: AccessPattern::Off0,
            file_pattern: AccessPattern::Off0,
            repeats: 1000,
            memory_buffer_size_in_bytes: 4 * GIB,
            file_buffer_size_in_bytes: 25 * GIB,
            use_o_direct: false,
            drop_cache_before: false,
            reread_every_block: true,
            delete_afterwards: false,
            benchmarker_path,
            file_path,
            model_path,
            available_ram_in_bytes: None,
        }
    }

    /// The benchmarker's arguments for one run with `access_size`.
    pub open spec fn parameters(&self, access_size: u64) -> Seq<Seq<char>> {
        benchmarker_arguments(
            self.is_read_op,
            self.mem_pattern,
            self.file_pattern,
            self.repeats as nat,
            self.memory_buffer_size_in_bytes as nat,
            self.file_buffer_size_in_bytes as nat,
            access_size as nat,
            self.file_path@,
            self.use_o_direct,
            match self.available_ram_in_bytes {
                Some(bytes) => Some(bytes as int),
                None => None,
            },
            self.drop_cache_before,
            self.reread_every_block,
            self.delete_afterwards,
        )
    }

    /// The benchmarker's arguments for one run with `access_size`.
    pub fn get_parameters(&self, access_size: &u64) -> (params: Vec<String>)
        ensures
            params@.map_values(|s: String| s@) == self.parameters(*access_size),
    {
        build_benchmarker_arguments(
            self.is_read_op,
            self.mem_pattern,
            self.file_pattern,
            self.repeats,
            self.memory_buffer_size_in_bytes,
            self.file_buffer_size_in_bytes,
            *access_size,
            self.file_path,
            self.use_o_direct,
            self.available_ram_in_bytes,
            self.drop_cache_before,
            self.reread_every_block,
            self.delete_afterwards,
        )
    }

    /// The directory the measurements of this benchmark are kept in:
    /// `<model path>/<benchmark type>/<read or write>`.
    pub fn get_benchmark_folder(&self) -> (folder: String)
        ensures
            folder@ == self.model_path@ + "/"@ + benchmark_type_name(self.benchmark_type) + "/"@ + op_name(self.is_read_op),
    {
        let mut folder = join2(self.model_path, "/");
        folder.append(self.benchmark_type.to_string().as_str());
        folder.append("/");
        folder.append(if self.is_read_op { "read" } else { "write" });
        folder
    }
}

/// The modeller's random uncached benchmarks delete their file afterwards
/// (and drop the page cache when allowed to), the same offset ones keep it
/// and reread every block; every benchmark runs on a 4 GiB memory buffer
/// and a 25 GiB file with 1000 repeats. The command line ends accordingly.
pub proof fn modeller_uncached_benchmarks_delete_their_file<'a>(
    b: PerformanceBenchmark<'a>,
    t: BenchmarkType,
    is_read_op: bool,
    model_path: &'a str,
    file_path: &'a str,
    benchmarker_path: &'a str,
    drop_cache: bool,
    access_size: u64,
)
    requires
        b.is_benchmark(t, is_read_op, model_path, file_path, benchmarker_path, drop_cache),
    ensures
        b.delete_afterwards <==> t == BenchmarkType::RandomUncached,
        b.reread_every_block <==> t == BenchmarkType::SameOffset,
        b.memory_buffer_size_in_bytes == 4294967296,
        b.file_buffer_size_in_bytes == 26843545600,
        b.repeats == 1000,
        t == BenchmarkType::RandomUncached ==> b.parameters(access_size).last() == "--delete-afterwards"@,
        t == BenchmarkType::SameOffset ==> b.parameters(access_size).last() == "--reread"@,
        b.parameters(access_size)[4] == "--mem-buf="@ + decimal(4294967296),
        b.parameters(access_size)[5] == "--file-buf="@ + decimal(26843545600),
{
    let params = b.parameters(access_size);
    let flags = option_flags_of(false, None, b.drop_cache_before, b.reread_every_block, b.delete_afterwards);
    assert(params.skip(8) =~= flags);
    match t {
        BenchmarkType::RandomUncached => {
            assert(params.last() == flags.last());
        },
        BenchmarkType::SameOffset => {
            assert(params.last() == flags.last());
        },
    }
}

} // verus!
