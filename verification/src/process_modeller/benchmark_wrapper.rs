//! The benchmarks of the process modeller and the command lines it runs the
//! benchmarker with.

use vstd::prelude::*;

pub use crate::modeller::benchmark_wrapper::{AccessPattern, BenchmarkType};
use crate::modeller::benchmark_wrapper::{
    benchmark_type_name,
    benchmarker_arguments,
    build_benchmarker_arguments,
    option_flags_of,
    op_name,
    GIB,
};
use crate::text::{decimal, join2};

verus! {

/// A benchmark of the process modeller: what the benchmarker is told, and
/// where model, benchmark file and benchmarker live.
#[derive(Debug)]
pub struct PerformanceBenchmark {
    pub benchmark_type: BenchmarkType,

    pub is_read_op: bool,
    pub mem_pattern: AccessPattern,
    pub file_pattern: AccessPattern,
    pub repeats: u32,
    pub memory_buffer_size_in_bytes: u64,
    pub file_buffer_size_in_bytes: u64,
    pub use_o_direct: bool,
    pub drop_cache_before: bool,
    pub reread_every_block: bool,
    pub delete_afterwards: bool,

    pub model_path: String,
    pub file_path: String,
    pub benchmarker_path: String,

    pub available_ram_in_bytes: Option<i32>,
}

impl PerformanceBenchmark {
    /// `self` is the benchmark of the given type and operation, with the
    /// settings shared by all benchmarks: 1000 repeats, a 4 GiB memory
    /// buffer, a 25 GiB file, no direct I/O and no RAM restriction; the
    /// uncached benchmarks always drop the page cache.
    pub open spec fn is_benchmark(
        &self,
        t: BenchmarkType,
        is_read_op: bool,
        model_path: Seq<char>,
        file_path: Seq<char>,
        benchmarker_path: Seq<char>,
    ) -> bool {
        let uncached = t == BenchmarkType::RandomUncached;
        let pattern = if uncached { AccessPattern::Rnd } else { AccessPattern::Off0 };
        &&& self.benchmark_type == t
        &&& self.is_read_op == is_read_op
        &&& self.mem_pattern == pattern
        &&& self.file_pattern == pattern
        &&& self.repeats == 1000
        &&& self.memory_buffer_size_in_bytes == 4 * GIB
        &&& self.file_buffer_size_in_bytes == 25 * GIB
        &&& !self.use_o_direct
        &&& self.drop_cache_before == uncached
        &&& self.reread_every_block == !uncached
        &&& self.delete_afterwards == uncached
        &&& self.model_path@ == model_path
        &&& self.file_path@ == file_path
        &&& self.benchmarker_path@ == benchmarker_path
        &&& self.available_ram_in_bytes is None
    }

    /// The four benchmarks: random uncached reads and writes, then same
    /// offset reads and writes.
    pub fn get_all_benchmarks(
        model_path: &String,
        benchmark_file_path: &String,
        benchmarker_path: &String,
    ) -> (v: Vec<Self>)
        ensures
            v.len() == 4,
            v[0].is_benchmark(BenchmarkType::RandomUncached, true, model_path@, benchmark_file_path@, benchmarker_path@),
            v[1].is_benchmark(BenchmarkType::RandomUncached, false, model_path@, benchmark_file_path@, benchmarker_path@),
            v[2].is_benchmark(BenchmarkType::SameOffset, true, model_path@, benchmark_file_path@, benchmarker_path@),
            v[3].is_benchmark(BenchmarkType::SameOffset, false, model_path@, benchmark_file_path@, benchmarker_path@),
    {
        let mut v: Vec<Self> = Vec::new();
        v.push(Self::new_random_uncached_read(model_path, benchmark_file_path, benchmarker_path));
        v.push(Self::new_random_uncached_write(model_path, benchmark_file_path, benchmarker_path));
        v.push(Self::new_same_offset_read(model_path, benchmark_file_path, benchmarker_path));
        v.push(Self::new_same_offset_write(model_path, benchmark_file_path, benchmarker_path));
        v
    }

    /// Random reads of a file that is deleted afterwards.
    pub fn new_random_uncached_read(
        model_path: &String,
        benchmark_file_path: &String,
        benchmarker_path: &String,
    ) -> (b: Self)
        ensures
            b.is_benchmark(BenchmarkType::RandomUncached, true, model_path@, benchmark_file_path@, benchmarker_path@),
    {
        PerformanceBenchmark {
            benchmark_type: BenchmarkType::RandomUncached,
            is_read_op: true,
            mem_pattern: AccessPattern::Rnd,
            file_pattern: AccessPattern::Rnd,
            repeats: 1000,
            memory_buffer_size_in_bytes: 4 * GIB,
            file_buffer_size_in_bytes: 25 * GIB,
            use_o_direct: false,
            drop_cache_before: true,
            reread_every_block: false,
            delete_afterwards: true,
            benchmarker_path: benchmarker_path.clone(),
            file_path: benchmark_file_path.clone(),
            model_path: model_path.clone(),
            available_ram_in_bytes: None,
        }
    }

    /// Random writes to a file that is deleted afterwards.
    pub fn new_random_uncached_write(
        model_path: &String,
        benchmark_file_path: &String,
        benchmarker_path: &String,
    ) -> (b: Self)
        ensures
            b.is_benchmark(BenchmarkType::RandomUncached, false, model_path@, benchmark_file_path@, benchmarker_path@),
    {
        PerformanceBenchmark {
            benchmark_type: BenchmarkType::RandomUncached,
            is_read_op: false,
            mem_pattern: AccessPattern::Rnd,
            file_pattern: AccessPattern::Rnd,
            repeats: 1000,
            memory_buffer_size_in_bytes: 4 * GIB,
            file_buffer_size_in_bytes: 25 * GIB,
            use_o_direct: false,
            drop_cache_before: true,
            reread_every_block: false,
            delete_afterwards: true,
            benchmarker_path: benchmarker_path.clone(),
            file_path: benchmark_file_path.clone(),
            model_path: model_path.clone(),
            available_ram_in_bytes: None,
        }
    }

    /// Reads of one offset, every block read twice.
    pub fn new_same_offset_read(
        model_path: &String,
        benchmark_file_path: &String,
        benchmarker_path: &String,
    ) -> (b: Self)
        ensures
            b.is_benchmark(BenchmarkType::SameOffset, true, model_path@, benchmark_file_path@, benchmarker_path@),
    {
        PerformanceBenchmark {
            benchmark_type: BenchmarkType::SameOffset,
            is_read_op: true,
            mem_pattern: AccessPattern::Off0,
            file_pattern: AccessPattern::Off0,
            repeats: 1000,
            memory_buffer_size_in_bytes: 4 * GIB,
            file_buffer_size_in_bytes: 25 * GIB,
            use_o_direct: false,
            drop_cache_before: false,
            reread_every_block: true,
            delete_afterwards: false,
            benchmarker_path: benchmarker_path.clone(),
            file_path: benchmark_file_path.clone(),
            model_path: model_path.clone(),
            available_ram_in_bytes: None,
        }
    }

    /// Writes to one offset, every block written twice.
    pub fn new_same_offset_write(
        model_path: &String,
        benchmark_file_path: &String,
        benchmarker_path: &String,
    ) -> (b: Self)
        ensures
            b.is_benchmark(BenchmarkType::SameOffset, false, model_path@, benchmark_file_path@, benchmarker_path@),
    {
        PerformanceBenchmark {
            benchmark_type: BenchmarkType::SameOffset,
            is_read_op: false,
            mem_pattern: AccessPattern::Off0,
            file_pattern: AccessPattern::Off0,
            repeats: 1000,
            memory_buffer_size_in_bytes: 4 * GIB,
            file_buffer_size_in_bytes: 25 * GIB,
            use_o_direct: false,
            drop_cache_before: false,
            reread_every_block: true,
            delete_afterwards: false,
            benchmarker_path: benchmarker_path.clone(),
            file_path: benchmark_file_path.clone(),
            model_path: model_path.clone(),
            available_ram_in_bytes: None,
        }
    }

    /// The benchmarker's arguments for one run with `access_size`.
    pub open spec fn parameters(&self, access_size: u64) -> Seq<Seq<char>> {
        benchmarker_arguments(
            self.is_read_op,
            self.mem_pattern,
            self.file_pattern,
            self.repeats as nat,
            self.memory_buffer_size_in_bytes as nat,
            self.file_buffer_size_in_bytes as nat,
            access_size as nat,
            self.file_path@,
            self.use_o_direct,
            match self.available_ram_in_bytes {
                Some(bytes) => Some(bytes as int),
                None => None,
            },
            self.drop_cache_before,
            self.reread_every_block,
            self.delete_afterwards,
        )
    }

    /// The benchmarker's arguments for one run with `access_size`.
    pub fn get_parameters(&self, access_size: &u64) -> (params: Vec<String>)
        ensures
            params@.map_values(|s: String| s@) == self.parameters(*access_size),
    {
        build_benchmarker_arguments(
            self.is_read_op,
            self.mem_pattern,
            self.file_pattern,
            self.repeats,
            self.memory_buffer_size_in_bytes,
            self.file_buffer_size_in_bytes,
            *access_size,
            self.file_path.as_str(),
            self.use_o_direct,
            self.available_ram_in_bytes,
            self.drop_cache_before,
            self.reread_every_block,
            self.delete_afterwards,
        )
    }

    /// The directory the measurements of this benchmark are kept in:
    /// `<model path>/<benchmark type>/<read or write>`.
    pub fn get_benchmark_folder(&self) -> (folder: String)
        ensures
            folder@ == self.model_path@ + "/"@ + benchmark_type_name(self.benchmark_type) + "/"@ + op_name(self.is_read_op),
    {
        let mut folder = join2(self.model_path.as_str(), "/");
        folder.append(self.benchmark_type.to_string().as_str());
        folder.append("/");
        folder.append(if self.is_read_op { "read" } else { "write" });
        folder
    }
}

/// The random uncached benchmarks of the process modeller drop the page
/// cache before and delete their file afterwards, so that no run finds the
/// file cached; the same offset ones do neither and reread every block.
/// Their command lines end accordingly: with `--drop-cache` and
/// `--delete-afterwards`, or with `--reread` alone, after the eight fixed
/// arguments (4 GiB memory buffer, 25 GiB file, 1000 repeats).
pub proof fn uncached_benchmarks_delete_their_file(
    b: PerformanceBenchmark,
    t: BenchmarkType,
    is_read_op: bool,
    model_path: Seq<char>,
    file_path: Seq<char>,
    benchmarker_path: Seq<char>,
    access_size: u64,
)
    requires
        b.is_benchmark(t, is_read_op, model_path, file_path, benchmarker_path),
    ensures
        b.delete_afterwards <==> t == BenchmarkType::RandomUncached,
        b.drop_cache_before <==> t == BenchmarkType::RandomUncached,
        b.memory_buffer_size_in_bytes == 4294967296,
        b.file_buffer_size_in_bytes == 26843545600,
        b.repeats == 1000,
        t == BenchmarkType::RandomUncached ==> b.parameters(access_size).len() == 10
            && b.parameters(access_size)[8] == "--drop-cache"@
            && b.parameters(access_size)[9] == "--delete-afterwards"@,
        t == BenchmarkType::SameOffset ==> b.parameters(access_size).len() == 9
            && b.parameters(access_size)[8] == "--reread"@,
        b.parameters(access_size)[4] == "--mem-buf="@ + decimal(4294967296),
        b.parameters(access_size)[5] == "--file-buf="@ + decimal(26843545600),
{
    let params = b.parameters(access_size);
    let flags = option_flags_of(false, None, b.drop_cache_before, b.reread_every_block, b.delete_afterwards);
    assert(params.skip(8) =~= flags);
    match t {
        BenchmarkType::RandomUncached => {
            assert(flags =~= seq!["--drop-cache"@, "--delete-afterwards"@]);
            assert(params[8] == params.skip(8)[0]);
            assert(params[9] == params.skip(8)[1]);
        },
        BenchmarkType::SameOffset => {
            assert(flags =~= seq!["--reread"@]);
            assert(params[8] == params.skip(8)[0]);
        },
    }
}

} // verus!
