//! The benchmarks of the library-linked modeller and the configurations it
//! hands the benchmarker.

use vstd::prelude::*;

pub use crate::modeller::benchmark_wrapper::{AccessPattern, BenchmarkType};
use crate::modeller::benchmark_wrapper::{benchmark_type_name, op_name, GIB};
use crate::text::join2;

verus! {

/// A benchmark of the library-linked modeller.
#[derive(Debug)]
pub struct PerformanceBenchmark<'a> {
    pub benchmark_type: BenchmarkType,

    pub is_read_op: bool,
    pub mem_pattern: AccessPattern,
    pub file_pattern: AccessPattern,
    pub repeats: u64,
    pub memory_buffer_size_in_bytes: u64,
    pub file_buffer_size_in_bytes: u64,
    pub use_o_direct: bool,
    pub drop_cache_before: bool,
    pub reread_every_block: bool,
    pub delete_afterwards: bool,

    pub model_path: &'a str,
    pub file_path: &'a str,

    pub available_ram_in_bytes: Option<u64>,
}

/// What the benchmarker library is called with for one run.
#[derive(Debug, Clone)]
pub struct IoBenchmarkConfig {
    pub filepath: String,
    pub memory_buffer_in_bytes: u64,
    pub file_size_in_bytes: u64,
    pub access_size_in_bytes: u64,
    pub number_of_io_op_tests: u64,
    pub access_pattern_in_memory: u32,
    pub access_pattern_in_file: u32,
    pub is_read_operation: bool,
    pub prepare_file_size: bool,
    pub use_o_direct: bool,
    pub drop_cache_first: bool,
    pub do_reread: bool,
    pub delete_afterwards: bool,
    pub restrict_free_ram_to: u64,
}

impl<'a> PerformanceBenchmark<'a> {
    /// `self` is the benchmark of the given type and operation, with the
    /// settings shared by all benchmarks: 1000 repeats, a 4 GiB memory
    /// buffer, a 25 GiB file, no direct I/O and no RAM restriction.
    pub open spec fn is_benchmark(
        &self,
        t: BenchmarkType,
        is_read_op: bool,
        model_path: &'a str,
        file_path: &'a str,
        drop_cache: bool,
    ) -> bool {
        let uncached = t == BenchmarkType::RandomUncached;
        let pattern = if uncached { AccessPattern::Rnd } else { AccessPattern::Off0 };
        &&& self.benchmark_type == t
        &&& self.is_read_op == is_read_op
        &&& self.mem_pattern == pattern
        &&& self.file_pattern == pattern
        &&& self.repeats == 1000
        &&& self.memory_buffer_size_in_bytes == 4 * GIB
        &&& self.file_buffer_size_in_bytes == 25 * GIB
        &&& !self.use_o_direct
        &&& self.drop_cache_before == drop_cache
        &&& self.reread_every_block == !uncached
        &&& self.delete_afterwards == uncached
        &&& self.model_path == model_path
        &&& self.file_path == file_path
        &&& self.available_ram_in_bytes is None
    }

    /// The four benchmarks: random uncached reads and writes (dropping the
    /// page cache when running as root), then same offset reads and writes.
    pub fn get_all_benchmarks(
        model_path: &'a str,
        benchmark_file_path: &'a str,
        benchmarker_path: &'a str,
        root: bool,
    ) -> (v: Vec<Self>)
        ensures
            v.len() == 4,
            v[0].is_benchmark(BenchmarkType::RandomUncached, true, model_path, benchmark_file_path, root),
            v[1].is_benchmark(BenchmarkType::RandomUncached, false, model_path, benchmark_file_path, root),
            v[2].is_benchmark(BenchmarkType::SameOffset, true, model_path, benchmark_file_path, false),
            v[3].is_benchmark(BenchmarkType::SameOffset, false, model_path, benchmark_file_path, false),
    {
        let mut v: Vec<Self> = Vec::new();
        v.push(Self::new_random_uncached_read(model_path, benchmark_file_path, benchmarker_path, root));
        v.push(Self::new_random_uncached_write(model_path, benchmark_file_path, benchmarker_path, root));
        v.push(Self::new_same_offset_read(model_path, benchmark_file_path, benchmarker_path));
        v.push(Self::new_same_offset_write(model_path, benchmark_file_path, benchmarker_path));
        v
    }

    /// Random reads of a file that is deleted afterwards.
    pub fn new_random_uncached_read(
        model_path: &'a str,
        file_path: &'a str,
        benchmarker_path: &'a str,
        root: bool,
    ) -> (b: Self)
        ensures
            b.is_benchmark(BenchmarkType::RandomUncached, true, model_path, file_path, root),
    {
        PerformanceBenchmark {
            benchmark_type: BenchmarkType::RandomUncached,
            is_read_op: true,
            mem_pattern: AccessPattern::Rnd,
            file_pattern: AccessPattern::Rnd,
            repeats: 1000,
            memory_buffer_size_in_bytes: 4 * GIB,
            file_buffer_size_in_bytes: 25 * GIB,
            use_o_direct: false,
            drop_cache_before: root,
            reread_every_block: false,
            delete_afterwards: true,
            file_path,
            model_path,
            available_ram_in_bytes: None,
        }
    }

    /// Random writes to a file that is deleted afterwards.
    pub fn new_random_uncached_write(
        model_path: &'a str,
        file_path: &'a str,
        benchmarker_path: &'a str,
        root: bool,
    ) -> (b: Self)
        ensures
            b.is_benchmark(BenchmarkType::RandomUncached, false, model_path, file_path, root),
    {
        PerformanceBenchmark {
            benchmark_type: BenchmarkType::RandomUncached,
            is_read_op: false,
            mem_pattern: AccessPattern::Rnd,
            file_pattern: AccessPattern::Rnd,
            repeats: 1000,
            memory_buffer_size_in_bytes: 4 * GIB,
            file_buffer_size_in_bytes: 25 * GIB,
            use_o_direct: false,
            drop_cache_before: root,
            reread_every_block: false,
            delete_afterwards: true,
            file_path,
            model_path,
            available_ram_in_bytes: None,
        }
    }

    /// Reads of one offset, every block read twice.
    pub fn new_same_offset_read(
        model_path: &'a str,
        file_path: &'a str,
        benchmarker_path: &'a str,
    ) -> (b: Self)
        ensures
            b.is_benchmark(BenchmarkType::SameOffset, true, model_path, file_path, false),
    {
        PerformanceBenchmark {
            benchmark_type: BenchmarkType::SameOffset,
            is_read_op: true,
            mem_pattern: AccessPattern::Off0,
            file_pattern: AccessPattern::Off0,
            repeats: 1000,
            memory_buffer_size_in_bytes: 4 * GIB,
            file_buffer_size_in_bytes: 25 * GIB,
            use_o_direct: false,
            drop_cache_before: false,
            reread_every_block: true,
            delete_afterwards: false,
            file_path,
            model_path,
            available_ram_in_bytes: None,
        }
    }

    /// Writes to one offset, every block written twice.
    pub fn new_same_offset_write(
        model_path: &'a str,
        file_path: &'a str,
        benchmarker_path: &'a str,
    ) -> (b: Self)
        ensures
            b.is_benchmark(BenchmarkType::SameOffset, false, model_path, file_path, false),
    {
        PerformanceBenchmark {
            benchmark_type: BenchmarkType::SameOffset,
            is_read_op: false,
            mem_pattern: AccessPattern::Off0,
            file_pattern: AccessPattern::Off0,
            repeats: 1000,
            memory_buffer_size_in_bytes: 4 * GIB,
            file_buffer_size_in_bytes: 25 * GIB,
            use_o_direct: false,
            drop_cache_before: false,
            reread_every_block: true,
            delete_afterwards: false,
            file_path,
            model_path,
            available_ram_in_bytes: None,
        }
    }

    /// The configuration of one run with `access_size`: the benchmark's own
    /// settings, the file prepared to its size and no RAM restriction.
    pub fn benchmark_config(&self, access_size: u64) -> (c: IoBenchmarkConfig)
        ensures
            c.filepath@ == self.file_path@,
            c.memory_buffer_in_bytes == self.memory_buffer_size_in_bytes,
            c.file_size_in_bytes == self.file_buffer_size_in_bytes,
            c.access_size_in_bytes == access_size,
            c.number_of_io_op_tests == self.repeats,
            c.access_pattern_in_memory == match self.mem_pattern {
                AccessPattern::Off0 => crate::benchmarker::ACCESS_PATTERN_CONST,
                AccessPattern::Rnd => crate::benchmarker::ACCESS_PATTERN_RANDOM,
            },
            c.access_pattern_in_file == match self.file_pattern {
                AccessPattern::Off0 => crate::benchmarker::ACCESS_PATTERN_CONST,
                AccessPattern::Rnd => crate::benchmarker::ACCESS_PATTERN_RANDOM,
            },
            c.is_read_operation == self.is_read_op,
            c.prepare_file_size,
            c.use_o_direct == self.use_o_direct,
            c.drop_cache_first == self.drop_cache_before,
            c.do_reread == self.reread_every_block,
            c.delete_afterwards == self.delete_afterwards,
            c.restrict_free_ram_to == 0,
    {
        IoBenchmarkConfig {
            filepath: self.file_path.to_owned(),
            memory_buffer_in_bytes: self.memory_buffer_size_in_bytes,
            file_size_in_bytes: self.file_buffer_size_in_bytes,
            access_size_in_bytes: access_size,
            number_of_io_op_tests: self.repeats,
            access_pattern_in_memory: self.mem_pattern.to_c(),
            access_pattern_in_file: self.file_pattern.to_c(),
            is_read_operation: self.is_read_op,
            prepare_file_size: true,
            use_o_direct: self.use_o_direct,
            drop_cache_first: self.drop_cache_before,
            do_reread: self.reread_every_block,
            delete_afterwards: self.delete_afterwards,
            restrict_free_ram_to: 0,
        }
    }

    /// The directory the measurements of this benchmark are kept in:
    /// `<model path>/<benchmark type>/<read or write>`.
    pub fn get_benchmark_folder(&self) -> (folder: String)
        ensures
            folder@ == self.model_path@ + "/"@ + benchmark_type_name(self.benchmark_type) + "/"@ + op_name(self.is_read_op),
    {
        let mut folder = join2(self.model_path, "/");
        folder.append(self.benchmark_type.to_string().as_str());
        folder.append("/");
        folder.append(if self.is_read_op { "read" } else { "write" });
        folder
    }
}

/// Every standard benchmark of the linked modeller runs on a 4 GiB memory
/// buffer and a 25 GiB file (larger than the buffer, so that the file is
/// not simply cached in it), with 1000 repeats; the random uncached ones
/// delete their file afterwards and the same offset ones reread every
/// block. Each run's configuration carries exactly these sizes.
pub proof fn standard_benchmarks_use_4_gib_buffer_and_25_gib_file<'a>(
    b: PerformanceBenchmark<'a>,
    t: BenchmarkType,
    is_read_op: bool,
    model_path: &'a str,
    file_path: &'a str,
    drop_cache: bool,
    c: IoBenchmarkConfig,
)
    requires
        b.is_benchmark(t, is_read_op, model_path, file_path, drop_cache),
        c.memory_buffer_in_bytes == b.memory_buffer_size_in_bytes,
        c.file_size_in_bytes == b.file_buffer_size_in_bytes,
    ensures
        b.memory_buffer_size_in_bytes == 4294967296,
        b.file_buffer_size_in_bytes == 26843545600,
        c.memory_buffer_in_bytes == 4294967296,
        c.file_size_in_bytes == 26843545600,
        c.memory_buffer_in_bytes < c.file_size_in_bytes,
        b.repeats == 1000,
        b.delete_afterwards <==> t == BenchmarkType::RandomUncached,
        b.reread_every_block <==> t == BenchmarkType::SameOffset,
{
}

} // verus!
