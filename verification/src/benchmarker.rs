//! The interface of the C benchmarker: access patterns, error codes and the
//! benchmark configuration, together with their numeric C encodings.

use vstd::prelude::*;

verus! {

/// C code of `AccessPattern::Const`.
pub const ACCESS_PATTERN_CONST: u32 = 0;
/// C code of `AccessPattern::Sequential`.
pub const ACCESS_PATTERN_SEQUENTIAL: u32 = 1;
/// C code of `AccessPattern::Random`.
pub const ACCESS_PATTERN_RANDOM: u32 = 2;
/// C code of `AccessPattern::Reverse`.
pub const ACCESS_PATTERN_REVERSE: u32 = 3;
/// Number of access pattern codes that are handed to the C side.
pub const ACCESS_PATTERN_COUNT: u32 = 4;

/// The codes `AccessPattern::from_c_code` decodes: those of `Const`,
/// `Sequential` and `Random`. The code of `Reverse` is only ever handed to
/// the C side, for the reverse benchmarks of the runner, and is not decoded.
pub open spec fn is_decodable_pattern_code(n: u32) -> bool {
    n == ACCESS_PATTERN_CONST || n == ACCESS_PATTERN_SEQUENTIAL || n == ACCESS_PATTERN_RANDOM
}

/// How successive I/O operations choose their offset.
#[derive(Debug, Clone, Copy, PartialEq, Eq, Structural)]
pub enum AccessPattern {
    Const,
    Sequential,
    Random,
    Reverse,
}

/// The C code of an access pattern.
pub open spec fn access_pattern_code(p: AccessPattern) -> u32 {
    match p {
        AccessPattern::Const => ACCESS_PATTERN_CONST,
        AccessPattern::Sequential => ACCESS_PATTERN_SEQUENTIAL,
        AccessPattern::Random => ACCESS_PATTERN_RANDOM,
        AccessPattern::Reverse => ACCESS_PATTERN_REVERSE,
    }
}

impl AccessPattern {
    /// The numeric code the C benchmarker uses for this pattern.
    pub fn to_c_code(&self) -> (n: u32)
        ensures
            n == access_pattern_code(*self),
    {
        match self {
            AccessPattern::Const => ACCESS_PATTERN_CONST,
            AccessPattern::Sequential => ACCESS_PATTERN_SEQUENTIAL,
            AccessPattern::Random => ACCESS_PATTERN_RANDOM,
            AccessPattern::Reverse => ACCESS_PATTERN_REVERSE,
        }
    }

    /// The pattern that the C benchmarker denotes by `n`: one of `Const`,
    /// `Sequential` and `Random`. Any other code, that of `Reverse` among
    /// them, is not decoded.
    pub fn from_c_code(n: u32) -> (p: Self)
        requires
            is_decodable_pattern_code(n),
        ensures
            access_pattern_code(p) == n,
            !(p is Reverse),
    {
        if n == ACCESS_PATTERN_CONST {
            AccessPattern::Const
        } else if n == ACCESS_PATTERN_SEQUENTIAL {
            AccessPattern::Sequential
        } else {
            AccessPattern::Random
        }
    }
}

/// Every pattern has a code below `ACCESS_PATTERN_COUNT`, distinct patterns
/// have distinct codes, and every pattern but `Reverse` has a decodable code,
/// so decoding an encoded `Const`, `Sequential` or `Random` gives it back.
pub proof fn access_pattern_code_is_injective(p: AccessPattern, q: AccessPattern)
    ensures
        access_pattern_code(p) < ACCESS_PATTERN_COUNT,
        access_pattern_code(p) == access_pattern_code(q) ==> p == q,
        is_decodable_pattern_code(access_pattern_code(p)) <==> !(p is Reverse),
{
}

/// Outcome of a benchmark run as reported by the C benchmarker.
#[derive(Debug, Clone, Copy, PartialEq, Eq, Structural)]
pub enum ErrorCodes {
    Success,

    /* Linux operations that failed */
    MallocFailed,
    OpenFailed,
    ReadFailed,
    WriteFailed,
    LseekFailed,
    FsyncFailed,
    FstatFailed,
    IOOpFailed,
    RemoveFailed,

    /* High Level Operations */
    DropPageCacheFailedNoPermissions,
    DropPageCacheFailedOther,
    IncorrectFileBufferSize,
}

/// Number of error codes the C side knows; they are numbered from zero in
/// declaration order.
pub const ERROR_CODES_COUNT: u32 = 13;

/// The C code of an error code.
pub open spec fn error_code(e: ErrorCodes) -> u32 {
    match e {
        ErrorCodes::Success => 0,
        ErrorCodes::MallocFailed => 1,
        ErrorCodes::OpenFailed => 2,
        ErrorCodes::ReadFailed => 3,
        ErrorCodes::WriteFailed => 4,
        ErrorCodes::LseekFailed => 5,
        ErrorCodes::FsyncFailed => 6,
        ErrorCodes::FstatFailed => 7,
        ErrorCodes::IOOpFailed => 8,
        ErrorCodes::RemoveFailed => 9,
        ErrorCodes::DropPageCacheFailedNoPermissions => 10,
        ErrorCodes::DropPageCacheFailedOther => 11,
        ErrorCodes::IncorrectFileBufferSize => 12,
    }
}

impl ErrorCodes {
    /// The numeric code the C benchmarker uses for this outcome.
    pub fn to_c_code(&self) -> (n: u32)
        ensures
            n == error_code(*self),
    {
        match self {
            ErrorCodes::Success => 0,
            ErrorCodes::MallocFailed => 1,
            ErrorCodes::OpenFailed => 2,
            ErrorCodes::ReadFailed => 3,
            ErrorCodes::WriteFailed => 4,
            ErrorCodes::LseekFailed => 5,
            ErrorCodes::FsyncFailed => 6,
            ErrorCodes::FstatFailed => 7,
            ErrorCodes::IOOpFailed => 8,
            ErrorCodes::RemoveFailed => 9,
            ErrorCodes::DropPageCacheFailedNoPermissions => 10,
            ErrorCodes::DropPageCacheFailedOther => 11,
            ErrorCodes::IncorrectFileBufferSize => 12,
        }
    }

    /// The outcome that the C benchmarker denotes by `n`.
    pub fn from_c_code(n: u32) -> (e: Self)
        requires
            n < ERROR_CODES_COUNT,
        ensures
            error_code(e) == n,
    {
        match n {
            0 => ErrorCodes::Success,
            1 => ErrorCodes::MallocFailed,
            2 => ErrorCodes::OpenFailed,
            3 => ErrorCodes::ReadFailed,
            4 => ErrorCodes::WriteFailed,
            5 => ErrorCodes::LseekFailed,
            6 => ErrorCodes::FsyncFailed,
            7 => ErrorCodes::FstatFailed,
            8 => ErrorCodes::IOOpFailed,
            9 => ErrorCodes::RemoveFailed,
            10 => ErrorCodes::DropPageCacheFailedNoPermissions,
            11 => ErrorCodes::DropPageCacheFailedOther,
            _ => ErrorCodes::IncorrectFileBufferSize,
        }
    }
}

/// Every outcome has a code below `ERROR_CODES_COUNT`, and distinct outcomes
/// have distinct codes, so decoding an encoded outcome gives it back.
pub proof fn error_code_is_injective(e: ErrorCodes, f: ErrorCodes)
    ensures
        error_code(e) < ERROR_CODES_COUNT,
        error_code(e) == error_code(f) ==> e == f,
{
}

/// What one benchmark run measures. Sizes are in bytes.
#[derive(Debug, Clone)]
pub struct BenchmarkConfig {
    pub filepath: String,
    pub memory_buffer_in_bytes: u64,
    pub file_size_in_bytes: u64,
    pub access_size_in_bytes: u64,
    pub number_of_io_op_tests: u64,
    pub access_pattern_in_memory: AccessPattern,
    pub access_pattern_in_file: AccessPattern,
    pub is_read_operation: bool,
    pub prepare_file_size: bool,
    pub drop_cache_first: bool,
    pub do_reread: bool,
    pub restrict_free_ram_to: Option<u64>,
}

/// The configuration as the C benchmarker receives it: patterns as their
/// codes and "no RAM restriction" as zero.
#[derive(Debug, Clone)]
pub struct CBenchmarkConfig {
    pub filepath: String,
    pub memory_buffer_in_bytes: u64,
    pub file_size_in_bytes: u64,
    pub access_size_in_bytes: u64,
    pub number_of_io_op_tests: u64,
    pub access_pattern_in_memory: u32,
    pub access_pattern_in_file: u32,
    pub is_read_operation: bool,
    pub prepare_file_size: bool,
    pub drop_cache_first: bool,
    pub do_reread: bool,
    pub restrict_free_ram_to: u64,
}

impl BenchmarkConfig {
    /// The C form of this configuration.
    pub fn to_c_code(&self) -> (c: CBenchmarkConfig)
        ensures
            c.filepath@ == self.filepath@,
            c.memory_buffer_in_bytes == self.memory_buffer_in_bytes,
            c.file_size_in_bytes == self.file_size_in_bytes,
            c.access_size_in_bytes == self.access_size_in_bytes,
            c.number_of_io_op_tests == self.number_of_io_op_tests,
            c.access_pattern_in_memory == access_pattern_code(self.access_pattern_in_memory),
            c.access_pattern_in_file == access_pattern_code(self.access_pattern_in_file),
            c.is_read_operation == self.is_read_operation,
            c.prepare_file_size == self.prepare_file_size,
            c.drop_cache_first == self.drop_cache_first,
            c.do_reread == self.do_reread,
            c.restrict_free_ram_to == match self.restrict_free_ram_to {
                Some(bytes) => bytes,
                None => 0,
            },
    {
        CBenchmarkConfig {
            filepath: self.filepath.clone(),
            memory_buffer_in_bytes: self.memory_buffer_in_bytes,
            file_size_in_bytes: self.file_size_in_bytes,
            access_size_in_bytes: self.access_size_in_bytes,
            number_of_io_op_tests: self.number_of_io_op_tests,
            access_pattern_in_memory: self.access_pattern_in_memory.to_c_code(),
            access_pattern_in_file: self.access_pattern_in_file.to_c_code(),
            is_read_operation: self.is_read_operation,
            prepare_file_size: self.prepare_file_size,
            drop_cache_first: self.drop_cache_first,
            do_reread: self.do_reread,
            restrict_free_ram_to: match self.restrict_free_ram_to {
                Some(bytes) => bytes,
                None => 0,
            },
        }
    }
}

/// A pair of C integers, the type the C side uses to check that calls
/// across the language boundary work.
#[derive(Debug, Clone, Copy, PartialEq, Eq, Structural)]
pub struct Tuple {
    pub a: i32,
    pub b: i32,
}

/// Componentwise sum of two tuples.
pub fn tuple_add(x: &Tuple, y: &Tuple) -> (r: Tuple)
    requires
        i32::MIN <= x.a + y.a <= i32::MAX,
        i32::MIN <= x.b + y.b <= i32::MAX,
    ensures
        r.a == x.a + y.a,
        r.b == x.b + y.b,
{
    Tuple { a: x.a + y.a, b: x.b + y.b }
}

/// Adds `y` componentwise into `x`.
pub fn inline_tuple_add(x: &mut Tuple, y: &Tuple)
    requires
        i32::MIN <= old(x).a + y.a <= i32::MAX,
        i32::MIN <= old(x).b + y.b <= i32::MAX,
    ensures
        final(x).a == old(x).a + y.a,
        final(x).b == old(x).b + y.b,
{
    x.a = x.a + y.a;
    x.b = x.b + y.b;
}

} // verus!
