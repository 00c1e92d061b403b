//! Classifying recorded accesses by the models, and counting the outcome.

use vstd::prelude::*;

use crate::modeller::benchmark_wrapper::{benchmark_type_name, op_name, BenchmarkType};
use crate::text::join3;

verus! {

/// The key a classification is counted under in a report: the operation,
/// a space and the benchmark type, e.g. `read SameOffset`.
pub fn key_to_string(b: BenchmarkType, r: bool) -> (key: String)
    ensures
        key@ == op_name(r) + " "@ + benchmark_type_name(b),
{
    join3(if r { "read" } else { "write" }, " ", b.to_string().as_str())
}

/// Whether a recorded access with this I/O type is a read: `r` is, every
/// other type counts as a write.
pub open spec fn is_read_io_type(io_type: char) -> bool {
    io_type == 'r'
}

/// The positions of the recorded accesses that are reads (`reads`) or
/// writes, in order.
pub open spec fn positions_of_operation(io_types: Seq<char>, reads: bool) -> Seq<int>
    decreases io_types.len(),
{
    if io_types.len() == 0 {
        Seq::empty()
    } else {
        let init = positions_of_operation(io_types.drop_last(), reads);
        if is_read_io_type(io_types.last()) == reads {
            init.push(io_types.len() - 1)
        } else {
            init
        }
    }
}

/// Splits recorded accesses, given by their I/O types, into the positions of
/// the reads and of the writes, each in order.
pub fn split_by_operation(io_types: &[char]) -> (split: (Vec<usize>, Vec<usize>))
    ensures
        split.0@.map_values(|p: usize| p as int) == positions_of_operation(io_types@, true),
        split.1@.map_values(|p: usize| p as int) == positions_of_operation(io_types@, false),
{
    let mut reads: Vec<usize> = Vec::new();
    let mut writes: Vec<usize> = Vec::new();
    let mut i: usize = 0;
    while i < io_types.len()
        invariant
            i <= io_types.len(),
            reads@.map_values(|p: usize| p as int) == positions_of_operation(io_types@.take(i as int), true),
            writes@.map_values(|p: usize| p as int) == positions_of_operation(io_types@.take(i as int), false),
        decreases io_types.len() - i,
    {
        assert(io_types@.take(i + 1).drop_last() =~= io_types@.take(i as int));
        let ghost r0 = reads@;
        let ghost w0 = writes@;
        if io_types[i] == 'r' {
            reads.push(i);
            assert(reads@.map_values(|p: usize| p as int) =~= r0.map_values(|p: usize| p as int).push(i as int));
        } else {
            writes.push(i);
            assert(writes@.map_values(|p: usize| p as int) =~= w0.map_values(|p: usize| p as int).push(i as int));
        }
        i = i + 1;
    }
    assert(io_types@.take(io_types.len() as int) =~= io_types@);
    (reads, writes)
}

/// The model that classified a recorded access (its benchmark type and
/// whether it reads), or `None` when no model did.
pub type Classification = Option<(BenchmarkType, bool)>;

/// How many of `outcomes` are `target`.
pub open spec fn occurrences(outcomes: Seq<Classification>, target: Classification) -> nat
    decreases outcomes.len(),
{
    if outcomes.len() == 0 {
        0
    } else {
        occurrences(outcomes.drop_last(), target) + if outcomes.last() == target {
            1nat
        } else {
            0nat
        }
    }
}

/// The models a report counts under, in the order of their keys.
pub open spec fn report_models() -> Seq<(BenchmarkType, bool)> {
    seq![
        (BenchmarkType::RandomUncached, true),
        (BenchmarkType::SameOffset, true),
        (BenchmarkType::RandomUncached, false),
        (BenchmarkType::SameOffset, false),
    ]
}

/// The key of a model in a report.
pub open spec fn report_key(m: (BenchmarkType, bool)) -> Seq<char> {
    op_name(m.1) + " "@ + benchmark_type_name(m.0)
}

/// The entry of model `m` in the counts: its key and how many accesses it
/// classified, or nothing when it classified none.
pub open spec fn tally_entry(outcomes: Seq<Classification>, m: (BenchmarkType, bool)) -> Seq<(Seq<char>, nat)> {
    let n = occurrences(outcomes, Some(m));
    if n > 0 {
        seq![(report_key(m), n)]
    } else {
        Seq::empty()
    }
}

/// The counts of classified accesses: one entry per model that classified
/// at least one, ordered by key.
pub open spec fn classified_tally(outcomes: Seq<Classification>) -> Seq<(Seq<char>, nat)> {
    tally_entry(outcomes, report_models()[0]) + tally_entry(outcomes, report_models()[1])
        + tally_entry(outcomes, report_models()[2]) + tally_entry(outcomes, report_models()[3])
}

/// How many recorded accesses each model classified, and how many none did.
pub struct ClassificationCounts {
    /// Key and count of each model that classified at least one access,
    /// ordered by key.
    pub classified: Vec<(String, u64)>,
    /// How many accesses no model classified.
    pub unclassified: u64,
}

/// Counts, for the classification of each recorded access, how many each
/// model classified (under its report key) and how many none did.
pub fn count_classifications(outcomes: &[Classification]) -> (counts: ClassificationCounts)
    ensures
        counts.classified@.map_values(|e: (String, u64)| (e.0@, e.1 as nat)) == classified_tally(outcomes@),
        counts.unclassified == occurrences(outcomes@, None),
{
    let mut random_read: u64 = 0;
    let mut same_read: u64 = 0;
    let mut random_write: u64 = 0;
    let mut same_write: u64 = 0;
    let mut unclassified: u64 = 0;
    let mut i: usize = 0;
    while i < outcomes.len()
        invariant
            i <= outcomes.len(),
            random_read <= i,
            same_read <= i,
            random_write <= i,
            same_write <= i,
            unclassified <= i,
            random_read == occurrences(outcomes@.take(i as int), Some(report_models()[0])),
            same_read == occurrences(outcomes@.take(i as int), Some(report_models()[1])),
            random_write == occurrences(outcomes@.take(i as int), Some(report_models()[2])),
            same_write == occurrences(outcomes@.take(i as int), Some(report_models()[3])),
            unclassified == occurrences(outcomes@.take(i as int), None),
        decreases outcomes.len() - i,
    {
        assert(outcomes@.take(i + 1).drop_last() =~= outcomes@.take(i as int));
        match outcomes[i] {
            None => unclassified = unclassified + 1,
            Some((BenchmarkType::RandomUncached, true)) => random_read = random_read + 1,
            Some((BenchmarkType::SameOffset, true)) => same_read = same_read + 1,
            Some((BenchmarkType::RandomUncached, false)) => random_write = random_write + 1,
            Some((BenchmarkType::SameOffset, false)) => same_write = same_write + 1,
        }
        i = i + 1;
    }
    assert(outcomes@.take(outcomes.len() as int) =~= outcomes@);
    let mut classified: Vec<(String, u64)> = Vec::new();
    if random_read > 0 {
        classified.push((key_to_string(BenchmarkType::RandomUncached, true), random_read));
    }
    if same_read > 0 {
        classified.push((key_to_string(BenchmarkType::SameOffset, true), same_read));
    }
    if random_write > 0 {
        classified.push((key_to_string(BenchmarkType::RandomUncached, false), random_write));
    }
    if same_write > 0 {
        classified.push((key_to_string(BenchmarkType::SameOffset, false), same_write));
    }
    assert(classified@.map_values(|e: (String, u64)| (e.0@, e.1 as nat)) =~= classified_tally(outcomes@));
    ClassificationCounts { classified, unclassified }
}

/// Every recorded access is counted exactly once: under the model that
/// classified it, or as unclassified.
pub proof fn every_access_counted_once(outcomes: Seq<Classification>)
    ensures
        occurrences(outcomes, Some(report_models()[0])) + occurrences(outcomes, Some(report_models()[1]))
            + occurrences(outcomes, Some(report_models()[2])) + occurrences(outcomes, Some(report_models()[3]))
            + occurrences(outcomes, None) == outcomes.len(),
    decreases outcomes.len(),
{
    if outcomes.len() > 0 {
        every_access_counted_once(outcomes.drop_last());
        match outcomes.last() {
            None => {},
            Some((t, is_read_op)) => {
                assert(Some((t, is_read_op)) == Some(report_models()[0]) || Some((t, is_read_op)) == Some(
                    report_models()[1],
                ) || Some((t, is_read_op)) == Some(report_models()[2]) || Some((t, is_read_op)) == Some(
                    report_models()[3],
                ));
            },
        }
    }
}

} // verus!
