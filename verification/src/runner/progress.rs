//! Which access sizes of which benchmarks are still to be measured.
//!
//! The progress keeps one status per scenario and operation. It is a table
//! with one slot for each of the eight possible keys, so that looking a key
//! up, inserting under it and replacing its status are plain index
//! operations.

use vstd::prelude::*;

use crate::runner::benchmark::{is_scenario_benchmark, standard_scenario, Benchmark, BenchmarkScenario};

verus! {

/// Name of the file, in the output directory, that the progress is kept in.
pub const FILE_NAME: &'static str = "BenchmarkProgress.toml";

/// Version of the progress format.
pub const VERSION_NUMBER: u32 = 1;

/// Format information stored with the progress.
#[derive(Debug, Clone, Copy, PartialEq, Eq, Structural)]
pub struct Meta {
    pub version: u32,
}

/// Whether a benchmark reads or writes.
#[derive(Debug, Clone, Copy, PartialEq, Eq, Hash, Structural)]
pub enum Operation {
    Read,
    Write,
}

/// The name of an operation, as it appears in directory names.
pub open spec fn operation_name(op: Operation) -> Seq<char> {
    match op {
        Operation::Read => "read"@,
        Operation::Write => "write"@,
    }
}

/// The operation of a read (`true`) or write (`false`) benchmark.
pub open spec fn operation_of(is_read_op: bool) -> Operation {
    if is_read_op {
        Operation::Read
    } else {
        Operation::Write
    }
}

impl Operation {
    /// The name of the operation.
    pub fn to_string(&self) -> (s: String)
        ensures
            s@ == operation_name(*self),
    {
        match self {
            Operation::Read => "read".to_owned(),
            Operation::Write => "write".to_owned(),
        }
    }

    /// `Read` for a read benchmark, `Write` otherwise.
    pub fn from_is_read_op(is_read_op: bool) -> (op: Self)
        ensures
            op == operation_of(is_read_op),
    {
        if is_read_op {
            Operation::Read
        } else {
            Operation::Write
        }
    }
}

/// The key under which the progress of a benchmark is kept.
pub open spec fn key_of(b: Benchmark) -> (BenchmarkScenario, Operation) {
    (b.scenario, operation_of(b.config.is_read_operation))
}

/// Progress of one benchmark: the access sizes measured so far, in the order
/// they were measured, the access sizes still to measure, and whether none
/// is left.
#[derive(Debug, Clone)]
pub struct BenchmarkStatus {
    pub done: bool,
    pub access_sizes_done: Vec<u32>,
    pub access_sizes_missing: Vec<u32>,
}

impl View for BenchmarkStatus {
    type V = (bool, Seq<u32>, Seq<u32>);

    open spec fn view(&self) -> (bool, Seq<u32>, Seq<u32>) {
        (self.done, self.access_sizes_done@, self.access_sizes_missing@)
    }
}

/// `s` with every occurrence of `x` removed, the rest in order.
pub open spec fn without(s: Seq<u32>, x: u32) -> Seq<u32>
    decreases s.len(),
{
    if s.len() == 0 {
        s
    } else {
        let rest = without(s.drop_last(), x);
        if s.last() == x {
            rest
        } else {
            rest.push(s.last())
        }
    }
}

/// The status of a benchmark that has not measured anything yet.
pub open spec fn fresh_status(access_sizes: Seq<u32>) -> (bool, Seq<u32>, Seq<u32>) {
    (false, Seq::empty(), access_sizes)
}

/// The status after `access_size` has been measured: it no longer counts as
/// missing, it is recorded as done (once), and the benchmark is done when
/// nothing is missing any more.
pub open spec fn status_after(
    st: (bool, Seq<u32>, Seq<u32>),
    access_size: u32,
) -> (bool, Seq<u32>, Seq<u32>) {
    let missing = without(st.2, access_size);
    let done = if st.1.contains(access_size) {
        st.1
    } else {
        st.1.push(access_size)
    };
    (missing.len() == 0, done, missing)
}

/// The progress of a list of benchmarks before any of them ran: every key
/// that some benchmark has, with nothing done and all `access_sizes` missing.
pub open spec fn fresh_progress(
    benchmarks: Seq<Benchmark>,
    access_sizes: Seq<u32>,
) -> Map<(BenchmarkScenario, Operation), (bool, Seq<u32>, Seq<u32>)> {
    Map::new(
        |k: (BenchmarkScenario, Operation)|
            exists|i: int| 0 <= i < benchmarks.len() && key_of(#[trigger] benchmarks[i]) == k,
        |k: (BenchmarkScenario, Operation)| fresh_status(access_sizes),
    )
}

/// The progress after `access_size` of benchmark `b` has been measured.
pub open spec fn progress_after(
    p: Map<(BenchmarkScenario, Operation), (bool, Seq<u32>, Seq<u32>)>,
    b: Benchmark,
    access_size: u32,
) -> Map<(BenchmarkScenario, Operation), (bool, Seq<u32>, Seq<u32>)> {
    if p.contains_key(key_of(b)) {
        p.insert(key_of(b), status_after(p[key_of(b)], access_size))
    } else {
        p
    }
}

/// The access sizes that `get_missing_access_sizes` reports for `b`: those
/// kept under the read key of `b`'s scenario, whatever `b`'s operation.
pub open spec fn missing_reported(
    p: Map<(BenchmarkScenario, Operation), (bool, Seq<u32>, Seq<u32>)>,
    b: Benchmark,
) -> Option<Seq<u32>> {
    if p.contains_key((b.scenario, Operation::Read)) {
        Some(p[(b.scenario, Operation::Read)].2)
    } else {
        None
    }
}

/// The slot of a key in the table.
pub open spec fn slot_of(s: BenchmarkScenario, op: Operation) -> int {
    let row: int = match s {
        BenchmarkScenario::RandomUncached => 0,
        BenchmarkScenario::SameOffset => 1,
        BenchmarkScenario::Sequential => 2,
        BenchmarkScenario::Reverse => 3,
    };
    let col: int = match op {
        Operation::Read => 0,
        Operation::Write => 1,
    };
    2 * row + col
}

/// Distinct keys have distinct slots, all of them in the table.
pub proof fn slot_of_is_injective(
    s: BenchmarkScenario,
    op: Operation,
    t: BenchmarkScenario,
    oq: Operation,
)
    ensures
        0 <= slot_of(s, op) < 8,
        slot_of(s, op) == slot_of(t, oq) ==> s == t && op == oq,
{
}

fn slot(s: BenchmarkScenario, op: Operation) -> (i: usize)
    ensures
        i == slot_of(s, op),
{
    let row: usize = match s {
        BenchmarkScenario::RandomUncached => 0,
        BenchmarkScenario::SameOffset => 1,
        BenchmarkScenario::Sequential => 2,
        BenchmarkScenario::Reverse => 3,
    };
    let col: usize = match op {
        Operation::Read => 0,
        Operation::Write => 1,
    };
    2 * row + col
}

/// The progress of all benchmarks of a run.
#[derive(Debug, Clone)]
pub struct BenchmarkProgressToml {
    meta: Meta,
    slots: [Option<BenchmarkStatus>; 8],
}

impl View for BenchmarkProgressToml {
    type V = Map<(BenchmarkScenario, Operation), (bool, Seq<u32>, Seq<u32>)>;

    closed spec fn view(&self) -> Self::V {
        Map::new(
            |k: (BenchmarkScenario, Operation)| self.slots@[slot_of(k.0, k.1)] is Some,
            |k: (BenchmarkScenario, Operation)| self.slots@[slot_of(k.0, k.1)]->0@,
        )
    }
}

impl BenchmarkProgressToml {
    /// The format information kept with the progress.
    pub closed spec fn meta_view(&self) -> Meta {
        self.meta
    }

    /// The format information kept with the progress.
    pub fn meta(&self) -> (m: Meta)
        ensures
            m == self.meta_view(),
    {
        self.meta
    }

    /// A progress that keeps no benchmark.
    pub fn new(meta: Meta) -> (p: Self)
        ensures
            p.meta_view() == meta,
            p@ == Map::<(BenchmarkScenario, Operation), (bool, Seq<u32>, Seq<u32>)>::empty(),
    {
        let slots: [Option<BenchmarkStatus>; 8] = [None, None, None, None, None, None, None, None];
        let p = BenchmarkProgressToml { meta, slots };
        assert(p@ =~= Map::empty());
        p
    }

    /// The status kept under a key, if any.
    pub fn status(&self, scenario: BenchmarkScenario, op: Operation) -> (r: Option<&BenchmarkStatus>)
        ensures
            match r {
                Some(st) => self@.contains_key((scenario, op)) && self@[(scenario, op)] == st@,
                None => !self@.contains_key((scenario, op)),
            },
    {
        let i = slot(scenario, op);
        match &self.slots[i] {
            Some(st) => Some(st),
            None => None,
        }
    }

    /// Keeps `status` under a key, replacing what was kept there.
    pub fn insert(&mut self, scenario: BenchmarkScenario, op: Operation, status: BenchmarkStatus)
        ensures
            final(self).meta_view() == old(self).meta_view(),
            final(self)@ == old(self)@.insert((scenario, op), status@),
    {
        let ghost before = self@;
        let i = slot(scenario, op);
        self.slots[i] = Some(status);
        proof {
            assert forall|k: (BenchmarkScenario, Operation)| true implies
                (slot_of(k.0, k.1) == i as int <==> k == (scenario, op)) by {
                slot_of_is_injective(k.0, k.1, scenario, op);
            }
            assert(self@ =~= before.insert((scenario, op), status@));
        }
    }

    /// The progress of `benchmarks` before any of them ran.
    pub fn new_from_benchmarks(benchmarks: &[Benchmark], access_sizes: &[u32]) -> (p: Self)
        ensures
            p.meta_view() == (Meta { version: VERSION_NUMBER }),
            p@ == fresh_progress(benchmarks@, access_sizes@),
    {
        let mut p = Self::new(Meta { version: VERSION_NUMBER });
        let mut i: usize = 0;
        while i < benchmarks.len()
            invariant
                i <= benchmarks.len(),
                p.meta_view() == (Meta { version: VERSION_NUMBER }),
                p@ == fresh_progress(benchmarks@.take(i as int), access_sizes@),
            decreases benchmarks.len() - i,
        {
            let benchmark = &benchmarks[i];
            let operation = Operation::from_is_read_op(benchmark.config.is_read_operation);
            let status = BenchmarkStatus {
                done: false,
                access_sizes_done: Vec::new(),
                access_sizes_missing: copy_sizes(access_sizes),
            };
            let ghost before = p@;
            p.insert(benchmark.scenario, operation, status);
            proof {
                let bs = benchmarks@.take(i + 1);
                let prev = benchmarks@.take(i as int);
                assert forall|k: (BenchmarkScenario, Operation)|
                    #[trigger] p@.contains_key(k) == fresh_progress(bs, access_sizes@).contains_key(k) by {
                    if before.contains_key(k) {
                        let j = choose|j: int| 0 <= j < prev.len() && key_of(#[trigger] prev[j]) == k;
                        assert(bs[j] == prev[j]);
                    }
                    if k == key_of(benchmarks@[i as int]) {
                        assert(bs[i as int] == benchmarks@[i as int]);
                    }
                    if fresh_progress(bs, access_sizes@).contains_key(k) {
                        let j = choose|j: int| 0 <= j < bs.len() && key_of(#[trigger] bs[j]) == k;
                        if j < i {
                            assert(prev[j] == bs[j]);
                        }
                    }
                }
                assert(p@ =~= fresh_progress(bs, access_sizes@));
            }
            i = i + 1;
        }
        assert(benchmarks@.take(benchmarks.len() as int) =~= benchmarks@);
        p
    }

    /// The access sizes still to measure, as kept under the read key of the
    /// scenario of `b`; `None` when that key is not kept.
    ///
    /// The operation of `b` is not consulted: a write benchmark is reported
    /// with the missing sizes of the read benchmark of its scenario. So once
    /// the read benchmark of a scenario has nothing missing, its write
    /// benchmark is reported as having nothing missing either, and is never
    /// measured. This is a known defect of the runner's bookkeeping, kept
    /// as it is.
    pub fn get_missing_access_sizes(&self, b: &Benchmark) -> (r: Option<&[u32]>)
        ensures
            match r {
                Some(sizes) => missing_reported(self@, *b) == Some(sizes@),
                None => missing_reported(self@, *b) is None,
            },
    {
        let operation = Operation::Read;
        match self.status(b.scenario, operation) {
            Some(status) => Some(status.access_sizes_missing.as_slice()),
            None => None,
        }
    }

    /// Records that `access_size` of benchmark `b` has been measured; a
    /// benchmark whose key is not kept is left alone.
    pub fn update_access_sizes_done(&mut self, b: &Benchmark, access_size: u32)
        ensures
            final(self).meta_view() == old(self).meta_view(),
            final(self)@ == progress_after(old(self)@, *b, access_size),
    {
        let operation = Operation::from_is_read_op(b.config.is_read_operation);
        let updated = match self.status(b.scenario, operation) {
            Some(status) => Some(mark_done(status, access_size)),
            None => None,
        };
        match updated {
            Some(status) => self.insert(b.scenario, operation, status),
            None => {},
        }
    }
}

fn copy_sizes(sizes: &[u32]) -> (v: Vec<u32>)
    ensures
        v@ == sizes@,
{
    let mut v: Vec<u32> = Vec::new();
    let mut i: usize = 0;
    while i < sizes.len()
        invariant
            i <= sizes.len(),
            v@ == sizes@.take(i as int),
        decreases sizes.len() - i,
    {
        v.push(sizes[i]);
        assert(sizes@.take(i + 1) =~= sizes@.take(i as int).push(sizes@[i as int]));
        i = i + 1;
    }
    assert(sizes@.take(sizes.len() as int) =~= sizes@);
    v
}

fn contains_size(sizes: &Vec<u32>, x: u32) -> (r: bool)
    ensures
        r == sizes@.contains(x),
{
    let mut i: usize = 0;
    while i < sizes.len()
        invariant
            i <= sizes.len(),
            forall|j: int| 0 <= j < i ==> sizes@[j] != x,
        decreases sizes.len() - i,
    {
        if sizes[i] == x {
            assert(sizes@[i as int] == x);
            return true;
        }
        i = i + 1;
    }
    false
}

fn mark_done(status: &BenchmarkStatus, access_size: u32) -> (r: BenchmarkStatus)
    ensures
        r@ == status_after(status@, access_size),
{
    let missing = &status.access_sizes_missing;
    let mut kept: Vec<u32> = Vec::new();
    let mut i: usize = 0;
    while i < missing.len()
        invariant
            i <= missing.len(),
            kept@ == without(missing@.take(i as int), access_size),
        decreases missing.len() - i,
    {
        assert(missing@.take(i + 1).drop_last() =~= missing@.take(i as int));
        if missing[i] != access_size {
            kept.push(missing[i]);
        }
        i = i + 1;
    }
    assert(missing@.take(missing.len() as int) =~= missing@);
    let mut done = copy_sizes(status.access_sizes_done.as_slice());
    if !contains_size(&status.access_sizes_done, access_size) {
        done.push(access_size);
    }
    let finished = kept.len() == 0;
    BenchmarkStatus { done: finished, access_sizes_done: done, access_sizes_missing: kept }
}

proof fn lemma_without_contains(s: Seq<u32>, x: u32, y: u32)
    ensures
        without(s, x).contains(y) <==> s.contains(y) && y != x,
    decreases s.len(),
{
    if s.len() > 0 {
        let init = s.drop_last();
        lemma_without_contains(init, x, y);
        assert(s =~= init.push(s.last()));
        if s.contains(y) && y != x && !init.contains(y) {
            let j = choose|j: int| 0 <= j < s.len() && s[j] == y;
            if j < init.len() {
                assert(init[j] == y);
            }
        }
        if init.contains(y) {
            let j = choose|j: int| 0 <= j < init.len() && init[j] == y;
            assert(s[j] == y);
        }
        let rest = without(init, x);
        if s.last() != x {
            assert(rest.push(s.last())[rest.len() as int] == s.last());
            if rest.contains(y) {
                let j = choose|j: int| 0 <= j < rest.len() && rest[j] == y;
                assert(rest.push(s.last())[j] == y);
            }
            if rest.push(s.last()).contains(y) {
                let j = choose|j: int| 0 <= j < rest.len() + 1 && rest.push(s.last())[j] == y;
                if j < rest.len() {
                    assert(rest[j] == y);
                }
            }
        }
    }
}

proof fn lemma_without_absent(s: Seq<u32>, x: u32)
    requires
        !s.contains(x),
    ensures
        without(s, x) == s,
    decreases s.len(),
{
    if s.len() > 0 {
        let init = s.drop_last();
        if init.contains(x) {
            let j = choose|j: int| 0 <= j < init.len() && init[j] == x;
            assert(s[j] == x);
        }
        lemma_without_absent(init, x);
        assert(s.last() != x) by {
            assert(s[s.len() - 1] == s.last());
        }
        assert(init.push(s.last()) =~= s);
    }
}

/// A benchmark starts with every access size missing: when the benchmarks
/// include a read benchmark of `b`'s scenario, the missing sizes reported
/// for `b` in a fresh progress are exactly the access sizes it was made with.
pub proof fn fresh_progress_reports_all_sizes(
    benchmarks: Seq<Benchmark>,
    access_sizes: Seq<u32>,
    b: Benchmark,
    reader: int,
)
    requires
        0 <= reader < benchmarks.len(),
        benchmarks[reader].scenario == b.scenario,
        benchmarks[reader].config.is_read_operation,
    ensures
        missing_reported(fresh_progress(benchmarks, access_sizes), b) == Some(access_sizes),
{
    assert(key_of(benchmarks[reader]) == (b.scenario, Operation::Read));
}

/// For the standard list of benchmarks, every one of them starts with all
/// access sizes missing.
pub proof fn standard_benchmarks_start_with_all_sizes(
    benchmarks: Seq<Benchmark>,
    access_sizes: Seq<u32>,
    file_path: Seq<char>,
    root: bool,
)
    requires
        benchmarks.len() == 8,
        forall|i: int|
            0 <= i < 8 ==> is_scenario_benchmark(
                #[trigger] benchmarks[i],
                standard_scenario(i),
                file_path,
                i % 2 == 0,
                root,
            ),
    ensures
        forall|j: int|
            0 <= j < 8 ==> missing_reported(fresh_progress(benchmarks, access_sizes), #[trigger] benchmarks[j])
                == Some(access_sizes),
{
    assert forall|j: int| 0 <= j < 8 implies missing_reported(
        fresh_progress(benchmarks, access_sizes),
        #[trigger] benchmarks[j],
    ) == Some(access_sizes) by {
        let reader = j - j % 2;
        assert(is_scenario_benchmark(benchmarks[reader], standard_scenario(reader), file_path, reader % 2 == 0, root));
        assert(is_scenario_benchmark(benchmarks[j], standard_scenario(j), file_path, j % 2 == 0, root));
        fresh_progress_reports_all_sizes(benchmarks, access_sizes, benchmarks[j], reader);
    }
}

/// Some benchmark of `benchmarks` has the key `k`.
pub open spec fn has_benchmark_with_key(benchmarks: Seq<Benchmark>, k: (BenchmarkScenario, Operation)) -> bool {
    exists|i: int| 0 <= i < benchmarks.len() && key_of(#[trigger] benchmarks[i]) == k
}

/// The standard list of benchmarks has every key exactly once: each
/// scenario once reading and once writing.
pub proof fn standard_benchmarks_have_each_key_once(
    benchmarks: Seq<Benchmark>,
    file_path: Seq<char>,
    root: bool,
)
    requires
        benchmarks.len() == 8,
        forall|i: int|
            0 <= i < 8 ==> is_scenario_benchmark(
                #[trigger] benchmarks[i],
                standard_scenario(i),
                file_path,
                i % 2 == 0,
                root,
            ),
    ensures
        forall|i: int, j: int|
            0 <= i < 8 && 0 <= j < 8 && i != j ==> key_of(#[trigger] benchmarks[i]) != key_of(
                #[trigger] benchmarks[j],
            ),
        forall|k: (BenchmarkScenario, Operation)| #[trigger] has_benchmark_with_key(benchmarks, k),
{
    assert forall|i: int, j: int|
        0 <= i < 8 && 0 <= j < 8 && i != j implies key_of(#[trigger] benchmarks[i]) != key_of(
            #[trigger] benchmarks[j],
        ) by {
        assert(is_scenario_benchmark(benchmarks[i], standard_scenario(i), file_path, i % 2 == 0, root));
        assert(is_scenario_benchmark(benchmarks[j], standard_scenario(j), file_path, j % 2 == 0, root));
    }
    assert forall|k: (BenchmarkScenario, Operation)| #[trigger] has_benchmark_with_key(benchmarks, k) by {
        let row: int = match k.0 {
            BenchmarkScenario::RandomUncached => 0,
            BenchmarkScenario::Reverse => 2,
            BenchmarkScenario::SameOffset => 4,
            BenchmarkScenario::Sequential => 6,
        };
        let i = if k.1 == Operation::Read { row } else { row + 1 };
        assert(is_scenario_benchmark(benchmarks[i], standard_scenario(i), file_path, i % 2 == 0, root));
        assert(key_of(benchmarks[i]) == k);
    }
}

/// Recording a measured access size removes it from the missing sizes,
/// records it as done, leaves every other size where it was, marks the
/// benchmark done exactly when nothing is missing, and leaves every other
/// benchmark alone.
pub proof fn progress_after_records_one_size(
    p: Map<(BenchmarkScenario, Operation), (bool, Seq<u32>, Seq<u32>)>,
    b: Benchmark,
    access_size: u32,
)
    ensures
        progress_after(p, b, access_size).dom() == p.dom(),
        forall|k: (BenchmarkScenario, Operation)|
            p.contains_key(k) && k != key_of(b) ==> #[trigger] progress_after(p, b, access_size)[k] == p[k],
        p.contains_key(key_of(b)) ==> {
            let before = p[key_of(b)];
            let after = progress_after(p, b, access_size)[key_of(b)];
            &&& !after.2.contains(access_size)
            &&& after.1.contains(access_size)
            &&& (after.0 <==> after.2.len() == 0)
            &&& forall|x: u32| x != access_size ==> (after.2.contains(x) <==> before.2.contains(x))
            &&& forall|x: u32| x != access_size ==> (after.1.contains(x) <==> before.1.contains(x))
        },
{
    if p.contains_key(key_of(b)) {
        let before = p[key_of(b)];
        let after = progress_after(p, b, access_size)[key_of(b)];
        lemma_without_contains(before.2, access_size, access_size);
        assert forall|x: u32| x != access_size implies (after.2.contains(x) <==> before.2.contains(x)) by {
            lemma_without_contains(before.2, access_size, x);
        }
        if !before.1.contains(access_size) {
            assert(before.1.push(access_size)[before.1.len() as int] == access_size);
            assert forall|x: u32| x != access_size implies (after.1.contains(x) <==> before.1.contains(x)) by {
                if before.1.contains(x) {
                    let j = choose|j: int| 0 <= j < before.1.len() && before.1[j] == x;
                    assert(after.1[j] == x);
                }
                if after.1.contains(x) {
                    let j = choose|j: int| 0 <= j < after.1.len() && after.1[j] == x;
                    assert(before.1[j] == x);
                }
            }
        }
        assert(progress_after(p, b, access_size).dom() =~= p.dom());
    }
}

/// Recording the same access size twice is the same as recording it once.
pub proof fn progress_after_is_idempotent(
    p: Map<(BenchmarkScenario, Operation), (bool, Seq<u32>, Seq<u32>)>,
    b: Benchmark,
    access_size: u32,
)
    ensures
        progress_after(progress_after(p, b, access_size), b, access_size)
            == progress_after(p, b, access_size),
{
    if p.contains_key(key_of(b)) {
        let once = progress_after(p, b, access_size);
        let st = once[key_of(b)];
        lemma_without_contains(p[key_of(b)].2, access_size, access_size);
        lemma_without_absent(st.2, access_size);
        if !p[key_of(b)].1.contains(access_size) {
            assert(st.1[st.1.len() - 1] == access_size);
        }
        assert(status_after(st, access_size) == st);
        assert(once.insert(key_of(b), st) =~= once);
    }
}

/// The progress after recording, in order, each of `recs`: an access size
/// measured for a benchmark.
pub open spec fn record_all(
    p: Map<(BenchmarkScenario, Operation), (bool, Seq<u32>, Seq<u32>)>,
    recs: Seq<(Benchmark, u32)>,
) -> Map<(BenchmarkScenario, Operation), (bool, Seq<u32>, Seq<u32>)>
    decreases recs.len(),
{
    if recs.len() == 0 {
        p
    } else {
        progress_after(record_all(p, recs.drop_last()), recs.last().0, recs.last().1)
    }
}

/// Some record of `recs` measured `x` for a benchmark kept under key `k`.
pub open spec fn recorded_under(recs: Seq<(Benchmark, u32)>, k: (BenchmarkScenario, Operation), x: u32) -> bool {
    exists|j: int| 0 <= j < recs.len() && key_of(#[trigger] recs[j].0) == k && recs[j].1 == x
}

proof fn lemma_record_all_status(
    benchmarks: Seq<Benchmark>,
    sizes: Seq<u32>,
    recs: Seq<(Benchmark, u32)>,
    k: (BenchmarkScenario, Operation),
)
    requires
        fresh_progress(benchmarks, sizes).contains_key(k),
    ensures
        record_all(fresh_progress(benchmarks, sizes), recs).contains_key(k),
        forall|x: u32|
            #[trigger] record_all(fresh_progress(benchmarks, sizes), recs)[k].2.contains(x)
                <==> sizes.contains(x) && !recorded_under(recs, k, x),
        forall|x: u32|
            #[trigger] record_all(fresh_progress(benchmarks, sizes), recs)[k].1.contains(x)
                <==> recorded_under(recs, k, x),
    decreases recs.len(),
{
    let fresh = fresh_progress(benchmarks, sizes);
    if recs.len() > 0 {
        let init = recs.drop_last();
        let (bb, a) = recs.last();
        lemma_record_all_status(benchmarks, sizes, init, k);
        let q = record_all(fresh, init);
        let r = record_all(fresh, recs);
        assert(r == progress_after(q, bb, a));
        assert forall|x: u32| recorded_under(recs, k, x) <==> recorded_under(init, k, x) || (key_of(bb) == k && a == x) by {
            if recorded_under(recs, k, x) {
                let j = choose|j: int| 0 <= j < recs.len() && key_of(#[trigger] recs[j].0) == k && recs[j].1 == x;
                if j < init.len() {
                    assert(init[j] == recs[j]);
                }
            }
            if recorded_under(init, k, x) {
                let j = choose|j: int| 0 <= j < init.len() && key_of(#[trigger] init[j].0) == k && init[j].1 == x;
                assert(recs[j] == init[j]);
            }
            if key_of(bb) == k && a == x {
                assert(recs[recs.len() - 1] == (bb, a));
            }
        }
        if key_of(bb) == k {
            let before = q[k];
            assert(r[k] == status_after(before, a));
            assert forall|x: u32| #[trigger] r[k].2.contains(x) <==> sizes.contains(x) && !recorded_under(recs, k, x) by {
                lemma_without_contains(before.2, a, x);
            }
            assert forall|x: u32| #[trigger] r[k].1.contains(x) <==> recorded_under(recs, k, x) by {
                if !before.1.contains(a) {
                    let pushed = before.1.push(a);
                    assert(pushed[before.1.len() as int] == a);
                    if before.1.contains(x) {
                        let j = choose|j: int| 0 <= j < before.1.len() && before.1[j] == x;
                        assert(pushed[j] == x);
                    }
                    if pushed.contains(x) && x != a {
                        let j = choose|j: int| 0 <= j < pushed.len() && pushed[j] == x;
                        assert(before.1[j] == x);
                    }
                }
            }
        } else {
            assert(r[k] == q[k]);
        }
    }
}

/// Resuming measures exactly what is left: for a benchmark whose scenario
/// has a read benchmark, the sizes reported missing after any records are
/// the access sizes the progress was made with that no record measured for
/// that read benchmark, none of them is among the sizes recorded as done,
/// and once every access size has been measured nothing is missing.
pub proof fn resume_reports_exactly_the_unmeasured_sizes(
    benchmarks: Seq<Benchmark>,
    sizes: Seq<u32>,
    recs: Seq<(Benchmark, u32)>,
    b: Benchmark,
    reader: int,
)
    requires
        0 <= reader < benchmarks.len(),
        benchmarks[reader].scenario == b.scenario,
        benchmarks[reader].config.is_read_operation,
    ensures
        ({
            let p = record_all(fresh_progress(benchmarks, sizes), recs);
            let k = (b.scenario, Operation::Read);
            &&& missing_reported(p, b) is Some
            &&& forall|x: u32|
                #[trigger] missing_reported(p, b)->0.contains(x) <==> sizes.contains(x) && !recorded_under(recs, k, x)
            &&& forall|x: u32|
                missing_reported(p, b)->0.contains(x) ==> !(#[trigger] p[k].1.contains(x))
            &&& (forall|x: u32| sizes.contains(x) ==> recorded_under(recs, k, x))
                ==> missing_reported(p, b)->0.len() == 0
        }),
{
    let k = (b.scenario, Operation::Read);
    assert(key_of(benchmarks[reader]) == k);
    assert(fresh_progress(benchmarks, sizes).contains_key(k));
    lemma_record_all_status(benchmarks, sizes, recs, k);
    let p = record_all(fresh_progress(benchmarks, sizes), recs);
    let m = missing_reported(p, b)->0;
    assert(m == p[k].2);
    if forall|x: u32| sizes.contains(x) ==> recorded_under(recs, k, x) {
        if m.len() > 0 {
            assert(m.contains(m[0]));
        }
    }
}

} // verus!
