//! Where the measurements of a run are kept, and the lines of the table
//! that collects all of them.

use vstd::prelude::*;

use crate::runner::benchmark::{scenario_name, Benchmark};
use crate::runner::progress::{operation_name, operation_of, Operation, FILE_NAME};
use crate::text::{chars_of, decimal, join3, u64_to_string};

verus! {

/// Header of the table of all measurements.
pub const CSV_HEADER: &'static str = "classification,io_type,bytes,sec";

/// The directory of a benchmark's measurements:
/// `<to>/<scenario>/<read or write>`.
pub open spec fn measurement_directory_of(to: Seq<char>, b: Benchmark) -> Seq<char> {
    to + "/"@ + scenario_name(b.scenario) + "/"@ + operation_name(operation_of(b.config.is_read_operation))
}

/// The directory of a benchmark's measurements.
pub fn measurement_directory(to: &str, b: &Benchmark) -> (dir: String)
    ensures
        dir@ == measurement_directory_of(to@, *b),
{
    let mut dir = join3(to, "/", b.scenario.to_string().as_str());
    dir.append("/");
    dir.append(Operation::from_is_read_op(b.config.is_read_operation).to_string().as_str());
    dir
}

/// The file, in a benchmark's directory, holding the durations measured
/// with one access size, one per line: `<dir>/<access size>.txt`.
pub fn measurement_file(dir: &str, access_size: u32) -> (path: String)
    ensures
        path@ == dir@ + "/"@ + decimal(access_size as nat) + ".txt"@,
{
    let mut path = join3(dir, "/", u64_to_string(access_size as u64).as_str());
    path.append(".txt");
    path
}

/// The file the progress of a run is kept in.
pub fn progress_file(to: &str) -> (path: String)
    ensures
        path@ == to@ + "/"@ + FILE_NAME@,
{
    join3(to, "/", FILE_NAME)
}

/// The part of `s` before its first `.`, or all of `s` when it has none.
pub open spec fn before_first_dot(s: Seq<char>) -> Seq<char>
    decreases s.len(),
{
    if s.len() == 0 {
        s
    } else if s[0] == '.' {
        Seq::empty()
    } else {
        seq![s[0]] + before_first_dot(s.skip(1))
    }
}

/// The letter of an operation in the table: `r` or `w`.
pub open spec fn operation_letter(op: Operation) -> Seq<char> {
    match op {
        Operation::Read => "r"@,
        Operation::Write => "w"@,
    }
}

/// The start of every line of the table for one measurement file: the
/// scenario, the operation's letter and the access size, which is the file
/// name up to its first `.`, separated by commas.
pub fn csv_line_prefix(scenario: &str, operation: Operation, file_name: &str) -> (prefix: String)
    ensures
        prefix@ == scenario@ + ","@ + operation_letter(operation) + ","@ + before_first_dot(file_name@),
{
    let mut prefix = join3(scenario, ",", match operation {
        Operation::Read => "r",
        Operation::Write => "w",
    });
    prefix.append(",");
    let name = chars_of(file_name);
    let ghost start = prefix@;
    let mut i: usize = 0;
    assert(name@.skip(0) =~= name@);
    while i < name.len() && name[i] != '.'
        invariant
            i <= name.len(),
            prefix@ + before_first_dot(name@.skip(i as int)) == start + before_first_dot(name@),
        decreases name.len() - i,
    {
        let ghost rest = name@.skip(i as int);
        assert(rest.skip(1) =~= name@.skip(i + 1));
        assert(prefix@ + (seq![rest[0]] + before_first_dot(rest.skip(1)))
            =~= prefix@.push(rest[0]) + before_first_dot(rest.skip(1)));
        prefix.push(name[i]);
        i = i + 1;
    }
    assert(before_first_dot(name@.skip(i as int)) =~= Seq::<char>::empty());
    assert(prefix@ + Seq::<char>::empty() =~= prefix@);
    prefix
}

} // verus!
