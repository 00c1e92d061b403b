//! The runner's command line and its validation.
//!
//! Validation asks questions of the machine (are we root, does a path exist,
//! can a file be created there) and decides from the answers. The decisions
//! are made here, one step at a time: each step names the question to ask,
//! and the answer to it gives the next step, until a step carries the
//! outcome.

use vstd::prelude::*;

use crate::text::{chars_of, join2};

verus! {

/// Default path of the file the benchmarks run on.
pub const DEFAULT_BENCHMARK_FILE: &'static str = "/tmp/blackheap_benchmark_test_file.dat";

/// The prediction model to build from the measurements.
#[derive(Copy, Clone, Debug, PartialEq, Eq, PartialOrd, Ord, Structural)]
pub enum Model {
    Linear,
    ConstantLinear,
}

/// What the runner was asked to do.
#[derive(Debug, Clone)]
pub struct Cli {
    /// Output directory for all the benchmarks and results; also holds the
    /// progress.
    pub to: String,
    /// Path of the file the benchmarks run on.
    pub file: String,
    /// Which prediction model to use.
    pub model: Model,
    /// Whether to drop the page cache before uncached benchmarks (needs root).
    pub drop_caches: bool,
}

/// Why the command line cannot be acted on.
#[derive(Debug, Clone, PartialEq, Eq)]
pub enum CliError {
    /// Dropping caches was asked for without root privileges.
    RootRequired,
    /// The output directory does not exist and could not be created.
    CannotCreateDirectory(String),
    /// The output path exists but is not a directory.
    NotADirectory(String),
    /// The output directory is not writable.
    DirectoryNotWritable(String),
    /// The benchmark file exists and cannot be deleted.
    CannotDeleteFile(String),
    /// The benchmark file could not be created.
    CannotCreateFile(String),
    /// Some other I/O failure, with its message.
    IoError(String),
}

/// The question validation asks next, or its outcome.
#[derive(Debug)]
pub enum ValidationStep {
    /// Does the process run as root?
    CheckRoot,
    /// Does the output directory exist?
    CheckOutputExists,
    /// Create the output directory and its parents: did it work?
    CreateOutputDirectory,
    /// Is the output path a directory?
    CheckOutputIsDirectory,
    /// Draw a fresh probe path inside the output directory (`draw_probe`):
    /// does it exist?
    PickProbe,
    /// Create and remove the probe file at this path: did both work?
    WriteProbe(String),
    /// Does the benchmark file exist?
    CheckBenchmarkFileExists,
    /// Create the benchmark file: did it work?
    CreateBenchmarkFile,
    /// Remove the benchmark file: did it work?
    RemoveBenchmarkFile,
    /// Validation is over, with this outcome.
    Finished(Result<(), CliError>),
}

/// The answer to the question of a step.
#[derive(Debug, Clone)]
pub enum ValidationEvent {
    /// Yes or no, to every question but `PickProbe`.
    Answer(bool),
    /// The probe path drawn for `PickProbe`, and whether it already exists.
    Probe(String, bool),
}

/// The first step of validating `cli`: the root check when caches are to
/// be dropped, the output directory otherwise.
pub open spec fn first_step(cli: Cli) -> ValidationStep {
    if cli.drop_caches {
        ValidationStep::CheckRoot
    } else {
        ValidationStep::CheckOutputExists
    }
}

/// The answer `e` answers the question of `step`.
pub open spec fn answers(step: ValidationStep, e: ValidationEvent) -> bool {
    match step {
        ValidationStep::Finished(_) => false,
        ValidationStep::PickProbe => e is Probe,
        _ => e is Answer,
    }
}

/// The step that follows `step` when its question is answered by `e`.
pub open spec fn next_step(cli: Cli, step: ValidationStep, e: ValidationEvent) -> ValidationStep {
    match (step, e) {
        (ValidationStep::CheckRoot, ValidationEvent::Answer(root)) => if root {
            ValidationStep::CheckOutputExists
        } else {
            ValidationStep::Finished(Err(CliError::RootRequired))
        },
        (ValidationStep::CheckOutputExists, ValidationEvent::Answer(exists)) => if exists {
            ValidationStep::CheckOutputIsDirectory
        } else {
            ValidationStep::CreateOutputDirectory
        },
        (ValidationStep::CreateOutputDirectory, ValidationEvent::Answer(ok)) => if ok {
            ValidationStep::CheckOutputIsDirectory
        } else {
            ValidationStep::Finished(Err(CliError::CannotCreateDirectory(cli.to)))
        },
        (ValidationStep::CheckOutputIsDirectory, ValidationEvent::Answer(is_dir)) => if is_dir {
            ValidationStep::PickProbe
        } else {
            ValidationStep::Finished(Err(CliError::NotADirectory(cli.to)))
        },
        (ValidationStep::PickProbe, ValidationEvent::Probe(path, taken)) => if taken {
            ValidationStep::PickProbe
        } else {
            ValidationStep::WriteProbe(path)
        },
        (ValidationStep::WriteProbe(_), ValidationEvent::Answer(ok)) => if ok {
            ValidationStep::CheckBenchmarkFileExists
        } else {
            ValidationStep::Finished(Err(CliError::DirectoryNotWritable(cli.to)))
        },
        (ValidationStep::CheckBenchmarkFileExists, ValidationEvent::Answer(exists)) => if exists {
            ValidationStep::RemoveBenchmarkFile
        } else {
            ValidationStep::CreateBenchmarkFile
        },
        (ValidationStep::CreateBenchmarkFile, ValidationEvent::Answer(ok)) => if ok {
            ValidationStep::RemoveBenchmarkFile
        } else {
            ValidationStep::Finished(Err(CliError::CannotCreateFile(cli.file)))
        },
        (ValidationStep::RemoveBenchmarkFile, ValidationEvent::Answer(ok)) => if ok {
            ValidationStep::Finished(Ok(()))
        } else {
            ValidationStep::Finished(Err(CliError::CannotDeleteFile(cli.file)))
        },
        (s, _) => s,
    }
}

/// Where validation stands after the answers `events`, starting at `step`.
pub open spec fn run_validation(cli: Cli, step: ValidationStep, events: Seq<ValidationEvent>) -> ValidationStep
    decreases events.len(),
{
    if events.len() == 0 {
        step
    } else {
        run_validation(cli, next_step(cli, step, events[0]), events.drop_first())
    }
}

/// Starts validating `cli`: the first question to ask.
pub fn validate_cli(cli: &Cli) -> (step: ValidationStep)
    ensures
        step == first_step(*cli),
{
    if cli.drop_caches {
        ValidationStep::CheckRoot
    } else {
        ValidationStep::CheckOutputExists
    }
}

/// The step that follows `step` once its question is answered by `event`.
pub fn validate_cli_next(cli: &Cli, step: &ValidationStep, event: ValidationEvent) -> (next: ValidationStep)
    requires
        answers(*step, event),
    ensures
        next == next_step(*cli, *step, event),
{
    let answer = match event {
        ValidationEvent::Answer(yes) => yes,
        ValidationEvent::Probe(path, taken) => {
            // Only `PickProbe` is answered with a probe.
            return if taken {
                ValidationStep::PickProbe
            } else {
                ValidationStep::WriteProbe(path)
            };
        },
    };
    match step {
        ValidationStep::CheckRoot => if answer {
            ValidationStep::CheckOutputExists
        } else {
            ValidationStep::Finished(Err(CliError::RootRequired))
        },
        ValidationStep::CheckOutputExists => if answer {
            ValidationStep::CheckOutputIsDirectory
        } else {
            ValidationStep::CreateOutputDirectory
        },
        ValidationStep::CreateOutputDirectory => if answer {
            ValidationStep::CheckOutputIsDirectory
        } else {
            ValidationStep::Finished(Err(CliError::CannotCreateDirectory(cli.to.clone())))
        },
        ValidationStep::CheckOutputIsDirectory => if answer {
            ValidationStep::PickProbe
        } else {
            ValidationStep::Finished(Err(CliError::NotADirectory(cli.to.clone())))
        },
        ValidationStep::WriteProbe(_) => if answer {
            ValidationStep::CheckBenchmarkFileExists
        } else {
            ValidationStep::Finished(Err(CliError::DirectoryNotWritable(cli.to.clone())))
        },
        ValidationStep::CheckBenchmarkFileExists => if answer {
            ValidationStep::RemoveBenchmarkFile
        } else {
            ValidationStep::CreateBenchmarkFile
        },
        ValidationStep::CreateBenchmarkFile => if answer {
            ValidationStep::RemoveBenchmarkFile
        } else {
            ValidationStep::Finished(Err(CliError::CannotCreateFile(cli.file.clone())))
        },
        ValidationStep::RemoveBenchmarkFile => if answer {
            ValidationStep::Finished(Ok(()))
        } else {
            ValidationStep::Finished(Err(CliError::CannotDeleteFile(cli.file.clone())))
        },
        // `PickProbe` is answered with a probe and `Finished` is not answered.
        ValidationStep::PickProbe | ValidationStep::Finished(_) => ValidationStep::PickProbe,
    }
}

/// The text of a UUID in its hyphenated form: 36 characters, hyphens at
/// positions 8, 13, 18 and 23, lowercase hexadecimal digits elsewhere.
pub open spec fn is_hyphenated_uuid(s: Seq<char>) -> bool {
    &&& s.len() == 36
    &&& forall|i: int|
        0 <= i < 36 ==> if i == 8 || i == 13 || i == 18 || i == 23 {
            #[trigger] s[i] == '-'
        } else {
            ('0' <= s[i] <= '9') || ('a' <= s[i] <= 'f')
        }
}

/// Draws a random (version 4) UUID with `uuid::Uuid::new_v4` and renders it
/// with its `Display`, the hyphenated lowercase form. Which UUID comes out is
/// left open; only its form is stated.
#[verifier::external_body]
fn random_uuid_text() -> (text: String)
    ensures
        is_hyphenated_uuid(text@),
{
    uuid::Uuid::new_v4().to_string()
}

/// `name` inside the directory `dir`, with a `/` between them unless `dir`
/// is empty or already ends in one.
pub open spec fn path_in(dir: Seq<char>, name: Seq<char>) -> Seq<char> {
    if dir.len() == 0 || dir.last() == '/' {
        dir + name
    } else {
        dir + "/"@ + name
    }
}

/// A fresh path for the writability probe: a random UUID inside the output
/// directory. Whether it is free is asked of the machine (`PickProbe`).
pub fn draw_probe(cli: &Cli) -> (path: String)
    ensures
        exists|name: Seq<char>| is_hyphenated_uuid(name) && path@ == path_in(cli.to@, name),
{
    let name = random_uuid_text();
    let dir = chars_of(cli.to.as_str());
    let path = if dir.len() == 0 || dir[dir.len() - 1] == '/' {
        join2(cli.to.as_str(), name.as_str())
    } else {
        let mut p = join2(cli.to.as_str(), "/");
        p.append(name.as_str());
        p
    };
    assert(is_hyphenated_uuid(name@) && path@ == path_in(cli.to@, name@));
    path
}

/// Dropping caches without root is refused before anything on disk is
/// looked at, and root alone is never the reason for refusing otherwise.
pub proof fn root_is_required_only_to_drop_caches(cli: Cli, events: Seq<ValidationEvent>)
    ensures
        cli.drop_caches && events.len() > 0 && events[0] == ValidationEvent::Answer(false)
            ==> run_validation(cli, first_step(cli), events)
                == ValidationStep::Finished(Err(CliError::RootRequired)),
        !cli.drop_caches ==> forall|s: ValidationStep|
            #![trigger next_step(cli, s, events[0])]
            !(s is CheckRoot) && !(s is Finished) && events.len() > 0
                ==> next_step(cli, s, events[0]) != ValidationStep::Finished(Err(CliError::RootRequired)),
{
    if cli.drop_caches && events.len() > 0 && events[0] == ValidationEvent::Answer(false) {
        lemma_finished_stays(cli, Err(CliError::RootRequired), events.drop_first());
    }
}

/// Once validation is finished, further answers change nothing.
pub proof fn lemma_finished_stays(cli: Cli, outcome: Result<(), CliError>, events: Seq<ValidationEvent>)
    ensures
        run_validation(cli, ValidationStep::Finished(outcome), events) == ValidationStep::Finished(outcome),
    decreases events.len(),
{
    if events.len() > 0 {
        lemma_finished_stays(cli, outcome, events.drop_first());
    }
}

/// When every check succeeds (root if asked, output directory present and a
/// directory, a free probe path that can be written, benchmark file present
/// and removable), validation succeeds.
pub proof fn all_checks_passing_validates(cli: Cli, probe: String)
    ensures
        ({
            let output_checks = seq![
                ValidationEvent::Answer(true),
                ValidationEvent::Answer(true),
                ValidationEvent::Probe(probe, false),
                ValidationEvent::Answer(true),
                ValidationEvent::Answer(true),
                ValidationEvent::Answer(true),
            ];
            let events = if cli.drop_caches {
                seq![ValidationEvent::Answer(true)] + output_checks
            } else {
                output_checks
            };
            run_validation(cli, first_step(cli), events) == ValidationStep::Finished(Ok::<(), CliError>(()))
        }),
{
    let output_checks = seq![
        ValidationEvent::Answer(true),
        ValidationEvent::Answer(true),
        ValidationEvent::Probe(probe, false),
        ValidationEvent::Answer(true),
        ValidationEvent::Answer(true),
        ValidationEvent::Answer(true),
    ];
    reveal_with_fuel(run_validation, 8);
    if cli.drop_caches {
        let events = seq![ValidationEvent::Answer(true)] + output_checks;
        assert(events.drop_first() =~= output_checks);
    }
    assert(output_checks.drop_first().drop_first().drop_first().drop_first().drop_first().drop_first()
        =~= Seq::<ValidationEvent>::empty());
}

proof fn lemma_runs_ignore_drop_caches(c1: Cli, c2: Cli, step: ValidationStep, events: Seq<ValidationEvent>)
    requires
        c1.to == c2.to,
        c1.file == c2.file,
    ensures
        run_validation(c1, step, events) == run_validation(c2, step, events),
    decreases events.len(),
{
    if events.len() > 0 {
        assert(next_step(c1, step, events[0]) == next_step(c2, step, events[0]));
        lemma_runs_ignore_drop_caches(c1, c2, next_step(c1, step, events[0]), events.drop_first());
    }
}

/// Asking to drop caches only adds the root check in front: once root is
/// granted, validation goes on exactly as for the same output directory
/// and benchmark file without dropping caches, whatever the later answers.
pub proof fn root_granted_validates_as_without_dropping_caches(
    with_drop: Cli,
    without: Cli,
    events: Seq<ValidationEvent>,
)
    requires
        with_drop.drop_caches,
        !without.drop_caches,
        with_drop.to == without.to,
        with_drop.file == without.file,
    ensures
        run_validation(with_drop, first_step(with_drop), seq![ValidationEvent::Answer(true)] + events)
            == run_validation(without, first_step(without), events),
{
    let all = seq![ValidationEvent::Answer(true)] + events;
    assert(all[0] == ValidationEvent::Answer(true));
    assert(all.drop_first() =~= events);
    assert(next_step(with_drop, ValidationStep::CheckRoot, all[0]) == ValidationStep::CheckOutputExists);
    lemma_runs_ignore_drop_caches(with_drop, without, ValidationStep::CheckOutputExists, events);
}

/// Whatever the command line, an output directory that does not exist is
/// created, and a created one is then checked to be a directory; only when
/// creating it fails is validation refused, naming the directory.
pub proof fn missing_output_directory_is_created(cli: Cli)
    ensures
        next_step(cli, ValidationStep::CheckOutputExists, ValidationEvent::Answer(false))
            == ValidationStep::CreateOutputDirectory,
        next_step(cli, ValidationStep::CheckOutputExists, ValidationEvent::Answer(true))
            == ValidationStep::CheckOutputIsDirectory,
        next_step(cli, ValidationStep::CreateOutputDirectory, ValidationEvent::Answer(true))
            == ValidationStep::CheckOutputIsDirectory,
        next_step(cli, ValidationStep::CreateOutputDirectory, ValidationEvent::Answer(false))
            == ValidationStep::Finished(Err(CliError::CannotCreateDirectory(cli.to))),
{
}

} // verus!
