//! The argument builder: from a job request to the worker's executable and
//! its command line.
//!
//! Every worker reads six positional arguments. A worker that has no use for
//! the last two still receives them, as zeros, so that the positions of the
//! others never shift.

use crate::decimal::{decimal_text, to_decimal};
use crate::error::JobError;
use vstd::prelude::*;
use vstd::string::*;

verus! {

/// The workers that can be selected.
#[derive(Debug, Clone, Copy, PartialEq, Eq, Structural)]
pub enum Algorithm {
    Genetic,
    Linear,
}

/// The platforms for which worker binaries are shipped.
#[derive(Debug, Clone, Copy, PartialEq, Eq, Structural)]
pub enum Platform {
    Windows,
    Linux,
}

/// What a caller asks for: a worker, its two input files and its parameters.
#[derive(Debug, PartialEq, Eq)]
pub struct JobRequest {
    /// The selector of the worker: `genetic` or `linear`.
    pub algorithm: String,
    pub tutors_data_file_path: String,
    pub courses_data_file_path: String,
    /// The least grade accepted, in the decimal text that the worker reads.
    pub min_grade: String,
    pub preference_flag: i32,
    /// Read by the genetic worker only, which requires it.
    pub generation_number: Option<i32>,
    /// Read by the genetic worker only, which requires it.
    pub population_size: Option<i32>,
}

/// A resolved invocation: the worker's binary, relative to the directory the
/// binaries are installed under, and its arguments in order.
#[derive(Debug, PartialEq, Eq)]
pub struct WorkerCommand {
    pub executable: String,
    pub args: Vec<String>,
}

/// The number of positional arguments every worker is given.
pub const ARGUMENT_COUNT: usize = 6;

/// The texts of a list of strings, in order.
pub open spec fn texts(strings: Seq<String>) -> Seq<Seq<char>> {
    strings.map_values(|s: String| s@)
}

/// The worker that a selector names, if it names one.
pub open spec fn selected_algorithm(selector: Seq<char>) -> Option<Algorithm> {
    if selector == "genetic"@ {
        Some(Algorithm::Genetic)
    } else if selector == "linear"@ {
        Some(Algorithm::Linear)
    } else {
        None
    }
}

/// Where the binary of a worker lies on a platform.
pub open spec fn binary_path(platform: Platform, algorithm: Algorithm) -> Seq<char> {
    match (platform, algorithm) {
        (Platform::Windows, Algorithm::Genetic) => "binaries/x86_64-pc-windows-msvc/genetic.exe"@,
        (Platform::Windows, Algorithm::Linear) => "binaries/x86_64-pc-windows-msvc/linear.exe"@,
        (Platform::Linux, Algorithm::Genetic) => "binaries/x86_64-unknown-linux-gnu/genetic"@,
        (Platform::Linux, Algorithm::Linear) => "binaries/x86_64-unknown-linux-gnu/linear"@,
    }
}

/// Why no command can be built for a request, if there is a reason. An
/// unknown selector is reported before a missing parameter.
pub open spec fn request_fault(request: JobRequest) -> Option<JobError> {
    match selected_algorithm(request.algorithm@) {
        None => Some(JobError::InvalidAlgorithm),
        Some(Algorithm::Genetic) => if request.generation_number is Some
            && request.population_size is Some {
            None
        } else {
            Some(JobError::MissingParameters)
        },
        Some(Algorithm::Linear) => None,
    }
}

/// The six arguments of a request without fault: both paths, the grade
/// threshold, the preference flag, and then either the two parameters of the
/// genetic worker or two zeros.
pub open spec fn worker_arguments(request: JobRequest) -> Seq<Seq<char>> {
    let genetic = selected_algorithm(request.algorithm@) == Some(Algorithm::Genetic);
    seq![
        request.tutors_data_file_path@,
        request.courses_data_file_path@,
        request.min_grade@,
        decimal_text(request.preference_flag as int),
        if genetic {
            decimal_text(request.generation_number->0 as int)
        } else {
            "0"@
        },
        if genetic {
            decimal_text(request.population_size->0 as int)
        } else {
            "0"@
        },
    ]
}

/// Whether two strings hold the same text.
fn same_text(left: &str, right: &str) -> (same: bool)
    ensures
        same == (left@ == right@),
{
    let left_owned = left.to_owned();
    let right_owned = right.to_owned();
    left_owned == right_owned
}

/// Reads an algorithm selector. The match is exact: no other spelling or
/// case selects a worker.
pub fn select_algorithm(selector: &str) -> (algorithm: Option<Algorithm>)
    ensures
        algorithm == selected_algorithm(selector@),
{
    if same_text(selector, "genetic") {
        Some(Algorithm::Genetic)
    } else if same_text(selector, "linear") {
        Some(Algorithm::Linear)
    } else {
        None
    }
}

/// The path of a worker's binary on a platform.
pub fn algorithm_binary(platform: Platform, algorithm: Algorithm) -> (path: &'static str)
    ensures
        path@ == binary_path(platform, algorithm),
{
    match (platform, algorithm) {
        (Platform::Windows, Algorithm::Genetic) => "binaries/x86_64-pc-windows-msvc/genetic.exe",
        (Platform::Windows, Algorithm::Linear) => "binaries/x86_64-pc-windows-msvc/linear.exe",
        (Platform::Linux, Algorithm::Genetic) => "binaries/x86_64-unknown-linux-gnu/genetic",
        (Platform::Linux, Algorithm::Linear) => "binaries/x86_64-unknown-linux-gnu/linear",
    }
}

/// Resolves a selector to the path of its worker's binary, relative to the
/// directory the binaries are installed under. Fails with
/// `InvalidAlgorithm` exactly when the selector names no worker.
pub fn get_algorithm_path(algorithm: &str, platform: Platform) -> (path: Result<
    &'static str,
    JobError,
>)
    ensures
        match path {
            Ok(binary) => selected_algorithm(algorithm@) matches Some(worker) && binary@
                == binary_path(platform, worker),
            Err(error) => selected_algorithm(algorithm@) is None && error
                == JobError::InvalidAlgorithm,
        },
{
    match select_algorithm(algorithm) {
        Some(worker) => Ok(algorithm_binary(platform, worker)),
        None => Err(JobError::InvalidAlgorithm),
    }
}

/// Builds the invocation of the worker that a request selects.
///
/// Fails, before anything is spawned, with `InvalidAlgorithm` when the
/// selector is unknown and with `MissingParameters` when the genetic worker
/// is selected without both its generation count and its population size.
/// Otherwise the command names the worker's binary and carries exactly six
/// arguments.
pub fn build_command(request: &JobRequest, platform: Platform) -> (command: Result<
    WorkerCommand,
    JobError,
>)
    ensures
        match command {
            Ok(built) => {
                &&& request_fault(*request) is None
                &&& selected_algorithm(request.algorithm@) matches Some(worker)
                &&& built.executable@ == binary_path(platform, worker)
                &&& texts(built.args@) == worker_arguments(*request)
                &&& built.args@.len() == ARGUMENT_COUNT
            },
            Err(error) => request_fault(*request) == Some(error),
        },
        selected_algorithm(request.algorithm@) == Some(Algorithm::Genetic) && (
        request.generation_number is None || request.population_size is None) ==> command == Err::<
            WorkerCommand,
            JobError,
        >(JobError::MissingParameters),
{
    let executable = match get_algorithm_path(request.algorithm.as_str(), platform) {
        Ok(binary) => binary,
        Err(error) => {
            return Err(error);
        },
    };
    let mut args: Vec<String> = Vec::new();
    args.push(request.tutors_data_file_path.clone());
    args.push(request.courses_data_file_path.clone());
    args.push(request.min_grade.clone());
    args.push(to_decimal(request.preference_flag));
    if same_text(request.algorithm.as_str(), "genetic") {
        match (request.generation_number, request.population_size) {
            (Some(generations), Some(population)) => {
                args.push(to_decimal(generations));
                args.push(to_decimal(population));
            },
            _ => {
                return Err(JobError::MissingParameters);
            },
        }
    } else {
        args.push(String::from_str("0"));
        args.push(String::from_str("0"));
    }
    assert(texts(args@) =~= worker_arguments(*request));
    Ok(WorkerCommand { executable: String::from_str(executable), args })
}

} // verus!
