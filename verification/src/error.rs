//! The failures a job can meet before or around the worker's run, and the
//! message each one carries to the caller.

use vstd::prelude::*;
use vstd::string::*;

verus! {

/// What the pre-flight check found wrong with the two input files.
#[derive(Debug, Clone, Copy, PartialEq, Eq, Structural)]
pub enum InputFault {
    /// The tutors file is not on disk.
    TutorsMissing,
    /// The courses file is not on disk.
    CoursesMissing,
    /// One of the paths has no extension.
    NoExtension,
    /// One of the paths has an extension other than `xlsx`.
    NotSpreadsheet,
}

/// Why a job failed without a verdict from the worker itself.
#[derive(Debug, PartialEq, Eq)]
pub enum JobError {
    /// The input files were rejected before anything was spawned.
    InvalidInput(InputFault),
    /// The algorithm selector names no known worker.
    InvalidAlgorithm,
    /// The genetic worker was selected without both of its parameters.
    MissingParameters,
    /// The operating system refused to create the process; holds its reason.
    Spawn(String),
    /// Polling, killing or reading the process failed; holds the reason.
    Process(String),
    /// The lock that guards the registry was poisoned.
    Lock,
    /// The unit of execution that ran the job panicked.
    Panicked,
}

impl InputFault {
    /// The text shown to the caller for this fault.
    pub open spec fn message_text(self) -> Seq<char> {
        match self {
            InputFault::TutorsMissing => "Tutors file does not exist"@,
            InputFault::CoursesMissing => "Courses file does not exist"@,
            InputFault::NoExtension => "File has no extension"@,
            InputFault::NotSpreadsheet => "Files must be XLSX files"@,
        }
    }

    pub fn message(&self) -> (text: &'static str)
        ensures
            text@ == self.message_text(),
    {
        match self {
            InputFault::TutorsMissing => "Tutors file does not exist",
            InputFault::CoursesMissing => "Courses file does not exist",
            InputFault::NoExtension => "File has no extension",
            InputFault::NotSpreadsheet => "Files must be XLSX files",
        }
    }
}

impl JobError {
    /// The text shown to the caller for this error. A spawn failure is
    /// prefixed; a process failure is passed on verbatim.
    pub open spec fn message_text(self) -> Seq<char> {
        match self {
            JobError::InvalidInput(fault) => fault.message_text(),
            JobError::InvalidAlgorithm => "Invalid algorithm specified"@,
            JobError::MissingParameters => "Missing required parameters for genetic algorithm"@,
            JobError::Spawn(reason) => "Failed to execute program: "@ + reason@,
            JobError::Process(reason) => reason@,
            JobError::Lock => "Lock error"@,
            JobError::Panicked => "Thread panic occurred"@,
        }
    }

    pub fn message(&self) -> (text: String)
        ensures
            text@ == self.message_text(),
    {
        match self {
            JobError::InvalidInput(fault) => String::from_str(fault.message()),
            JobError::InvalidAlgorithm => String::from_str("Invalid algorithm specified"),
            JobError::MissingParameters => String::from_str(
                "Missing required parameters for genetic algorithm",
            ),
            JobError::Spawn(reason) => String::from_str("Failed to execute program: ").concat(
                reason.as_str(),
            ),
            JobError::Process(reason) => reason.clone(),
            JobError::Lock => String::from_str("Lock error"),
            JobError::Panicked => String::from_str("Thread panic occurred"),
        }
    }
}

} // verus!
