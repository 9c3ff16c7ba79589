//! The check of the two input files that precedes every job.
//!
//! Looking at the disk is the caller's part. This module decides, from what
//! the caller saw, whether the job may start, and if not, which fault is
//! reported: the first in a fixed order.

use crate::error::{InputFault, JobError};
use vstd::prelude::*;
use vstd::string::*;

verus! {

/// What the caller saw of one input path.
#[derive(Debug, PartialEq, Eq)]
pub struct FileFacts {
    /// Whether something exists at the path.
    pub exists: bool,
    /// The extension of the path, without its dot, if the path has one that
    /// is valid text.
    pub extension: Option<String>,
}

/// The only extension that input files may carry. It is compared exactly.
pub open spec fn spreadsheet_extension() -> Seq<char> {
    "xlsx"@
}

/// Whether a file carries the extension of a spreadsheet.
pub open spec fn is_spreadsheet(file: FileFacts) -> bool {
    file.extension matches Some(extension) && extension@ == spreadsheet_extension()
}

/// What is wrong with the extension of one file, if anything.
pub open spec fn extension_fault(file: FileFacts) -> Option<InputFault> {
    match file.extension {
        None => Some(InputFault::NoExtension),
        Some(extension) => if extension@ == spreadsheet_extension() {
            None
        } else {
            Some(InputFault::NotSpreadsheet)
        },
    }
}

/// The fault that is reported for a pair of input files, if there is one.
/// Both files must exist before either extension is looked at, and the
/// tutors file is looked at before the courses file.
pub open spec fn input_fault(tutors: FileFacts, courses: FileFacts) -> Option<InputFault> {
    if !tutors.exists {
        Some(InputFault::TutorsMissing)
    } else if !courses.exists {
        Some(InputFault::CoursesMissing)
    } else if extension_fault(tutors) is Some {
        extension_fault(tutors)
    } else {
        extension_fault(courses)
    }
}

fn check_extension(file: &FileFacts) -> (fault: Option<InputFault>)
    ensures
        fault == extension_fault(*file),
{
    match &file.extension {
        None => Some(InputFault::NoExtension),
        Some(extension) => {
            let expected = String::from_str("xlsx");
            if *extension == expected {
                None
            } else {
                Some(InputFault::NotSpreadsheet)
            }
        },
    }
}

fn find_input_fault(tutors: &FileFacts, courses: &FileFacts) -> (fault: Option<InputFault>)
    ensures
        fault == input_fault(*tutors, *courses),
{
    if !tutors.exists {
        return Some(InputFault::TutorsMissing);
    }
    if !courses.exists {
        return Some(InputFault::CoursesMissing);
    }
    match check_extension(tutors) {
        Some(fault) => Some(fault),
        None => check_extension(courses),
    }
}

/// Accepts or rejects the input files of a job. The job may start exactly
/// when both files exist and both carry the extension `xlsx`; otherwise the
/// error is `InvalidInput` with the fault that `input_fault` names.
pub fn check_inputs(tutors: &FileFacts, courses: &FileFacts) -> (checked: Result<(), JobError>)
    ensures
        match checked {
            Ok(_) => input_fault(*tutors, *courses) is None,
            Err(error) => input_fault(*tutors, *courses) matches Some(fault) && error
                == JobError::InvalidInput(fault),
        },
        checked is Ok <==> tutors.exists && courses.exists && is_spreadsheet(*tutors)
            && is_spreadsheet(*courses),
{
    match find_input_fault(tutors, courses) {
        None => Ok(()),
        Some(fault) => Err(JobError::InvalidInput(fault)),
    }
}

} // verus!
