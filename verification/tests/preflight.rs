use job_core::error::{InputFault, JobError};
use job_core::preflight::{check_inputs, FileFacts};

fn file(exists: bool, extension: Option<&str>) -> FileFacts {
    FileFacts { exists, extension: extension.map(|text| text.to_string()) }
}

#[test]
fn two_spreadsheets_are_accepted() {
    assert_eq!(check_inputs(&file(true, Some("xlsx")), &file(true, Some("xlsx"))), Ok(()));
}

#[test]
fn missing_tutors_file_is_reported_first() {
    assert_eq!(
        check_inputs(&file(false, None), &file(false, None)),
        Err(JobError::InvalidInput(InputFault::TutorsMissing))
    );
    assert_eq!(
        check_inputs(&file(false, Some("xlsx")), &file(true, Some("xlsx"))),
        Err(JobError::InvalidInput(InputFault::TutorsMissing))
    );
}

#[test]
fn missing_courses_file_is_reported_before_any_extension() {
    assert_eq!(
        check_inputs(&file(true, Some("csv")), &file(false, Some("xlsx"))),
        Err(JobError::InvalidInput(InputFault::CoursesMissing))
    );
}

#[test]
fn a_path_without_extension_is_rejected() {
    assert_eq!(
        check_inputs(&file(true, None), &file(true, Some("xlsx"))),
        Err(JobError::InvalidInput(InputFault::NoExtension))
    );
    assert_eq!(
        check_inputs(&file(true, Some("xlsx")), &file(true, None)),
        Err(JobError::InvalidInput(InputFault::NoExtension))
    );
}

#[test]
fn another_extension_is_rejected() {
    assert_eq!(
        check_inputs(&file(true, Some("xls")), &file(true, Some("xlsx"))),
        Err(JobError::InvalidInput(InputFault::NotSpreadsheet))
    );
    assert_eq!(
        check_inputs(&file(true, Some("xlsx")), &file(true, Some("csv"))),
        Err(JobError::InvalidInput(InputFault::NotSpreadsheet))
    );
}

#[test]
fn the_extension_is_compared_exactly() {
    assert_eq!(
        check_inputs(&file(true, Some("XLSX")), &file(true, Some("xlsx"))),
        Err(JobError::InvalidInput(InputFault::NotSpreadsheet))
    );
    assert_eq!(
        check_inputs(&file(true, Some("")), &file(true, Some("xlsx"))),
        Err(JobError::InvalidInput(InputFault::NotSpreadsheet))
    );
}

#[test]
fn the_tutors_extension_is_looked_at_before_the_courses_extension() {
    assert_eq!(
        check_inputs(&file(true, Some("csv")), &file(true, None)),
        Err(JobError::InvalidInput(InputFault::NotSpreadsheet))
    );
    assert_eq!(
        check_inputs(&file(true, None), &file(true, Some("csv"))),
        Err(JobError::InvalidInput(InputFault::NoExtension))
    );
}
