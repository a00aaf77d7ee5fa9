use vstd::prelude::*;
use vstd::string::*;
use crate::error::{AuthError, ErrorResponse};

verus! {

/// Errors of the answer service.
#[derive(Debug)]
pub enum AnswerServiceError {
    UnexpectedError(String),
}

/// Errors of the object storage.
#[derive(Debug)]
pub enum ObjectStorageError {
    UnexpectedError(String),
}

/// Errors of the exam service.
#[derive(Debug)]
pub enum ExamServiceError {
    UnexpectedError(String),
}

/// Errors of the question service.
#[derive(Debug)]
pub enum QuestionServiceError {
    UnexpectedError(String),
}

/// Errors of the subject service.
#[derive(Debug)]
pub enum SubjectServiceError {
    NotFound,
    UnexpectedError(String),
}

/// Errors of the classroom service.
#[derive(Debug)]
pub enum ClassroomServiceError {
    UnauthorizedStudent,
    UnexpectedError(String),
}

/// Errors of the student service.
#[derive(Debug)]
pub enum StudentServiceError {
    UuidParseError(String),
    UnexpectedError(String),
}

/// Errors of the teacher service.
#[derive(Debug)]
pub enum TeacherServiceError {
    UuidParseFailed(String),
    UnexpectedError(String),
}

/// Errors of endpoints that only validate their input.
#[derive(Debug)]
pub enum ApiError {
    ValidationError(String),
    JsonExtractorRejection(String),
}

/// Errors of the classroom endpoints.
#[derive(Debug)]
pub enum ClassroomControllerError {
    StudentHasScheduleConflict,
    ClassroomIsNotExists,
    StudentIsNotExists,
    ClassroomFull,
    StudentAlreadyEnrolled,
    LecturerNotAbleToEnroll,
    UnableCreateClass,
    Unauthorized,
    Other(String),
    JsonRejection(String),
    ClassroomServiceError(ClassroomServiceError),
    SubjectServiceError(SubjectServiceError),
    TeacherServiceError(TeacherServiceError),
    Unknown,
}

/// Errors of the exam endpoints.
#[derive(Debug)]
pub enum ExamControllerError {
    Unauthorized,
    ErrorWithMessage(String),
    Unknown,
}

/// Errors of the subject endpoints.
#[derive(Debug)]
pub enum SubjectControllerError {
    Unauthorized,
    Other(String),
    Unknown,
}

/// Errors of the question endpoints.
#[derive(Debug)]
pub enum QuestionControllerError {
    JsonRejection(String),
    ErrorWithMessage(String),
    UnauthorizedAccess,
    Unknown,
}

/// The message of an endpoint error that carries a reason.
pub open spec fn with_reason(prefix: Seq<char>, reason: Seq<char>) -> Seq<char> {
    prefix + reason
}

fn concat(prefix: &str, reason: &str) -> (r: String)
    ensures
        r@ == prefix@ + reason@,
{
    let mut v = String::from_str(prefix);
    v.append(reason);
    v
}

impl ExamControllerError {
    /// The exam-endpoint error that an authorization failure becomes.
    pub fn from(err: AuthError) -> (r: ExamControllerError)
        ensures
            err is Unauthorized ==> r is Unauthorized,
            err matches AuthError::Other(m) ==> (r matches ExamControllerError::ErrorWithMessage(n)
                && n@ == m@),
            !(err is Unauthorized || err is Other) ==> r is Unknown,
    {
        match err {
            AuthError::Unauthorized => ExamControllerError::Unauthorized,
            AuthError::Other(m) => ExamControllerError::ErrorWithMessage(m),
            _ => ExamControllerError::Unknown,
        }
    }

    /// The web response: 401 for `Unauthorized`, 500 otherwise.
    pub fn into_response(self) -> (r: ErrorResponse)
        ensures
            r.result_code is None,
            self is Unauthorized ==> r.status == 401 && r.message@ == "Unauthorized access."@,
            self matches ExamControllerError::ErrorWithMessage(m) ==> r.status == 500 && r.message@
                == m@,
            self is Unknown ==> r.status == 500 && r.message@ == "Internal server error."@,
    {
        let (status, message): (u16, String) = match self {
            ExamControllerError::Unauthorized => (401, String::from_str("Unauthorized access.")),
            ExamControllerError::ErrorWithMessage(m) => (500, m),
            ExamControllerError::Unknown => (500, String::from_str("Internal server error.")),
        };
        ErrorResponse { status, result_code: None, message }
    }
}

impl SubjectControllerError {
    /// The subject-endpoint error that an authorization failure becomes.
    pub fn from(err: AuthError) -> (r: SubjectControllerError)
        ensures
            err is Unauthorized ==> r is Unauthorized,
            err matches AuthError::Other(m) ==> (r matches SubjectControllerError::Other(n) && n@
                == m@),
            !(err is Unauthorized || err is Other) ==> r is Unknown,
    {
        match err {
            AuthError::Unauthorized => SubjectControllerError::Unauthorized,
            AuthError::Other(m) => SubjectControllerError::Other(m),
            _ => SubjectControllerError::Unknown,
        }
    }

    /// The web response: 401 for `Unauthorized`, 500 with the reason otherwise.
    pub fn into_response(self) -> (r: ErrorResponse)
        ensures
            r.result_code is None,
            self is Unauthorized ==> r.status == 401 && r.message@ == "Unauthorized access!"@,
            self is Unknown ==> r.status == 500 && r.message@ == "Internal server error."@,
            self matches SubjectControllerError::Other(m) ==> r.status == 500 && r.message@
                == with_reason("Internal server error. With reason: "@, m@),
    {
        let (status, message): (u16, String) = match self {
            SubjectControllerError::Unauthorized => (401, String::from_str("Unauthorized access!")),
            SubjectControllerError::Unknown => (500, String::from_str("Internal server error.")),
            SubjectControllerError::Other(m) => (
                500,
                concat("Internal server error. With reason: ", m.as_str()),
            ),
        };
        ErrorResponse { status, result_code: None, message }
    }
}

impl QuestionControllerError {
    /// The question-endpoint error that an authorization failure becomes.
    pub fn from(err: AuthError) -> (r: QuestionControllerError)
        ensures
            err is Unauthorized ==> r is UnauthorizedAccess,
            !(err is Unauthorized) ==> r is Unknown,
    {
        match err {
            AuthError::Unauthorized => QuestionControllerError::UnauthorizedAccess,
            _ => QuestionControllerError::Unknown,
        }
    }

    /// The web response: 422 for a rejected body, 401 for an unauthorized
    /// access, 500 otherwise.
    pub fn into_response(self) -> (r: ErrorResponse)
        ensures
            r.result_code is None,
            self matches QuestionControllerError::JsonRejection(m) ==> r.status == 422 && r.message@
                == m@,
            self matches QuestionControllerError::ErrorWithMessage(m) ==> r.status == 500
                && r.message@ == m@,
            self is UnauthorizedAccess ==> r.status == 401 && r.message@ == "Unauthorized Access."@,
            self is Unknown ==> r.status == 500 && r.message@ == "Internal server error."@,
    {
        let (status, message): (u16, String) = match self {
            QuestionControllerError::JsonRejection(m) => (422, m),
            QuestionControllerError::ErrorWithMessage(m) => (500, m),
            QuestionControllerError::UnauthorizedAccess => (401, String::from_str("Unauthorized Access.")),
            QuestionControllerError::Unknown => (500, String::from_str("Internal server error.")),
        };
        ErrorResponse { status, result_code: None, message }
    }
}


impl ApiError {
    /// The web response: 422 with the reason.
    pub fn into_response(self) -> (r: ErrorResponse)
        ensures
            r.status == 422,
            r.result_code is None,
            self matches ApiError::ValidationError(m) ==> r.message@ == m@,
            self matches ApiError::JsonExtractorRejection(m) ==> r.message@ == m@,
    {
        let message = match self {
            ApiError::ValidationError(m) => m,
            ApiError::JsonExtractorRejection(m) => m,
        };
        ErrorResponse { status: 422, result_code: None, message }
    }
}

pub open spec fn classroom_error_status(e: ClassroomControllerError) -> u16 {
    match e {
        ClassroomControllerError::Unauthorized => 401,
        ClassroomControllerError::JsonRejection(_) => 422,
        ClassroomControllerError::UnableCreateClass => 403,
        ClassroomControllerError::LecturerNotAbleToEnroll => 403,
        ClassroomControllerError::StudentAlreadyEnrolled => 403,
        ClassroomControllerError::ClassroomFull => 403,
        ClassroomControllerError::StudentIsNotExists => 403,
        ClassroomControllerError::ClassroomIsNotExists => 403,
        ClassroomControllerError::StudentHasScheduleConflict => 403,
        _ => 500,
    }
}

pub open spec fn classroom_error_message(e: ClassroomControllerError) -> Seq<char> {
    match e {
        ClassroomControllerError::Unauthorized => "Unauthorized access!"@,
        ClassroomControllerError::Other(m) => with_reason("Internal server error, reason: "@, m@),
        ClassroomControllerError::Unknown => "Internal server error."@,
        ClassroomControllerError::UnableCreateClass => "Forbidden to create a classroom"@,
        ClassroomControllerError::JsonRejection(m) => m@,
        ClassroomControllerError::LecturerNotAbleToEnroll =>
            "Lecturer should not be able to enroll a class without being pointed."@,
        ClassroomControllerError::StudentAlreadyEnrolled => "Student already enrolled!"@,
        ClassroomControllerError::ClassroomFull => "Classroom already full!"@,
        ClassroomControllerError::StudentIsNotExists => "Student is not exists."@,
        ClassroomControllerError::ClassroomIsNotExists => "Classroom is not exists."@,
        ClassroomControllerError::StudentHasScheduleConflict =>
            "Student already have a schedule that conflict with current requested class."@,
        ClassroomControllerError::ClassroomServiceError(_) => "Internal server error."@,
        ClassroomControllerError::SubjectServiceError(_) => "Internal server error."@,
        ClassroomControllerError::TeacherServiceError(_) => "Internal server error."@,
    }
}

impl ClassroomControllerError {
    /// The classroom-endpoint error that an authorization failure becomes.
    pub fn from(err: AuthError) -> (r: ClassroomControllerError)
        ensures
            err is Unauthorized ==> r is Unauthorized,
            err matches AuthError::Other(m) ==> (r matches ClassroomControllerError::Other(n) && n@
                == m@),
            !(err is Unauthorized || err is Other) ==> r is Unknown,
    {
        match err {
            AuthError::Unauthorized => ClassroomControllerError::Unauthorized,
            AuthError::Other(m) => ClassroomControllerError::Other(m),
            _ => ClassroomControllerError::Unknown,
        }
    }

    /// The web response: 401 for an unauthorized access, 422 for a rejected
    /// body, 403 for a refused enrolment or creation, 500 otherwise.
    pub fn into_response(self) -> (r: ErrorResponse)
        ensures
            r.status == classroom_error_status(self),
            r.result_code is None,
            r.message@ == classroom_error_message(self),
    {
        let (status, message): (u16, String) = match self {
            ClassroomControllerError::Unauthorized => (401, String::from_str("Unauthorized access!")),
            ClassroomControllerError::Other(m) => (
                500,
                concat("Internal server error, reason: ", m.as_str()),
            ),
            ClassroomControllerError::Unknown => (500, String::from_str("Internal server error.")),
            ClassroomControllerError::UnableCreateClass => (
                403,
                String::from_str("Forbidden to create a classroom"),
            ),
            ClassroomControllerError::JsonRejection(m) => (422, m),
            ClassroomControllerError::LecturerNotAbleToEnroll => (
                403,
                String::from_str("Lecturer should not be able to enroll a class without being pointed."),
            ),
            ClassroomControllerError::StudentAlreadyEnrolled => (
                403,
                String::from_str("Student already enrolled!"),
            ),
            ClassroomControllerError::ClassroomFull => (403, String::from_str("Classroom already full!")),
            ClassroomControllerError::StudentIsNotExists => (
                403,
                String::from_str("Student is not exists."),
            ),
            ClassroomControllerError::ClassroomIsNotExists => (
                403,
                String::from_str("Classroom is not exists."),
            ),
            ClassroomControllerError::StudentHasScheduleConflict => (
                403,
                String::from_str(
                    "Student already have a schedule that conflict with current requested class.",
                ),
            ),
            ClassroomControllerError::ClassroomServiceError(_) => (
                500,
                String::from_str("Internal server error."),
            ),
            ClassroomControllerError::SubjectServiceError(_) => (
                500,
                String::from_str("Internal server error."),
            ),
            ClassroomControllerError::TeacherServiceError(_) => (
                500,
                String::from_str("Internal server error."),
            ),
        };
        ErrorResponse { status, result_code: None, message }
    }
}

} // verus!
