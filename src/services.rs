use vstd::prelude::*;

verus! {

/// Exams and their attachment to classrooms; its queries run against the
/// relational store.
#[derive(Debug, Clone, Copy, PartialEq, Eq, Structural)]
pub struct ExamService;

/// Questions and their answer keys.
#[derive(Debug, Clone, Copy, PartialEq, Eq, Structural)]
pub struct QuestionService;

/// Student records.
#[derive(Debug, Clone, Copy, PartialEq, Eq, Structural)]
pub struct StudentService;

/// Subjects and secondary subjects.
#[derive(Debug, Clone, Copy, PartialEq, Eq, Structural)]
pub struct SubjectService;

/// Teacher records.
#[derive(Debug, Clone, Copy, PartialEq, Eq, Structural)]
pub struct TeacherService;

impl ExamService {
    /// The same value as `default()`.
    pub fn new() -> (r: ExamService)
        ensures
            r == ExamService,
    {
        ExamService
    }
}

impl Default for ExamService {
    fn default() -> (r: ExamService)
        ensures
            r == ExamService,
    {
        ExamService
    }
}

impl QuestionService {
    /// The same value as `default()`.
    pub fn new() -> (r: QuestionService)
        ensures
            r == QuestionService,
    {
        QuestionService
    }
}

impl Default for QuestionService {
    fn default() -> (r: QuestionService)
        ensures
            r == QuestionService,
    {
        QuestionService
    }
}

impl StudentService {
    /// The same value as `default()`.
    pub fn new() -> (r: StudentService)
        ensures
            r == StudentService,
    {
        StudentService
    }
}

impl Default for StudentService {
    fn default() -> (r: StudentService)
        ensures
            r == StudentService,
    {
        StudentService
    }
}

impl SubjectService {
    /// The same value as `default()`.
    pub fn new() -> (r: SubjectService)
        ensures
            r == SubjectService,
    {
        SubjectService
    }
}

impl Default for SubjectService {
    fn default() -> (r: SubjectService)
        ensures
            r == SubjectService,
    {
        SubjectService
    }
}

impl TeacherService {
    /// The same value as `default()`.
    pub fn new() -> (r: TeacherService)
        ensures
            r == TeacherService,
    {
        TeacherService
    }
}

impl Default for TeacherService {
    fn default() -> (r: TeacherService)
        ensures
            r == TeacherService,
    {
        TeacherService
    }
}

} // verus!
