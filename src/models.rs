use vstd::prelude::*;

verus! {

#[derive(Debug, Clone, Copy, PartialEq, Eq, Structural)]
pub enum ClassSemester {
    Odd,
    Even,
}

#[derive(Debug, Clone, Copy, PartialEq, Eq, Structural)]
pub enum ExamType {
    Default,
    Upload,
}

#[derive(Debug, Clone, Copy, PartialEq, Eq, Structural)]
pub enum QuestionType {
    Choice,
    Descriptive,
    Table,
}

#[derive(Debug)]
pub struct Student {
    pub student_id: String,
    pub user_id: String,
}

#[derive(Debug)]
pub struct Teacher {
    pub teacher_id: String,
    pub user_id: String,
}

#[derive(Debug)]
pub struct Subject {
    pub subject_id: String,
    pub subject_name: String,
}

/// Which classes a classroom listing asks for.
#[derive(Debug, Clone, Copy, PartialEq, Eq, Structural)]
pub enum QueryParamsClassMode {
    AvailableClass,
    CreatedClass,
    EnrolledClass,
    UpcomingScheduledClass,
}

#[derive(Debug, Clone, Copy, PartialEq, Eq, Structural)]
pub enum QuerySemesterFilterClass {
    Odd,
    Even,
}

#[derive(Debug)]
pub struct QueryFilter {
    pub semester_filter: Option<QuerySemesterFilterClass>,
    pub subject_name_filter: Option<String>,
    pub subject_id_filter: Option<String>,
}

#[derive(Debug, Clone, Copy, PartialEq, Eq, Structural)]
pub struct QueryPagination {
    pub offset: Option<usize>,
    pub limit: Option<usize>,
}

/// The query of a classroom listing.
#[derive(Debug)]
pub struct QueryParamsClasses {
    pub pagination: Option<QueryPagination>,
    pub mode: Option<QueryParamsClassMode>,
    pub search: Option<String>,
    pub filter: Option<QueryFilter>,
}

impl Default for QueryParamsClasses {
    /// A listing with no pagination, mode, search or filter.
    fn default() -> (r: QueryParamsClasses)
        ensures
            r.pagination is None && r.mode is None && r.search is None && r.filter is None,
    {
        QueryParamsClasses { pagination: None, mode: None, search: None, filter: None }
    }
}

} // verus!
