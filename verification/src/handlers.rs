//! What the HTTP handlers answer for the result of a service call.

use vstd::prelude::*;
use crate::error::{AppError, failure_error, classify_failure};
use crate::dto::{StudentResponse, ListStudentQuery};
use crate::response::{success, success_text, student_json, student_json_text, students_json,
    students_json_text, success_paginated, paginated_text};

verus! {

/// A successful answer: status code and JSON body.
pub struct Reply {
    pub status: u16,
    pub body: String,
}

/// A fetched page of the list with the page number and size that the
/// request gave (before the service bounded them).
pub struct Page {
    pub students: Vec<StudentResponse>,
    pub total: i64,
    pub page: i64,
    pub per_page: i64,
}

/// Answer to creating a student: `201` with the student, or an internal
/// error with the service's message.
pub fn create_student_reply(r: Result<StudentResponse, String>) -> (a: Result<Reply, AppError>)
    ensures
        match r {
            Ok(s) => a matches Ok(rep) && rep.status == 201 && rep.body@ == success_text("student created"@, student_json_text(s)),
            Err(e) => a == Err::<Reply, AppError>(AppError::InternalServerError(e)),
        },
{
    match r {
        Ok(s) => {
            let data = student_json(&s);
            Ok(Reply { status: 201, body: success("student created", data) })
        },
        Err(e) => Err(AppError::InternalServerError(e)),
    }
}

/// Answer to listing students: the page with the page number and size as
/// the query gave them (defaults 1 and 20), or an internal error.
pub fn get_all_students_reply(query: &ListStudentQuery, r: Result<(Vec<StudentResponse>, i64), String>) -> (a: Result<Page, AppError>)
    ensures
        match r {
            Ok(found) => a matches Ok(p) && p.students == found.0 && p.total == found.1
                && p.page == (match query.page { Some(x) => x, None => 1 })
                && p.per_page == (match query.per_page { Some(x) => x, None => 20 }),
            Err(e) => a == Err::<Page, AppError>(AppError::InternalServerError(e)),
        },
{
    let page = match query.page {
        Some(x) => x,
        None => 1,
    };
    let per_page = match query.per_page {
        Some(x) => x,
        None => 20,
    };
    match r {
        Ok(found) => {
            let (students, total) = found;
            Ok(Page { students, total, page, per_page })
        },
        Err(e) => Err(AppError::InternalServerError(e)),
    }
}

impl Page {
    /// The body of the answer, given the number of pages.
    pub fn body(&self, total_pages: i64) -> (r: String)
        ensures
            r@ == paginated_text("students fetched"@, students_json_text(self.students@), self.total, self.page,
                self.per_page, total_pages),
    {
        let data = students_json(&self.students);
        success_paginated("students fetched", data, self.total, self.page, self.per_page, total_pages)
    }
}

/// Answer to reading a student: `200` with the student, `404` when there
/// is none, or an internal error.
pub fn get_student_reply(r: Result<Option<StudentResponse>, String>) -> (a: Result<Reply, AppError>)
    ensures
        match r {
            Ok(Some(s)) => a matches Ok(rep) && rep.status == 200 && rep.body@ == success_text("student fetched"@, student_json_text(s)),
            Ok(None) => a matches Err(AppError::NotFound(m)) && m@ == "student not found"@,
            Err(e) => a == Err::<Reply, AppError>(AppError::InternalServerError(e)),
        },
{
    match r {
        Ok(Some(s)) => {
            let data = student_json(&s);
            Ok(Reply { status: 200, body: success("student fetched", data) })
        },
        Ok(None) => Err(AppError::NotFound("student not found".to_string())),
        Err(e) => Err(AppError::InternalServerError(e)),
    }
}

/// Answer to changing a student: `200` with the student, or the error for
/// the service's message (`404` when it reports a missing student).
pub fn update_student_reply(r: Result<StudentResponse, String>) -> (a: Result<Reply, AppError>)
    ensures
        match r {
            Ok(s) => a matches Ok(rep) && rep.status == 200 && rep.body@ == success_text("student updated"@, student_json_text(s)),
            Err(e) => a == Err::<Reply, AppError>(failure_error(e)),
        },
{
    match r {
        Ok(s) => {
            let data = student_json(&s);
            Ok(Reply { status: 200, body: success("student updated", data) })
        },
        Err(e) => Err(classify_failure(e)),
    }
}

/// Answer to deleting a student: `204` without a body, or the error for the
/// service's message (`404` when it reports a missing student).
pub fn delete_student_reply(r: Result<(), String>) -> (a: Result<u16, AppError>)
    ensures
        match r {
            Ok(_) => a == Ok::<u16, AppError>(204),
            Err(e) => a == Err::<u16, AppError>(failure_error(e)),
        },
{
    match r {
        Ok(_) => Ok(204),
        Err(e) => Err(classify_failure(e)),
    }
}

} // verus!
