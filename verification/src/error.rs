//! Errors of the HTTP API: the status code and JSON body of each.

use vstd::prelude::*;
use crate::text::{texts, contains_text, has_substring};
use crate::json::{json_member, lemma_members_push, json_object, json_null, json_bool, json_string, json_string_array, pair_texts,
    json_string_literal, write_object, write_string_array};

verus! {

/// An error answered to an HTTP request.
#[derive(Debug)]
pub enum AppError {
    BadRequest(String),
    NotFound(String),
    Conflict(String),
    Unauthorized(String),
    UnprocessableEntity(Vec<String>),
    InternalServerError(String),
}

impl AppError {
    /// The HTTP status of the error.
    pub open spec fn status_of(self) -> u16 {
        match self {
            AppError::BadRequest(_) => 400,
            AppError::NotFound(_) => 404,
            AppError::Conflict(_) => 409,
            AppError::Unauthorized(_) => 401,
            AppError::UnprocessableEntity(_) => 422,
            AppError::InternalServerError(_) => 500,
        }
    }

    /// The message shown to the client; an internal error's own text is not
    /// shown.
    pub open spec fn message_of(self) -> Seq<char> {
        match self {
            AppError::BadRequest(m) => m@,
            AppError::NotFound(m) => m@,
            AppError::Conflict(m) => m@,
            AppError::Unauthorized(m) => m@,
            AppError::UnprocessableEntity(_) => "validation failed"@,
            AppError::InternalServerError(_) => "internal server error"@,
        }
    }

    /// The JSON value of the `errors` member: the list of validation
    /// failures, or `null`.
    pub open spec fn errors_json(self) -> Seq<char> {
        match self {
            AppError::UnprocessableEntity(v) => json_string_array(texts(v@)),
            _ => json_null(),
        }
    }

    /// The JSON body: `{"data":null,"errors":…,"message":…,"success":false}`
    /// with the members in key order.
    pub open spec fn body_of(self) -> Seq<char> {
        json_object(seq![
            ("data"@, json_null()),
            ("errors"@, self.errors_json()),
            ("message"@, json_string(self.message_of())),
            ("success"@, json_bool(false)),
        ])
    }

    /// The HTTP status code.
    pub fn status_code(&self) -> (r: u16)
        ensures
            r == self.status_of(),
    {
        match self {
            AppError::BadRequest(_) => 400,
            AppError::NotFound(_) => 404,
            AppError::Conflict(_) => 409,
            AppError::Unauthorized(_) => 401,
            AppError::UnprocessableEntity(_) => 422,
            AppError::InternalServerError(_) => 500,
        }
    }

    /// The text of an internal error, which is reported to error tracking
    /// and logged; `None` for every other error.
    pub fn internal_detail(&self) -> (r: Option<String>)
        ensures
            match self {
                AppError::InternalServerError(m) => r == Some(*m),
                _ => r is None,
            },
    {
        match self {
            AppError::InternalServerError(m) => Some(m.clone()),
            _ => None,
        }
    }

    /// The JSON body of the response.
    pub fn body(&self) -> (r: String)
        ensures
            r@ == self.body_of(),
    {
        proof {
            reveal_strlit("null");
            reveal_strlit("false");
        }
        assert("null"@ =~= json_null());
        assert("false"@ =~= json_bool(false));
        let message = match self {
            AppError::BadRequest(m) => m.clone(),
            AppError::NotFound(m) => m.clone(),
            AppError::Conflict(m) => m.clone(),
            AppError::Unauthorized(m) => m.clone(),
            AppError::UnprocessableEntity(_) => "validation failed".to_string(),
            AppError::InternalServerError(_) => "internal server error".to_string(),
        };
        let errors = match self {
            AppError::UnprocessableEntity(v) => write_string_array(v),
            _ => "null".to_string(),
        };
        let mut members: Vec<(String, String)> = Vec::new();
        members.push(("data".to_string(), "null".to_string()));
        members.push(("errors".to_string(), errors));
        members.push(("message".to_string(), json_string_literal(message.as_str())));
        members.push(("success".to_string(), "false".to_string()));
        assert(pair_texts(members@) =~= seq![
            ("data"@, json_null()),
            ("errors"@, self.errors_json()),
            ("message"@, json_string(self.message_of())),
            ("success"@, json_bool(false)),
        ]);
        write_object(&members)
    }
}

/// Each error answers with its own status: 400 bad request, 401
/// unauthorized, 404 not found, 409 conflict, 422 unprocessable entity,
/// 500 internal server error.
pub proof fn lemma_status_codes(m: String, v: Vec<String>)
    ensures
        AppError::BadRequest(m).status_of() == 400,
        AppError::Unauthorized(m).status_of() == 401,
        AppError::NotFound(m).status_of() == 404,
        AppError::Conflict(m).status_of() == 409,
        AppError::UnprocessableEntity(v).status_of() == 422,
        AppError::InternalServerError(m).status_of() == 500,
{
}

/// The body of every error is
/// `{"data":null,"errors":E,"message":M,"success":false}`, where `E` lists
/// the validation failures of an unprocessable request (`null` for every
/// other error), and `M` is the error's own text, except that validation
/// errors say `validation failed` and internal errors say
/// `internal server error`.
pub proof fn lemma_error_body(e: AppError)
    ensures
        e.body_of() == seq!['{']
            + json_member("data"@, json_null()) + seq![',']
            + json_member("errors"@, match e {
                AppError::UnprocessableEntity(v) => json_string_array(texts(v@)),
                _ => json_null(),
            }) + seq![',']
            + json_member("message"@, json_string(match e {
                AppError::BadRequest(m) => m@,
                AppError::NotFound(m) => m@,
                AppError::Conflict(m) => m@,
                AppError::Unauthorized(m) => m@,
                AppError::UnprocessableEntity(_) => "validation failed"@,
                AppError::InternalServerError(_) => "internal server error"@,
            })) + seq![',']
            + json_member("success"@, json_bool(false)) + seq!['}'],
{
    let m0 = Seq::<(Seq<char>, Seq<char>)>::empty();
    let m1 = m0.push(("data"@, json_null()));
    let m2 = m1.push(("errors"@, e.errors_json()));
    let m3 = m2.push(("message"@, json_string(e.message_of())));
    let m4 = m3.push(("success"@, json_bool(false)));
    lemma_members_push(m0, "data"@, json_null());
    lemma_members_push(m1, "errors"@, e.errors_json());
    lemma_members_push(m2, "message"@, json_string(e.message_of()));
    lemma_members_push(m3, "success"@, json_bool(false));
    assert(m4 =~= seq![
        ("data"@, json_null()),
        ("errors"@, e.errors_json()),
        ("message"@, json_string(e.message_of())),
        ("success"@, json_bool(false)),
    ]);
    assert(e.body_of() =~= seq!['{']
            + json_member("data"@, json_null()) + seq![',']
            + json_member("errors"@, e.errors_json()) + seq![',']
            + json_member("message"@, json_string(e.message_of())) + seq![',']
            + json_member("success"@, json_bool(false)) + seq!['}']);
}

/// The body of an internal error is the same whatever its text: the text
/// of an internal failure never reaches the client.
pub proof fn lemma_internal_detail_stays_private(m1: String, m2: String)
    ensures
        AppError::InternalServerError(m1).body_of() == AppError::InternalServerError(m2).body_of(),
        AppError::InternalServerError(m1).status_of() == 500,
{
}

/// The error that a handler answers for a failed service call whose text
/// may report a missing student: `NotFound` when the text contains
/// `not_found`, `InternalServerError` otherwise.
pub open spec fn failure_error(e: String) -> AppError {
    if has_substring(e@, "not_found"@) {
        AppError::NotFound(e)
    } else {
        AppError::InternalServerError(e)
    }
}

/// Maps a service failure to the error answered for it.
pub fn classify_failure(e: String) -> (r: AppError)
    ensures
        r == failure_error(e),
{
    if contains_text(e.as_str(), "not_found") {
        AppError::NotFound(e)
    } else {
        AppError::InternalServerError(e)
    }
}

} // verus!
