//! Request and response data of the student endpoints, and the checks
//! that a request must pass before it reaches the service.

use vstd::prelude::*;
use crate::text::texts;
use crate::error::AppError;

verus! {

/// Body of a request that creates a student.
#[derive(Debug)]
pub struct CreateStudentRequest {
    pub student_number: String,
    pub name: String,
    pub email: String,
}

/// Body of a request that changes a student; absent fields stay as they are.
#[derive(Debug)]
pub struct UpdateStudentRequest {
    pub name: Option<String>,
    pub email: Option<String>,
}

/// Query of a request for one page of the student list.
#[derive(Debug)]
pub struct ListStudentQuery {
    pub page: Option<i64>,
    pub per_page: Option<i64>,
}

/// A student as the service returns it. The UUID is its 128-bit value; the
/// timestamps are RFC 3339 texts in UTC as the JSON encoding writes them.
#[derive(Debug)]
pub struct StudentResponse {
    pub uuid: u128,
    pub student_number: String,
    pub name: String,
    pub email: String,
    pub created_at: String,
    pub updated_at: String,
}

/// A student row as the database returns it.
#[derive(Debug)]
pub struct Student {
    pub uuid: u128,
    pub student_number: String,
    pub name: String,
    pub email: String,
    pub created_at: String,
    pub updated_at: String,
}

/// Values for inserting a student.
#[derive(Debug)]
pub struct CreateStudentParams {
    pub student_number: String,
    pub name: String,
    pub email: String,
}

/// Values for changing a student.
#[derive(Debug)]
pub struct UpdateStudentParams {
    pub uuid: u128,
    pub name: Option<String>,
    pub email: Option<String>,
}

/// Window of the student list to read.
#[derive(Debug)]
pub struct FindAllParams {
    pub offset: i64,
    pub limit: i64,
}

/// The response for a stored student: the same fields.
pub open spec fn response_of(s: Student) -> StudentResponse {
    StudentResponse {
        uuid: s.uuid,
        student_number: s.student_number,
        name: s.name,
        email: s.email,
        created_at: s.created_at,
        updated_at: s.updated_at,
    }
}

/// The response for a stored student keeps every field of the row.
pub proof fn lemma_response_keeps_fields(s: Student)
    ensures
        response_of(s).uuid == s.uuid,
        response_of(s).student_number == s.student_number,
        response_of(s).name == s.name,
        response_of(s).email == s.email,
        response_of(s).created_at == s.created_at,
        response_of(s).updated_at == s.updated_at,
{
}

impl From<Student> for StudentResponse {
    /// The response for a stored student.
    fn from(s: Student) -> (r: StudentResponse) {
        StudentResponse {
            uuid: s.uuid,
            student_number: s.student_number,
            name: s.name,
            email: s.email,
            created_at: s.created_at,
            updated_at: s.updated_at,
        }
    }
}

impl vstd::std_specs::convert::FromSpecImpl<Student> for StudentResponse {
    open spec fn obeys_from_spec() -> bool {
        true
    }

    open spec fn from_spec(s: Student) -> StudentResponse {
        response_of(s)
    }
}

impl StudentResponse {

    /// A copy with the same fields.
    pub fn duplicate(&self) -> (r: StudentResponse)
        ensures
            r == *self,
    {
        StudentResponse {
            uuid: self.uuid,
            student_number: self.student_number.clone(),
            name: self.name.clone(),
            email: self.email.clone(),
            created_at: self.created_at.clone(),
            updated_at: self.updated_at.clone(),
        }
    }
}

/// A copy of a list of students.
pub fn duplicate_all(v: &Vec<StudentResponse>) -> (r: Vec<StudentResponse>)
    ensures
        r@ == v@,
{
    let mut r: Vec<StudentResponse> = Vec::new();
    let mut i: usize = 0;
    while i < v.len()
        invariant
            i <= v@.len(),
            r@ == v@.take(i as int),
        decreases v@.len() - i,
    {
        r.push(v[i].duplicate());
        assert(r@ =~= v@.take(i + 1));
        i = i + 1;
    }
    assert(v@.take(v@.len() as int) =~= v@);
    r
}

/// Responses for a list of stored students, in the same order.
pub fn responses_of(v: Vec<Student>) -> (r: Vec<StudentResponse>)
    ensures
        r@ == v@.map_values(|s: Student| response_of(s)),
{
    let mut r: Vec<StudentResponse> = Vec::new();
    let mut rest = v;
    let ghost all = rest@;
    let mut taken: usize = 0;
    let mut rev: Vec<Student> = Vec::new();
    while rest.len() > 0
        invariant
            rest@.len() + rev@.len() == all.len(),
            forall|k: int| 0 <= k < rest@.len() ==> #[trigger] rest@[k] == all[k],
            forall|k: int| 0 <= k < rev@.len() ==> #[trigger] rev@[k] == all[all.len() - 1 - k],
        decreases rest@.len(),
    {
        let s = rest.pop().unwrap();
        rev.push(s);
    }
    while rev.len() > 0
        invariant
            r@.len() + rev@.len() == all.len(),
            forall|k: int| 0 <= k < rev@.len() ==> #[trigger] rev@[k] == all[all.len() - 1 - k],
            r@ == all.take(r@.len() as int).map_values(|s: Student| response_of(s)),
        decreases rev@.len(),
    {
        let ghost n: int = r@.len() as int;
        let s = rev.pop().unwrap();
        assert(s == all[n]);
        r.push(StudentResponse::from(s));
        assert(all.take(n + 1).map_values(|s: Student| response_of(s)) =~= all.take(n).map_values(|s: Student| response_of(s)).push(response_of(all[n])));
    }
    assert(all.take(all.len() as int) =~= all);
    r
}

/// What `ValidateLength::validate_length(s, min, max, None)` of the
/// `validator` crate returns for a `String`: whether its number of
/// characters is at least `min` and at most `max`, each bound checked only
/// when given.
#[verifier::external_body]
fn length_within(s: &String, min: Option<u64>, max: Option<u64>) -> (r: bool)
    ensures
        r == ((min matches Some(lo) ==> lo <= s@.len()) && (max matches Some(hi) ==> s@.len() <= hi)),
{
    validator::ValidateLength::validate_length(s, min, max, None)
}

/// The result of the `validator` crate's e-mail check on a text (the HTML5
/// rule for a user part and a domain part, with length limits and IDNA).
pub uninterp spec fn email_accepted(s: Seq<char>) -> bool;

/// `ValidateEmail::validate_email` of the `validator` crate on a `String`.
/// Its source rejects every text without an `@` before anything else.
#[verifier::external_body]
fn email_valid(s: &String) -> (r: bool)
    ensures
        r == email_accepted(s@),
        r ==> s@.contains('@'),
{
    validator::ValidateEmail::validate_email(s)
}

/// The text of one validation failure: `field: message`.
pub open spec fn field_error(field: Seq<char>, message: Seq<char>) -> Seq<char> {
    field + ": "@ + message
}

/// One failure when `ok` is false, none when it is true.
pub open spec fn unless(ok: bool, failure: Seq<char>) -> Seq<Seq<char>> {
    if ok { Seq::empty() } else { seq![failure] }
}

/// Whether a text has between `lo` and `hi` characters.
pub open spec fn length_between(s: Seq<char>, lo: nat, hi: nat) -> bool {
    lo <= s.len() && s.len() <= hi
}

fn field_failure(field: &str, message: &str) -> (r: String)
    ensures
        r@ == field_error(field@, message@),
{
    let mut r = field.to_string();
    r.append(": ");
    r.append(message);
    r
}

impl CreateStudentRequest {
    /// The failures of the request's checks, field by field in declaration
    /// order: `student_number` has 1 to 50 characters, `name` 1 to 255, and
    /// `email` is an e-mail address of at most 255 characters.
    pub open spec fn failures(self) -> Seq<Seq<char>> {
        unless(length_between(self.student_number@, 1, 50),
            field_error("student_number"@, "student_number must be 1-50 chars"@))
        + unless(length_between(self.name@, 1, 255), field_error("name"@, "name must be 1-255 chars"@))
        + unless(email_accepted(self.email@), field_error("email"@, "email must be a valid email address"@))
        + unless(self.email@.len() <= 255, field_error("email"@, "email must be under 255 chars"@))
    }

    /// Checks the request. It passes exactly when no check fails; otherwise
    /// the error is `UnprocessableEntity` with one `field: message` text for
    /// each failed check.
    pub fn validate(&self) -> (r: Result<(), AppError>)
        ensures
            r is Ok <==> self.failures().len() == 0,
            match r {
                Ok(_) => true,
                Err(e) => e matches AppError::UnprocessableEntity(v) && texts(v@) == self.failures(),
            },
    {
        let mut errors: Vec<String> = Vec::new();
        if !length_within(&self.student_number, Some(1), Some(50)) {
            errors.push(field_failure("student_number", "student_number must be 1-50 chars"));
        }
        if !length_within(&self.name, Some(1), Some(255)) {
            errors.push(field_failure("name", "name must be 1-255 chars"));
        }
        if !email_valid(&self.email) {
            errors.push(field_failure("email", "email must be a valid email address"));
        }
        if !length_within(&self.email, None, Some(255)) {
            errors.push(field_failure("email", "email must be under 255 chars"));
        }
        assert(texts(errors@) =~= self.failures());
        if errors.len() == 0 {
            Ok(())
        } else {
            Err(AppError::UnprocessableEntity(errors))
        }
    }
}

impl UpdateStudentRequest {
    /// The failures of the request's checks on the fields that are given:
    /// `name` has 1 to 255 characters and `email` is an e-mail address.
    pub open spec fn failures(self) -> Seq<Seq<char>> {
        (match self.name {
            Some(n) => unless(length_between(n@, 1, 255), field_error("name"@, "name must be 1-255 chars"@)),
            None => Seq::empty(),
        }) + (match self.email {
            Some(e) => unless(email_accepted(e@), field_error("email"@, "email must be a valid email address"@)),
            None => Seq::empty(),
        })
    }

    /// Checks the request as [`CreateStudentRequest::validate`] does.
    pub fn validate(&self) -> (r: Result<(), AppError>)
        ensures
            r is Ok <==> self.failures().len() == 0,
            match r {
                Ok(_) => true,
                Err(e) => e matches AppError::UnprocessableEntity(v) && texts(v@) == self.failures(),
            },
    {
        let mut errors: Vec<String> = Vec::new();
        match &self.name {
            Some(n) => {
                if !length_within(n, Some(1), Some(255)) {
                    errors.push(field_failure("name", "name must be 1-255 chars"));
                }
            },
            None => {},
        }
        match &self.email {
            Some(e) => {
                if !email_valid(e) {
                    errors.push(field_failure("email", "email must be a valid email address"));
                }
            },
            None => {},
        }
        assert(texts(errors@) =~= self.failures());
        if errors.len() == 0 {
            Ok(())
        } else {
            Err(AppError::UnprocessableEntity(errors))
        }
    }
}


/// A create request passes its checks exactly when the student number has
/// 1 to 50 characters, the name 1 to 255, and the e-mail is an address of
/// at most 255 characters; each failed check gives one failure, named by
/// its field.
pub proof fn lemma_create_checks(req: CreateStudentRequest)
    ensures
        req.failures().len() == 0 <==> ({
            &&& 1 <= req.student_number@.len() <= 50
            &&& 1 <= req.name@.len() <= 255
            &&& email_accepted(req.email@)
            &&& req.email@.len() <= 255
        }),
        req.failures().len() == (if 1 <= req.student_number@.len() <= 50 { 0int } else { 1int })
            + (if 1 <= req.name@.len() <= 255 { 0int } else { 1int })
            + (if email_accepted(req.email@) { 0int } else { 1int })
            + (if req.email@.len() <= 255 { 0int } else { 1int }),
        !(1 <= req.student_number@.len() <= 50) ==> req.failures()[0] == "student_number"@ + ": "@ + "student_number must be 1-50 chars"@,
        !email_accepted(req.email@) ==> req.failures().contains("email"@ + ": "@ + "email must be a valid email address"@),
{
    let f = req.failures();
    if !email_accepted(req.email@) {
        let k = (if 1 <= req.student_number@.len() <= 50 { 0int } else { 1int })
            + (if 1 <= req.name@.len() <= 255 { 0int } else { 1int });
        assert(f[k] == "email"@ + ": "@ + "email must be a valid email address"@);
    }
}

/// An update request passes its checks exactly when a given name has 1 to
/// 255 characters and a given e-mail is an address; absent fields are not
/// checked.
pub proof fn lemma_update_checks(req: UpdateStudentRequest)
    ensures
        req.failures().len() == 0 <==> ({
            &&& (req.name matches Some(n) ==> 1 <= n@.len() <= 255)
            &&& (req.email matches Some(e) ==> email_accepted(e@))
        }),
        req.name is None && req.email is None ==> req.failures().len() == 0,
{
}

} // verus!
