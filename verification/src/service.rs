//! The student service as a state machine. Each operation is begun with
//! [`Workflow::begin`], which names the first action to perform; the
//! program around the library performs it (a database query, a cache
//! read or write, publishing an event) and hands the result back to
//! [`Workflow::resume`], which names the next action, until the action is
//! `Finish` with the service's result.

use vstd::prelude::*;
use vstd::pervasive::unreached;
use crate::keys::{matches_prefix_pattern, lemma_list_pattern_scope, uuid_text, uuid_string, student_key, student_key_text, students_list_key,
    list_key_text, student_list_pattern, list_pattern_text};
use crate::text::{has_substring, int_text};
use crate::error::{AppError, failure_error};
use crate::json::{json_member, lemma_members_push, json_object, json_string, pair_texts, json_string_literal, write_object};
use crate::dto::{CreateStudentRequest, UpdateStudentRequest, ListStudentQuery, StudentResponse,
    Student, CreateStudentParams, UpdateStudentParams, FindAllParams, response_of, duplicate_all,
    responses_of};

verus! {

/// Seconds that a cached student stays in the cache.
pub const STUDENT_TTL: u64 = 300;

/// Seconds that a cached page of the student list stays in the cache.
pub const STUDENT_LIST_TTL: u64 = 60;

/// A request to the student service.
pub enum Operation {
    Create(CreateStudentRequest),
    GetAll(ListStudentQuery),
    GetByUuid(u128),
    Update(u128, UpdateStudentRequest),
    Delete(u128),
}

/// What a successful operation returns.
pub enum Outcome {
    Created(StudentResponse),
    Listed(Vec<StudentResponse>, i64),
    Fetched(Option<StudentResponse>),
    Updated(StudentResponse),
    Deleted,
}

/// A step for the program around the library to perform.
pub enum Action {
    /// Insert a student; answered by `Event::Inserted`.
    InsertStudent(CreateStudentParams),
    /// Read a window of the list and the number of students; answered by `Event::Paged`.
    SelectPage(FindAllParams),
    /// Read the student with this UUID; answered by `Event::Selected`.
    SelectStudent(u128),
    /// Change a student; answered by `Event::Selected`.
    UpdateStudent(UpdateStudentParams),
    /// Mark a student deleted; answered by `Event::Selected`.
    SoftDeleteStudent(u128),
    /// Read a cached student; answered by `Event::CachedStudent`.
    ReadCachedStudent(String),
    /// Read a cached page; answered by `Event::CachedPage`.
    ReadCachedPage(String),
    /// Cache a student under a key for some seconds; answered by `Event::Completed`.
    CacheStudent(String, StudentResponse, u64),
    /// Cache a page and the total under a key for some seconds; answered by `Event::Completed`.
    CachePage(String, Vec<StudentResponse>, i64, u64),
    /// Drop one cache key; answered by `Event::Completed`.
    EvictKey(String),
    /// Drop every cache key that matches a pattern; answered by `Event::Completed`.
    EvictPattern(String),
    /// Publish `(topic, key, payload)`; answered by `Event::Published`.
    Publish(String, String, String),
    /// The operation is over with this result.
    Finish(Result<Outcome, String>),
}

/// The result of an action, handed back to the state machine.
pub enum Event {
    Inserted(Result<Student, String>),
    Selected(Result<Option<Student>, String>),
    Paged(Result<(Vec<Student>, i64), String>),
    CachedStudent(Option<StudentResponse>),
    CachedPage(Option<(Vec<StudentResponse>, i64)>),
    Completed,
    Published(Result<(), String>),
}

/// Where an operation stands.
pub enum Workflow {
    AwaitInsert { topic: String },
    AwaitCachedPage { key: String, offset: i64, limit: i64 },
    AwaitPage { key: String },
    AwaitCachedStudent { uuid: u128, key: String },
    AwaitStudent { key: String },
    AwaitUpdate { uuid: u128, topic: String },
    AwaitDelete { uuid: u128, topic: String },
    /// Side effects whose results do not change the outcome, then the outcome.
    Trailing { rest: Vec<Action>, result: Result<Outcome, String> },
    Done,
}

/// The page number that a list query asks for: at least 1, default 1.
pub open spec fn list_page(q: ListStudentQuery) -> i64 {
    match q.page {
        Some(p) => if p < 1 { 1 } else { p },
        None => 1,
    }
}

/// The page size that a list query asks for: 1 to 100, default 20.
pub open spec fn list_per_page(q: ListStudentQuery) -> i64 {
    let x = match q.per_page {
        Some(p) => p,
        None => 20,
    };
    if x < 1 { 1 } else if x > 100 { 100 } else { x }
}

/// The number of students before the page.
pub open spec fn list_offset(q: ListStudentQuery) -> int {
    (list_page(q) - 1) * list_per_page(q)
}

/// Whether the offset of the page fits in an `i64`, so that computing it
/// does not overflow.
pub open spec fn window_fits(q: ListStudentQuery) -> bool {
    list_offset(q) <= i64::MAX
}

/// The page that the service reads is never before the first page and
/// never larger than 100 students.
pub proof fn lemma_window_bounds(q: ListStudentQuery)
    ensures
        list_page(q) >= 1,
        1 <= list_per_page(q) <= 100,
        list_offset(q) >= 0,
{
    assert((list_page(q) - 1) * list_per_page(q) >= 0) by (nonlinear_arith)
        requires
            list_page(q) >= 1,
            list_per_page(q) >= 1,
    ;
}

/// The event payload published when a student is created.
pub open spec fn created_payload(r: StudentResponse) -> Seq<char> {
    json_object(seq![
        ("email"@, json_string(r.email@)),
        ("event"@, json_string("STUDENT_CREATED"@)),
        ("name"@, json_string(r.name@)),
        ("student_number"@, json_string(r.student_number@)),
        ("student_uuid"@, json_string(uuid_text(r.uuid))),
    ])
}

/// The event payload published when a student is changed.
pub open spec fn updated_payload(r: StudentResponse) -> Seq<char> {
    json_object(seq![
        ("email"@, json_string(r.email@)),
        ("event"@, json_string("STUDENT_UPDATED"@)),
        ("name"@, json_string(r.name@)),
        ("student_uuid"@, json_string(uuid_text(r.uuid))),
    ])
}

/// The event payload published when a student is deleted.
pub open spec fn deleted_payload(uuid: u128) -> Seq<char> {
    json_object(seq![
        ("event"@, json_string("STUDENT_DELETED"@)),
        ("student_uuid"@, json_string(uuid_text(uuid))),
    ])
}

/// The message of an update of a student that does not exist.
pub open spec fn update_missing_text() -> Seq<char> {
    "not_found: student not found"@
}

/// The message of a deletion of a student that does not exist.
pub open spec fn delete_missing_text() -> Seq<char> {
    "not_found: student does not exist"@
}

/// Whether `rest` is: drop every cached list page, then publish `payload`
/// under the student's UUID on `topic`.
pub open spec fn invalidate_then_publish(rest: Seq<Action>, topic: String, uuid: u128, payload: Seq<char>) -> bool {
    &&& rest.len() == 2
    &&& rest[0] matches Action::EvictPattern(p) && p@ == list_pattern_text()
    &&& rest[1] matches Action::Publish(t, k, m) && t == topic && k@ == uuid_text(uuid) && m@ == payload
}

impl Workflow {
    /// Whether the state takes `ev` as the result of the action it named.
    pub open spec fn accepts(self, ev: Event) -> bool {
        match self {
            Workflow::AwaitInsert { .. } => ev is Inserted,
            Workflow::AwaitCachedPage { .. } => ev is CachedPage,
            Workflow::AwaitPage { .. } => ev is Paged,
            Workflow::AwaitCachedStudent { .. } => ev is CachedStudent,
            Workflow::AwaitStudent { .. } => ev is Selected,
            Workflow::AwaitUpdate { .. } => ev is Selected,
            Workflow::AwaitDelete { .. } => ev is Selected,
            Workflow::Trailing { .. } => ev is Completed || ev is Published,
            Workflow::Done => false,
        }
    }

    /// Whether `(w, a)` is how `op` begins.
    pub open spec fn begins(op: Operation, topic: String, w: Workflow, a: Action) -> bool {
        match op {
            Operation::Create(req) => {
                &&& a == Action::InsertStudent(CreateStudentParams {
                    student_number: req.student_number,
                    name: req.name,
                    email: req.email,
                })
                &&& w == Workflow::AwaitInsert { topic }
            },
            Operation::GetAll(q) => {
                &&& a matches Action::ReadCachedPage(k) && k@ == list_key_text(list_page(q) as int, list_per_page(q) as int)
                &&& w matches Workflow::AwaitCachedPage { key, offset, limit } && key@ == list_key_text(list_page(q) as int, list_per_page(q) as int)
                    && offset == list_offset(q) && limit == list_per_page(q)
            },
            Operation::GetByUuid(u) => {
                &&& a matches Action::ReadCachedStudent(k) && k@ == student_key_text(uuid_text(u))
                &&& w matches Workflow::AwaitCachedStudent { uuid, key } && uuid == u && key@ == student_key_text(uuid_text(u))
            },
            Operation::Update(u, req) => {
                &&& a == Action::UpdateStudent(UpdateStudentParams { uuid: u, name: req.name, email: req.email })
                &&& w == Workflow::AwaitUpdate { uuid: u, topic }
            },
            Operation::Delete(u) => {
                &&& a == Action::SoftDeleteStudent(u)
                &&& w == Workflow::AwaitDelete { uuid: u, topic }
            },
        }
    }

    /// Whether `(w2, a)` is what follows `w` on event `ev`.
    pub open spec fn resumes(w: Workflow, ev: Event, w2: Workflow, a: Action) -> bool {
        match w {
            Workflow::AwaitInsert { topic } => match ev {
                Event::Inserted(Err(e)) => w2 is Done && a == Action::Finish(Err(e)),
                Event::Inserted(Ok(s)) => {
                    &&& a matches Action::CacheStudent(k, v, ttl) && k@ == student_key_text(uuid_text(s.uuid))
                        && v == response_of(s) && ttl == 300
                    &&& w2 matches Workflow::Trailing { rest, result }
                        && result == Ok::<Outcome, String>(Outcome::Created(response_of(s)))
                        && invalidate_then_publish(rest@, topic, s.uuid, created_payload(response_of(s)))
                },
                _ => false,
            },
            Workflow::AwaitCachedPage { key, offset, limit } => match ev {
                Event::CachedPage(Some(c)) => w2 is Done && a == Action::Finish(Ok(Outcome::Listed(c.0, c.1))),
                Event::CachedPage(None) => {
                    &&& a == Action::SelectPage(FindAllParams { offset, limit })
                    &&& w2 == Workflow::AwaitPage { key }
                },
                _ => false,
            },
            Workflow::AwaitPage { key } => match ev {
                Event::Paged(Err(e)) => w2 is Done && a == Action::Finish(Err(e)),
                Event::Paged(Ok(found)) => {
                    &&& a matches Action::CachePage(k, v, total, ttl) && k == key
                        && v@ == found.0@.map_values(|s: Student| response_of(s)) && total == found.1 && ttl == 60
                    &&& w2 matches Workflow::Trailing { rest, result } && rest@.len() == 0
                        && (result matches Ok(Outcome::Listed(v2, t2))
                        && v2@ == found.0@.map_values(|s: Student| response_of(s)) && t2 == found.1)
                },
                _ => false,
            },
            Workflow::AwaitCachedStudent { uuid, key } => match ev {
                Event::CachedStudent(Some(c)) => w2 is Done && a == Action::Finish(Ok(Outcome::Fetched(Some(c)))),
                Event::CachedStudent(None) => {
                    &&& a == Action::SelectStudent(uuid)
                    &&& w2 == Workflow::AwaitStudent { key }
                },
                _ => false,
            },
            Workflow::AwaitStudent { key } => match ev {
                Event::Selected(Err(e)) => w2 is Done && a == Action::Finish(Err(e)),
                Event::Selected(Ok(None)) => w2 is Done && a == Action::Finish(Ok(Outcome::Fetched(None))),
                Event::Selected(Ok(Some(s))) => {
                    &&& a == Action::CacheStudent(key, response_of(s), 300)
                    &&& w2 matches Workflow::Trailing { rest, result } && rest@.len() == 0
                        && result == Ok::<Outcome, String>(Outcome::Fetched(Some(response_of(s))))
                },
                _ => false,
            },
            Workflow::AwaitUpdate { uuid, topic } => match ev {
                Event::Selected(Err(e)) => w2 is Done && a == Action::Finish(Err(e)),
                Event::Selected(Ok(None)) => {
                    &&& w2 is Done
                    &&& a matches Action::Finish(Err(m)) && m@ == update_missing_text()
                },
                Event::Selected(Ok(Some(s))) => {
                    &&& a matches Action::CacheStudent(k, v, ttl) && k@ == student_key_text(uuid_text(uuid))
                        && v == response_of(s) && ttl == 300
                    &&& w2 matches Workflow::Trailing { rest, result }
                        && result == Ok::<Outcome, String>(Outcome::Updated(response_of(s)))
                        && invalidate_then_publish(rest@, topic, s.uuid, updated_payload(response_of(s)))
                },
                _ => false,
            },
            Workflow::AwaitDelete { uuid, topic } => match ev {
                Event::Selected(Err(e)) => w2 is Done && a == Action::Finish(Err(e)),
                Event::Selected(Ok(None)) => {
                    &&& w2 is Done
                    &&& a matches Action::Finish(Err(m)) && m@ == delete_missing_text()
                },
                Event::Selected(Ok(Some(s))) => {
                    &&& a matches Action::EvictKey(k) && k@ == student_key_text(uuid_text(uuid))
                    &&& w2 matches Workflow::Trailing { rest, result }
                        && result == Ok::<Outcome, String>(Outcome::Deleted)
                        && invalidate_then_publish(rest@, topic, s.uuid, deleted_payload(s.uuid))
                },
                _ => false,
            },
            Workflow::Trailing { rest, result } => {
                &&& (ev is Completed || ev is Published)
                &&& if rest@.len() == 0 {
                    w2 is Done && a == Action::Finish(result)
                } else {
                    &&& a == rest@[0]
                    &&& w2 matches Workflow::Trailing { rest: r2, result: res2 } && r2@ == rest@.drop_first() && res2 == result
                }
            },
            Workflow::Done => false,
        }
    }
}

/// Writes an event payload.
fn payload(members: Vec<(String, String)>) -> (r: String)
    ensures
        r@ == json_object(pair_texts(members@)),
{
    write_object(&members)
}

fn created_event(r: &StudentResponse) -> (t: String)
    ensures
        t@ == created_payload(*r),
{
    let uuid = uuid_string(r.uuid);
    let mut m: Vec<(String, String)> = Vec::new();
    m.push(("email".to_string(), json_string_literal(r.email.as_str())));
    m.push(("event".to_string(), json_string_literal("STUDENT_CREATED")));
    m.push(("name".to_string(), json_string_literal(r.name.as_str())));
    m.push(("student_number".to_string(), json_string_literal(r.student_number.as_str())));
    m.push(("student_uuid".to_string(), json_string_literal(uuid.as_str())));
    assert(pair_texts(m@) =~= seq![
        ("email"@, json_string(r.email@)),
        ("event"@, json_string("STUDENT_CREATED"@)),
        ("name"@, json_string(r.name@)),
        ("student_number"@, json_string(r.student_number@)),
        ("student_uuid"@, json_string(uuid_text(r.uuid))),
    ]);
    payload(m)
}

fn updated_event(r: &StudentResponse) -> (t: String)
    ensures
        t@ == updated_payload(*r),
{
    let uuid = uuid_string(r.uuid);
    let mut m: Vec<(String, String)> = Vec::new();
    m.push(("email".to_string(), json_string_literal(r.email.as_str())));
    m.push(("event".to_string(), json_string_literal("STUDENT_UPDATED")));
    m.push(("name".to_string(), json_string_literal(r.name.as_str())));
    m.push(("student_uuid".to_string(), json_string_literal(uuid.as_str())));
    assert(pair_texts(m@) =~= seq![
        ("email"@, json_string(r.email@)),
        ("event"@, json_string("STUDENT_UPDATED"@)),
        ("name"@, json_string(r.name@)),
        ("student_uuid"@, json_string(uuid_text(r.uuid))),
    ]);
    payload(m)
}

fn deleted_event(u: u128) -> (t: String)
    ensures
        t@ == deleted_payload(u),
{
    let uuid = uuid_string(u);
    let mut m: Vec<(String, String)> = Vec::new();
    m.push(("event".to_string(), json_string_literal("STUDENT_DELETED")));
    m.push(("student_uuid".to_string(), json_string_literal(uuid.as_str())));
    assert(pair_texts(m@) =~= seq![
        ("event"@, json_string("STUDENT_DELETED"@)),
        ("student_uuid"@, json_string(uuid_text(u))),
    ]);
    payload(m)
}

/// The effects that follow a successful write: drop every cached list
/// page, then publish the event.
fn invalidate_and_publish(topic: String, uuid: u128, event: String) -> (r: Vec<Action>)
    ensures
        invalidate_then_publish(r@, topic, uuid, event@),
{
    let mut r: Vec<Action> = Vec::new();
    r.push(Action::EvictPattern(student_list_pattern()));
    r.push(Action::Publish(topic, uuid_string(uuid), event));
    r
}

impl ListStudentQuery {
    /// Whether the page's offset fits in an `i64` (see [`window_fits`]).
    pub fn window_fits(&self) -> (r: bool)
        ensures
            r == window_fits(*self),
    {
        let (page, per_page) = self.window();
        let a: i128 = page as i128 - 1;
        let b: i128 = per_page as i128;
        assert(0 <= a * b <= 100 * 9223372036854775807) by (nonlinear_arith)
            requires
                0 <= a <= 9223372036854775807,
                1 <= b <= 100,
        ;
        a * b <= i64::MAX as i128
    }

    /// The page number and page size that the query asks for.
    pub fn window(&self) -> (r: (i64, i64))
        ensures
            r.0 == list_page(*self),
            r.1 == list_per_page(*self),
            1 <= r.0,
            1 <= r.1 <= 100,
    {
        let page = match self.page {
            Some(p) => if p < 1 { 1 } else { p },
            None => 1,
        };
        let x = match self.per_page {
            Some(p) => p,
            None => 20,
        };
        let per_page = if x < 1 { 1 } else if x > 100 { 100 } else { x };
        (page, per_page)
    }
}

/// Entry points of the student operations; each begins the operation's
/// workflow (see [`Workflow::begin`]).
pub struct StudentService;

impl StudentService {
    /// Begins creating a student; events are published on `topic`.
    pub fn create(req: CreateStudentRequest, topic: String) -> (r: (Workflow, Action))
        ensures
            Workflow::begins(Operation::Create(req), topic, r.0, r.1),
    {
        Workflow::begin(Operation::Create(req), topic)
    }

    /// Begins reading one page of the student list.
    pub fn get_all(query: ListStudentQuery) -> (r: (Workflow, Action))
        requires
            window_fits(query),
        ensures
            exists|topic: String| #[trigger] Workflow::begins(Operation::GetAll(query), topic, r.0, r.1),
    {
        let topic = String::new();
        let ghost t = topic;
        let r = Workflow::begin(Operation::GetAll(query), topic);
        assert(Workflow::begins(Operation::GetAll(query), t, r.0, r.1));
        r
    }

    /// Begins reading one student.
    pub fn get_by_uuid(uuid: u128) -> (r: (Workflow, Action))
        ensures
            exists|topic: String| #[trigger] Workflow::begins(Operation::GetByUuid(uuid), topic, r.0, r.1),
    {
        let topic = String::new();
        let ghost t = topic;
        let r = Workflow::begin(Operation::GetByUuid(uuid), topic);
        assert(Workflow::begins(Operation::GetByUuid(uuid), t, r.0, r.1));
        r
    }

    /// Begins changing a student; events are published on `topic`.
    pub fn update(uuid: u128, req: UpdateStudentRequest, topic: String) -> (r: (Workflow, Action))
        ensures
            Workflow::begins(Operation::Update(uuid, req), topic, r.0, r.1),
    {
        Workflow::begin(Operation::Update(uuid, req), topic)
    }

    /// Begins deleting a student; events are published on `topic`.
    pub fn delete(uuid: u128, topic: String) -> (r: (Workflow, Action))
        ensures
            Workflow::begins(Operation::Delete(uuid), topic, r.0, r.1),
    {
        Workflow::begin(Operation::Delete(uuid), topic)
    }
}

impl Workflow {
    /// Begins an operation; `topic` is where student events are published.
    pub fn begin(op: Operation, topic: String) -> (r: (Workflow, Action))
        requires
            op matches Operation::GetAll(q) ==> window_fits(q),
        ensures
            Workflow::begins(op, topic, r.0, r.1),
    {
        match op {
            Operation::Create(req) => {
                let params = CreateStudentParams {
                    student_number: req.student_number,
                    name: req.name,
                    email: req.email,
                };
                (Workflow::AwaitInsert { topic }, Action::InsertStudent(params))
            },
            Operation::GetAll(q) => {
                let (page, per_page) = q.window();
                let offset: i64 = (page - 1) * per_page;
                let key = students_list_key(page, per_page);
                let key2 = key.clone();
                (Workflow::AwaitCachedPage { key: key2, offset, limit: per_page }, Action::ReadCachedPage(key))
            },
            Operation::GetByUuid(u) => {
                let text = uuid_string(u);
                let key = student_key(text.as_str());
                let key2 = key.clone();
                (Workflow::AwaitCachedStudent { uuid: u, key: key2 }, Action::ReadCachedStudent(key))
            },
            Operation::Update(u, req) => {
                let params = UpdateStudentParams { uuid: u, name: req.name, email: req.email };
                (Workflow::AwaitUpdate { uuid: u, topic }, Action::UpdateStudent(params))
            },
            Operation::Delete(u) => {
                (Workflow::AwaitDelete { uuid: u, topic }, Action::SoftDeleteStudent(u))
            },
        }
    }

    /// Whether the state takes `ev` as the result of the action it named.
    pub fn takes(&self, ev: &Event) -> (r: bool)
        ensures
            r == self.accepts(*ev),
    {
        match self {
            Workflow::AwaitInsert { .. } => matches!(ev, Event::Inserted(_)),
            Workflow::AwaitCachedPage { .. } => matches!(ev, Event::CachedPage(_)),
            Workflow::AwaitPage { .. } => matches!(ev, Event::Paged(_)),
            Workflow::AwaitCachedStudent { .. } => matches!(ev, Event::CachedStudent(_)),
            Workflow::AwaitStudent { .. } => matches!(ev, Event::Selected(_)),
            Workflow::AwaitUpdate { .. } => matches!(ev, Event::Selected(_)),
            Workflow::AwaitDelete { .. } => matches!(ev, Event::Selected(_)),
            Workflow::Trailing { .. } => matches!(ev, Event::Completed) || matches!(ev, Event::Published(_)),
            Workflow::Done => false,
        }
    }

    /// The next state and action after the result `ev` of the last action.
    pub fn resume(self, ev: Event) -> (r: (Workflow, Action))
        requires
            self.accepts(ev),
        ensures
            Workflow::resumes(self, ev, r.0, r.1),
    {
        match self {
            Workflow::AwaitInsert { topic } => match ev {
                Event::Inserted(Err(e)) => (Workflow::Done, Action::Finish(Err(e))),
                Event::Inserted(Ok(s)) => {
                    let r = StudentResponse::from(s);
                    let text = uuid_string(r.uuid);
                    let key = student_key(text.as_str());
                    let event = created_event(&r);
                    let rest = invalidate_and_publish(topic, r.uuid, event);
                    let cached = r.duplicate();
                    (Workflow::Trailing { rest, result: Ok(Outcome::Created(r)) }, Action::CacheStudent(key, cached, STUDENT_TTL))
                },
                _ => unreached(),
            },
            Workflow::AwaitCachedPage { key, offset, limit } => match ev {
                Event::CachedPage(Some(c)) => (Workflow::Done, Action::Finish(Ok(Outcome::Listed(c.0, c.1)))),
                Event::CachedPage(None) => (Workflow::AwaitPage { key }, Action::SelectPage(FindAllParams { offset, limit })),
                _ => unreached(),
            },
            Workflow::AwaitPage { key } => match ev {
                Event::Paged(Err(e)) => (Workflow::Done, Action::Finish(Err(e))),
                Event::Paged(Ok(found)) => {
                    let (students, total) = found;
                    let list = responses_of(students);
                    let cached = duplicate_all(&list);
                    (Workflow::Trailing { rest: Vec::new(), result: Ok(Outcome::Listed(list, total)) },
                        Action::CachePage(key, cached, total, STUDENT_LIST_TTL))
                },
                _ => unreached(),
            },
            Workflow::AwaitCachedStudent { uuid, key } => match ev {
                Event::CachedStudent(Some(c)) => (Workflow::Done, Action::Finish(Ok(Outcome::Fetched(Some(c))))),
                Event::CachedStudent(None) => (Workflow::AwaitStudent { key }, Action::SelectStudent(uuid)),
                _ => unreached(),
            },
            Workflow::AwaitStudent { key } => match ev {
                Event::Selected(Err(e)) => (Workflow::Done, Action::Finish(Err(e))),
                Event::Selected(Ok(None)) => (Workflow::Done, Action::Finish(Ok(Outcome::Fetched(None)))),
                Event::Selected(Ok(Some(s))) => {
                    let r = StudentResponse::from(s);
                    let cached = r.duplicate();
                    (Workflow::Trailing { rest: Vec::new(), result: Ok(Outcome::Fetched(Some(r))) },
                        Action::CacheStudent(key, cached, STUDENT_TTL))
                },
                _ => unreached(),
            },
            Workflow::AwaitUpdate { uuid, topic } => match ev {
                Event::Selected(Err(e)) => (Workflow::Done, Action::Finish(Err(e))),
                Event::Selected(Ok(None)) => (Workflow::Done, Action::Finish(Err("not_found: student not found".to_string()))),
                Event::Selected(Ok(Some(s))) => {
                    let r = StudentResponse::from(s);
                    let text = uuid_string(uuid);
                    let key = student_key(text.as_str());
                    let event = updated_event(&r);
                    let rest = invalidate_and_publish(topic, r.uuid, event);
                    let cached = r.duplicate();
                    (Workflow::Trailing { rest, result: Ok(Outcome::Updated(r)) }, Action::CacheStudent(key, cached, STUDENT_TTL))
                },
                _ => unreached(),
            },
            Workflow::AwaitDelete { uuid, topic } => match ev {
                Event::Selected(Err(e)) => (Workflow::Done, Action::Finish(Err(e))),
                Event::Selected(Ok(None)) => (Workflow::Done, Action::Finish(Err("not_found: student does not exist".to_string()))),
                Event::Selected(Ok(Some(s))) => {
                    let text = uuid_string(uuid);
                    let key = student_key(text.as_str());
                    let event = deleted_event(s.uuid);
                    let rest = invalidate_and_publish(topic, s.uuid, event);
                    (Workflow::Trailing { rest, result: Ok(Outcome::Deleted) }, Action::EvictKey(key))
                },
                _ => unreached(),
            },
            Workflow::Trailing { rest, result } => {
                let mut rest = rest;
                if rest.len() == 0 {
                    (Workflow::Done, Action::Finish(result))
                } else {
                    let next = rest.remove(0);
                    (Workflow::Trailing { rest, result }, next)
                }
            },
            Workflow::Done => unreached(),
        }
    }
}


/// Whether `ev` is the kind of result that action `a` produces.
pub open spec fn answers(a: Action, ev: Event) -> bool {
    match a {
        Action::InsertStudent(_) => ev is Inserted,
        Action::SelectPage(_) => ev is Paged,
        Action::SelectStudent(_) => ev is Selected,
        Action::UpdateStudent(_) => ev is Selected,
        Action::SoftDeleteStudent(_) => ev is Selected,
        Action::ReadCachedStudent(_) => ev is CachedStudent,
        Action::ReadCachedPage(_) => ev is CachedPage,
        Action::CacheStudent(..) => ev is Completed,
        Action::CachePage(..) => ev is Completed,
        Action::EvictKey(_) => ev is Completed,
        Action::EvictPattern(_) => ev is Completed,
        Action::Publish(..) => ev is Published,
        Action::Finish(_) => false,
    }
}

/// Whether an action is a side effect whose result does not change the
/// outcome (a cache write or eviction, or publishing an event).
pub open spec fn is_side_effect(a: Action) -> bool {
    a is CacheStudent || a is CachePage || a is EvictKey || a is EvictPattern || a is Publish
}

impl Workflow {
    /// The pending side effects of a `Trailing` state are side effects.
    pub open spec fn well_formed(self) -> bool {
        match self {
            Workflow::Trailing { rest, .. } => forall|i: int| 0 <= i < rest@.len() ==> is_side_effect(#[trigger] rest@[i]),
            _ => true,
        }
    }
}

/// Every operation begins with a query of the database or a read of the
/// cache, and its state takes the result of that action.
pub proof fn lemma_begin_then_answer(op: Operation, topic: String, w: Workflow, a: Action, ev: Event)
    requires
        Workflow::begins(op, topic, w, a),
    ensures
        !(a is Finish),
        !is_side_effect(a),
        w.well_formed(),
        answers(a, ev) ==> w.accepts(ev),
{
}

/// Each step either finishes the operation, leaving nothing more to take,
/// or names an action whose result the new state takes; well-formed states
/// stay well formed.
pub proof fn lemma_resume_then_answer(w: Workflow, ev: Event, w2: Workflow, a: Action, ev2: Event)
    requires
        w.well_formed(),
        w.accepts(ev),
        Workflow::resumes(w, ev, w2, a),
    ensures
        w2.well_formed(),
        a is Finish <==> w2 is Done,
        !(a is Finish) && answers(a, ev2) ==> w2.accepts(ev2),
{
    match w {
        Workflow::Trailing { rest, result } => {
            if rest@.len() > 0 {
                assert(is_side_effect(rest@[0]));
                if let Workflow::Trailing { rest: r2, result: res2 } = w2 {
                    assert forall|i: int| 0 <= i < r2@.len() implies is_side_effect(#[trigger] r2@[i]) by {
                        assert(r2@[i] == rest@[i + 1]);
                    }
                }
            }
        },
        _ => {},
    }
}

impl Workflow {
    /// An upper bound on the number of actions still to come before `Finish`.
    pub open spec fn steps_left(self) -> nat {
        match self {
            Workflow::AwaitInsert { .. } => 4,
            Workflow::AwaitUpdate { .. } => 4,
            Workflow::AwaitDelete { .. } => 4,
            Workflow::AwaitCachedPage { .. } => 3,
            Workflow::AwaitCachedStudent { .. } => 3,
            Workflow::AwaitPage { .. } => 2,
            Workflow::AwaitStudent { .. } => 2,
            Workflow::Trailing { rest, .. } => rest@.len() + 1,
            Workflow::Done => 0,
        }
    }
}

/// Every operation ends: it begins with at most four more steps to come,
/// and each step leaves fewer, so at most five actions precede `Finish`.
pub proof fn lemma_operations_finish(op: Operation, topic: String, w: Workflow, a: Action, ev: Event, w2: Workflow, a2: Action)
    ensures
        Workflow::begins(op, topic, w, a) ==> w.steps_left() <= 4,
        Workflow::resumes(w, ev, w2, a2) ==> w2.steps_left() < w.steps_left(),
{
}

/// The result of a failed database call in a state that waits for one.
pub open spec fn database_failure(w: Workflow, e: String) -> Event {
    match w {
        Workflow::AwaitInsert { .. } => Event::Inserted(Err(e)),
        Workflow::AwaitPage { .. } => Event::Paged(Err(e)),
        _ => Event::Selected(Err(e)),
    }
}

/// A failed database call is reported with its own message and ends the
/// operation: nothing is cached, evicted or published.
pub proof fn lemma_database_failure_is_reported(w: Workflow, e: String, w2: Workflow, a: Action)
    requires
        w is AwaitInsert || w is AwaitPage || w is AwaitStudent || w is AwaitUpdate || w is AwaitDelete,
        Workflow::resumes(w, database_failure(w, e), w2, a),
    ensures
        a == Action::Finish(Err(e)),
        w2 is Done,
{
}

/// A read that finds its answer in the cache returns it without asking
/// the database.
pub proof fn lemma_cache_hit_skips_database(w: Workflow, ev: Event, w2: Workflow, a: Action)
    requires
        w is AwaitCachedStudent || w is AwaitCachedPage,
        ev matches Event::CachedStudent(Some(_)) || ev matches Event::CachedPage(Some(_)),
        w.accepts(ev),
        Workflow::resumes(w, ev, w2, a),
    ensures
        a is Finish,
        w2 is Done,
        match (ev, a) {
            (Event::CachedStudent(Some(c)), Action::Finish(r)) => r == Ok::<Outcome, String>(Outcome::Fetched(Some(c))),
            (Event::CachedPage(Some(c)), Action::Finish(r)) => r == Ok::<Outcome, String>(Outcome::Listed(c.0, c.1)),
            _ => false,
        },
{
}

/// Changing or deleting a student that does not exist fails with a
/// message that the handlers answer as `404 Not Found`.
pub proof fn lemma_missing_student_is_not_found(w: Workflow, w2: Workflow, a: Action)
    requires
        w is AwaitUpdate || w is AwaitDelete,
        Workflow::resumes(w, Event::Selected(Ok(None)), w2, a),
    ensures
        a matches Action::Finish(Err(m)) && failure_error(m) is NotFound && failure_error(m).status_of() == 404,
        w is AwaitUpdate ==> (a matches Action::Finish(Err(m)) && m@ == "not_found: student not found"@),
        w is AwaitDelete ==> (a matches Action::Finish(Err(m)) && m@ == "not_found: student does not exist"@),
{
    reveal_strlit("not_found: student not found");
    reveal_strlit("not_found: student does not exist");
    reveal_strlit("not_found");
    if let Action::Finish(Err(m)) = a {
        assert("not_found"@.len() == 9);
        assert(m@.subrange(0int, 0int + "not_found"@.len()) =~= "not_found"@);
        assert(has_substring(m@, "not_found"@));
    }
}

/// Creating a student, once the row is stored, caches the response that is
/// returned under the student's key, drops every cached list page, and
/// publishes `STUDENT_CREATED` on the topic, whatever the cache and the
/// broker answer; then it succeeds with that response.
pub proof fn lemma_create_trace(
    req: CreateStudentRequest, topic: String, s: Student,
    w0: Workflow, a0: Action, w1: Workflow, a1: Action,
    ev2: Event, w2: Workflow, a2: Action,
    ev3: Event, w3: Workflow, a3: Action,
    ev4: Event, w4: Workflow, a4: Action,
)
    requires
        Workflow::begins(Operation::Create(req), topic, w0, a0),
        Workflow::resumes(w0, Event::Inserted(Ok(s)), w1, a1),
        Workflow::resumes(w1, ev2, w2, a2),
        Workflow::resumes(w2, ev3, w3, a3),
        Workflow::resumes(w3, ev4, w4, a4),
    ensures
        a0 is InsertStudent,
        a1 matches Action::CacheStudent(k, v, ttl) && k@ == student_key_text(uuid_text(s.uuid))
            && v == response_of(s) && ttl == 300,
        a2 matches Action::EvictPattern(p) && (forall|page: int, per_page: int|
            matches_prefix_pattern(p@, #[trigger] crate::keys::list_key_text(page, per_page))),
        a3 matches Action::Publish(t, k, m) && t == topic && k@ == uuid_text(s.uuid)
            && m@ == created_payload(response_of(s)),
        a4 == Action::Finish(Ok(Outcome::Created(response_of(s)))),
        w4 is Done,
{
    assert forall|page: int, per_page: int| #[trigger] crate::keys::list_key_text(page, per_page) == crate::keys::list_key_text(page, per_page)
        implies matches_prefix_pattern(list_pattern_text(), crate::keys::list_key_text(page, per_page)) by {
        lemma_list_pattern_scope(page, per_page, Seq::empty());
    }
}

/// Changing a student that exists caches the new response under the key
/// that reading that student looks up, drops every cached list page, and
/// publishes `STUDENT_UPDATED`; then it succeeds with the new response.
pub proof fn lemma_update_trace(
    u: u128, req: UpdateStudentRequest, topic: String, s: Student,
    w0: Workflow, a0: Action, w1: Workflow, a1: Action,
    ev2: Event, w2: Workflow, a2: Action,
    ev3: Event, w3: Workflow, a3: Action,
    ev4: Event, w4: Workflow, a4: Action,
    rw: Workflow, ra: Action,
)
    requires
        Workflow::begins(Operation::Update(u, req), topic, w0, a0),
        Workflow::resumes(w0, Event::Selected(Ok(Some(s))), w1, a1),
        Workflow::resumes(w1, ev2, w2, a2),
        Workflow::resumes(w2, ev3, w3, a3),
        Workflow::resumes(w3, ev4, w4, a4),
        Workflow::begins(Operation::GetByUuid(u), topic, rw, ra),
    ensures
        a0 is UpdateStudent,
        a1 matches Action::CacheStudent(k, v, ttl) && ra matches Action::ReadCachedStudent(rk) && k@ == rk@
            && v == response_of(s) && ttl == 300,
        a2 matches Action::EvictPattern(p) && (forall|page: int, per_page: int|
            matches_prefix_pattern(p@, #[trigger] crate::keys::list_key_text(page, per_page))),
        a3 matches Action::Publish(t, k, m) && t == topic && k@ == uuid_text(s.uuid)
            && m@ == updated_payload(response_of(s)),
        a4 == Action::Finish(Ok(Outcome::Updated(response_of(s)))),
        w4 is Done,
{
    assert forall|page: int, per_page: int| #[trigger] crate::keys::list_key_text(page, per_page) == crate::keys::list_key_text(page, per_page)
        implies matches_prefix_pattern(list_pattern_text(), crate::keys::list_key_text(page, per_page)) by {
        lemma_list_pattern_scope(page, per_page, Seq::empty());
    }
}

/// Deleting a student that exists drops the key that reading that student
/// looks up, drops every cached list page, and publishes
/// `STUDENT_DELETED`; then it succeeds.
pub proof fn lemma_delete_trace(
    u: u128, topic: String, s: Student,
    w0: Workflow, a0: Action, w1: Workflow, a1: Action,
    ev2: Event, w2: Workflow, a2: Action,
    ev3: Event, w3: Workflow, a3: Action,
    ev4: Event, w4: Workflow, a4: Action,
    rw: Workflow, ra: Action,
)
    requires
        Workflow::begins(Operation::Delete(u), topic, w0, a0),
        Workflow::resumes(w0, Event::Selected(Ok(Some(s))), w1, a1),
        Workflow::resumes(w1, ev2, w2, a2),
        Workflow::resumes(w2, ev3, w3, a3),
        Workflow::resumes(w3, ev4, w4, a4),
        Workflow::begins(Operation::GetByUuid(u), topic, rw, ra),
    ensures
        a0 == Action::SoftDeleteStudent(u),
        a1 matches Action::EvictKey(k) && ra matches Action::ReadCachedStudent(rk) && k@ == rk@,
        a2 matches Action::EvictPattern(p) && (forall|page: int, per_page: int|
            matches_prefix_pattern(p@, #[trigger] crate::keys::list_key_text(page, per_page))),
        a3 matches Action::Publish(t, k, m) && t == topic && k@ == uuid_text(s.uuid)
            && m@ == deleted_payload(s.uuid),
        a4 == Action::Finish(Ok(Outcome::Deleted)),
        w4 is Done,
{
    assert forall|page: int, per_page: int| #[trigger] crate::keys::list_key_text(page, per_page) == crate::keys::list_key_text(page, per_page)
        implies matches_prefix_pattern(list_pattern_text(), crate::keys::list_key_text(page, per_page)) by {
        lemma_list_pattern_scope(page, per_page, Seq::empty());
    }
}


/// Reading a student that is not cached fetches it by its UUID and, when
/// it exists, caches it under the very key that was looked up before
/// returning it.
pub proof fn lemma_get_miss_fills_cache(
    u: u128, topic: String, s: Student,
    w0: Workflow, a0: Action, w1: Workflow, a1: Action,
    w2: Workflow, a2: Action, ev3: Event, w3: Workflow, a3: Action,
)
    requires
        Workflow::begins(Operation::GetByUuid(u), topic, w0, a0),
        Workflow::resumes(w0, Event::CachedStudent(None), w1, a1),
        Workflow::resumes(w1, Event::Selected(Ok(Some(s))), w2, a2),
        Workflow::resumes(w2, ev3, w3, a3),
    ensures
        a1 == Action::SelectStudent(u),
        a0 matches Action::ReadCachedStudent(k0) && a2 matches Action::CacheStudent(k2, v, ttl)
            && k0@ == k2@ && v == response_of(s) && ttl == 300,
        a3 == Action::Finish(Ok(Outcome::Fetched(Some(response_of(s))))),
        w3 is Done,
{
}

/// Listing a page that is not cached reads the window that the query asks
/// for and caches the page under the key that was looked up, for 60
/// seconds, before returning it.
pub proof fn lemma_list_miss_fills_cache(
    q: ListStudentQuery, topic: String, found: (Vec<Student>, i64),
    w0: Workflow, a0: Action, w1: Workflow, a1: Action,
    w2: Workflow, a2: Action, ev3: Event, w3: Workflow, a3: Action,
)
    requires
        Workflow::begins(Operation::GetAll(q), topic, w0, a0),
        Workflow::resumes(w0, Event::CachedPage(None), w1, a1),
        Workflow::resumes(w1, Event::Paged(Ok(found)), w2, a2),
        Workflow::resumes(w2, ev3, w3, a3),
    ensures
        a1 == Action::SelectPage(FindAllParams { offset: list_offset(q) as i64, limit: list_per_page(q) }),
        a0 matches Action::ReadCachedPage(k0) && a2 matches Action::CachePage(k2, v, total, ttl)
            && k0@ == k2@ && v@ == found.0@.map_values(|s: Student| response_of(s)) && total == found.1 && ttl == 60,
        a3 matches Action::Finish(Ok(Outcome::Listed(v3, t3))) && v3@ == found.0@.map_values(|s: Student| response_of(s))
            && t3 == found.1,
        w3 is Done,
{
}


/// Beginning a create inserts exactly the request's student number, name
/// and e-mail, and waits for the row on the given topic.
pub proof fn lemma_begin_create_carries_request(req: CreateStudentRequest, topic: String, w: Workflow, a: Action)
    requires
        Workflow::begins(Operation::Create(req), topic, w, a),
    ensures
        a matches Action::InsertStudent(p) && p.student_number == req.student_number && p.name == req.name
            && p.email == req.email,
        w matches Workflow::AwaitInsert { topic: t } && t == topic,
{
}

/// Beginning an update changes exactly the student named by the path, with
/// the request's name and e-mail (each absent one left absent).
pub proof fn lemma_begin_update_carries_request(u: u128, req: UpdateStudentRequest, topic: String, w: Workflow, a: Action)
    requires
        Workflow::begins(Operation::Update(u, req), topic, w, a),
    ensures
        a matches Action::UpdateStudent(p) && p.uuid == u && p.name == req.name && p.email == req.email,
        w matches Workflow::AwaitUpdate { uuid, topic: t } && uuid == u && t == topic,
{
}

/// Beginning a deletion marks exactly the student named by the path.
pub proof fn lemma_begin_delete_carries_request(u: u128, topic: String, w: Workflow, a: Action)
    requires
        Workflow::begins(Operation::Delete(u), topic, w, a),
    ensures
        a matches Action::SoftDeleteStudent(x) && x == u,
        w matches Workflow::AwaitDelete { uuid, topic: t } && uuid == u && t == topic,
{
}

/// Reading a student first looks in the cache under `student:` followed by
/// the student's UUID text, and later reads that same student.
pub proof fn lemma_begin_get_looks_up_student(u: u128, topic: String, w: Workflow, a: Action)
    requires
        Workflow::begins(Operation::GetByUuid(u), topic, w, a),
    ensures
        a matches Action::ReadCachedStudent(k) && k@ == "student:"@ + uuid_text(u),
        w matches Workflow::AwaitCachedStudent { uuid, key } && uuid == u && key@ == "student:"@ + uuid_text(u),
{
}

/// Reading a page first looks in the cache under
/// `students:list:{page}:{per_page}`, where the page is the query's page
/// (1 when absent, and at least 1) and the size the query's size (20 when
/// absent, bounded to 1..=100); the database window then starts after
/// `(page - 1) * per_page` students and holds `per_page` of them.
pub proof fn lemma_begin_list_window(q: ListStudentQuery, topic: String, w: Workflow, a: Action)
    requires
        Workflow::begins(Operation::GetAll(q), topic, w, a),
    ensures
        ({
            let page: int = match q.page { Some(p) => if p >= 1 { p as int } else { 1 }, None => 1 };
            let asked: int = match q.per_page { Some(p) => p as int, None => 20 };
            let size: int = if asked < 1 { 1 } else if asked > 100 { 100 } else { asked };
            &&& a matches Action::ReadCachedPage(k) && k@ == "students:list:"@ + int_text(page) + ":"@ + int_text(size)
            &&& w matches Workflow::AwaitCachedPage { key, offset, limit } && key@ == "students:list:"@
                + int_text(page) + ":"@ + int_text(size) && offset == (page - 1) * size && limit == size
        }),
{
}

/// The event published for a created student, written out member by
/// member: its e-mail, the event name, its name, number and UUID.
pub proof fn lemma_created_payload_fields(r: StudentResponse)
    ensures
        created_payload(r) == seq!['{']
            + json_member("email"@, json_string(r.email@)) + seq![',']
            + json_member("event"@, json_string("STUDENT_CREATED"@)) + seq![',']
            + json_member("name"@, json_string(r.name@)) + seq![',']
            + json_member("student_number"@, json_string(r.student_number@)) + seq![',']
            + json_member("student_uuid"@, json_string(uuid_text(r.uuid))) + seq!['}'],
{
    let m0 = Seq::<(Seq<char>, Seq<char>)>::empty();
    let m1 = m0.push(("email"@, json_string(r.email@)));
    let m2 = m1.push(("event"@, json_string("STUDENT_CREATED"@)));
    let m3 = m2.push(("name"@, json_string(r.name@)));
    let m4 = m3.push(("student_number"@, json_string(r.student_number@)));
    let m5 = m4.push(("student_uuid"@, json_string(uuid_text(r.uuid))));
    lemma_members_push(m0, "email"@, json_string(r.email@));
    lemma_members_push(m1, "event"@, json_string("STUDENT_CREATED"@));
    lemma_members_push(m2, "name"@, json_string(r.name@));
    lemma_members_push(m3, "student_number"@, json_string(r.student_number@));
    lemma_members_push(m4, "student_uuid"@, json_string(uuid_text(r.uuid)));
    assert(m5 =~= seq![
        ("email"@, json_string(r.email@)),
        ("event"@, json_string("STUDENT_CREATED"@)),
        ("name"@, json_string(r.name@)),
        ("student_number"@, json_string(r.student_number@)),
        ("student_uuid"@, json_string(uuid_text(r.uuid))),
    ]);
    assert(created_payload(r) =~= seq!['{']
            + json_member("email"@, json_string(r.email@)) + seq![',']
            + json_member("event"@, json_string("STUDENT_CREATED"@)) + seq![',']
            + json_member("name"@, json_string(r.name@)) + seq![',']
            + json_member("student_number"@, json_string(r.student_number@)) + seq![',']
            + json_member("student_uuid"@, json_string(uuid_text(r.uuid))) + seq!['}']);
}

/// The event published for a changed student, member by member.
pub proof fn lemma_updated_payload_fields(r: StudentResponse)
    ensures
        updated_payload(r) == seq!['{']
            + json_member("email"@, json_string(r.email@)) + seq![',']
            + json_member("event"@, json_string("STUDENT_UPDATED"@)) + seq![',']
            + json_member("name"@, json_string(r.name@)) + seq![',']
            + json_member("student_uuid"@, json_string(uuid_text(r.uuid))) + seq!['}'],
{
    let m0 = Seq::<(Seq<char>, Seq<char>)>::empty();
    let m1 = m0.push(("email"@, json_string(r.email@)));
    let m2 = m1.push(("event"@, json_string("STUDENT_UPDATED"@)));
    let m3 = m2.push(("name"@, json_string(r.name@)));
    let m4 = m3.push(("student_uuid"@, json_string(uuid_text(r.uuid))));
    lemma_members_push(m0, "email"@, json_string(r.email@));
    lemma_members_push(m1, "event"@, json_string("STUDENT_UPDATED"@));
    lemma_members_push(m2, "name"@, json_string(r.name@));
    lemma_members_push(m3, "student_uuid"@, json_string(uuid_text(r.uuid)));
    assert(m4 =~= seq![
        ("email"@, json_string(r.email@)),
        ("event"@, json_string("STUDENT_UPDATED"@)),
        ("name"@, json_string(r.name@)),
        ("student_uuid"@, json_string(uuid_text(r.uuid))),
    ]);
    assert(updated_payload(r) =~= seq!['{']
            + json_member("email"@, json_string(r.email@)) + seq![',']
            + json_member("event"@, json_string("STUDENT_UPDATED"@)) + seq![',']
            + json_member("name"@, json_string(r.name@)) + seq![',']
            + json_member("student_uuid"@, json_string(uuid_text(r.uuid))) + seq!['}']);
}

/// The event published for a deleted student: the event name and its UUID.
pub proof fn lemma_deleted_payload_fields(u: u128)
    ensures
        deleted_payload(u) == seq!['{']
            + json_member("event"@, json_string("STUDENT_DELETED"@)) + seq![',']
            + json_member("student_uuid"@, json_string(uuid_text(u))) + seq!['}'],
{
    let m0 = Seq::<(Seq<char>, Seq<char>)>::empty();
    let m1 = m0.push(("event"@, json_string("STUDENT_DELETED"@)));
    let m2 = m1.push(("student_uuid"@, json_string(uuid_text(u))));
    lemma_members_push(m0, "event"@, json_string("STUDENT_DELETED"@));
    lemma_members_push(m1, "student_uuid"@, json_string(uuid_text(u)));
    assert(m2 =~= seq![
        ("event"@, json_string("STUDENT_DELETED"@)),
        ("student_uuid"@, json_string(uuid_text(u))),
    ]);
    assert(deleted_payload(u) =~= seq!['{']
            + json_member("event"@, json_string("STUDENT_DELETED"@)) + seq![',']
            + json_member("student_uuid"@, json_string(uuid_text(u))) + seq!['}']);
}

} // verus!
