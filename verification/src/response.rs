//! JSON bodies of successful responses and of the health endpoints.

use vstd::prelude::*;
use crate::text::{int_text, i64_text};
use crate::json::{json_member, lemma_members_push, lemma_joined_push, json_object, json_string, json_array, json_bool, pair_texts, json_string_literal,
    write_object, write_array};
use crate::keys::{uuid_text, uuid_string};
use crate::dto::StudentResponse;

verus! {

/// The JSON object of a student, members in key order as the JSON value
/// that the service builds holds them.
pub open spec fn student_json_text(r: StudentResponse) -> Seq<char> {
    json_object(seq![
        ("created_at"@, json_string(r.created_at@)),
        ("email"@, json_string(r.email@)),
        ("name"@, json_string(r.name@)),
        ("student_number"@, json_string(r.student_number@)),
        ("updated_at"@, json_string(r.updated_at@)),
        ("uuid"@, json_string(uuid_text(r.uuid))),
    ])
}

/// The JSON array of a list of students.
pub open spec fn students_json_text(v: Seq<StudentResponse>) -> Seq<char> {
    json_array(v.map_values(|r: StudentResponse| student_json_text(r)))
}

/// The body of a successful response carrying `data`.
pub open spec fn success_text(message: Seq<char>, data: Seq<char>) -> Seq<char> {
    json_object(seq![
        ("data"@, data),
        ("message"@, json_string(message)),
        ("success"@, json_bool(true)),
    ])
}

/// The body of a successful response carrying one page of a list.
pub open spec fn paginated_text(message: Seq<char>, data: Seq<char>, total: i64, page: i64, per_page: i64, total_pages: i64) -> Seq<char> {
    json_object(seq![
        ("data"@, data),
        ("message"@, json_string(message)),
        ("meta"@, json_object(seq![
            ("page"@, int_text(page as int)),
            ("per_page"@, int_text(per_page as int)),
            ("total"@, int_text(total as int)),
            ("total_pages"@, int_text(total_pages as int)),
        ])),
        ("success"@, json_bool(true)),
    ])
}

/// Writes the JSON object of a student.
pub fn student_json(r: &StudentResponse) -> (t: String)
    ensures
        t@ == student_json_text(*r),
{
    let uuid = uuid_string(r.uuid);
    let mut members: Vec<(String, String)> = Vec::new();
    members.push(("created_at".to_string(), json_string_literal(r.created_at.as_str())));
    members.push(("email".to_string(), json_string_literal(r.email.as_str())));
    members.push(("name".to_string(), json_string_literal(r.name.as_str())));
    members.push(("student_number".to_string(), json_string_literal(r.student_number.as_str())));
    members.push(("updated_at".to_string(), json_string_literal(r.updated_at.as_str())));
    members.push(("uuid".to_string(), json_string_literal(uuid.as_str())));
    assert(pair_texts(members@) =~= seq![
        ("created_at"@, json_string(r.created_at@)),
        ("email"@, json_string(r.email@)),
        ("name"@, json_string(r.name@)),
        ("student_number"@, json_string(r.student_number@)),
        ("updated_at"@, json_string(r.updated_at@)),
        ("uuid"@, json_string(uuid_text(r.uuid))),
    ]);
    write_object(&members)
}

/// Writes the JSON array of a list of students.
pub fn students_json(v: &Vec<StudentResponse>) -> (t: String)
    ensures
        t@ == students_json_text(v@),
{
    let mut items: Vec<String> = Vec::new();
    let mut i: usize = 0;
    while i < v.len()
        invariant
            i <= v@.len(),
            items@.len() == i,
            forall|k: int| 0 <= k < i ==> #[trigger] items@[k]@ == student_json_text(v@[k]),
        decreases v@.len() - i,
    {
        items.push(student_json(&v[i]));
        i = i + 1;
    }
    assert(items@.map_values(|s: String| s@) =~= v@.map_values(|r: StudentResponse| student_json_text(r)));
    write_array(&items)
}

fn true_text() -> (r: String)
    ensures
        r@ == json_bool(true),
{
    proof {
        reveal_strlit("true");
    }
    let r = "true".to_string();
    assert(r@ =~= json_bool(true));
    r
}

/// `{"data": data, "message": message, "success": true}` where `data` is
/// JSON text.
pub fn success(message: &str, data: String) -> (r: String)
    ensures
        r@ == success_text(message@, data@),
{
    let mut members: Vec<(String, String)> = Vec::new();
    members.push(("data".to_string(), data));
    members.push(("message".to_string(), json_string_literal(message)));
    members.push(("success".to_string(), true_text()));
    assert(pair_texts(members@) =~= seq![
        ("data"@, data@),
        ("message"@, json_string(message@)),
        ("success"@, json_bool(true)),
    ]);
    write_object(&members)
}

/// A successful response with a page of data and the page's place in the
/// whole list.
pub fn success_paginated(message: &str, data: String, total: i64, page: i64, per_page: i64, total_pages: i64) -> (r: String)
    ensures
        r@ == paginated_text(message@, data@, total, page, per_page, total_pages),
{
    let mut meta: Vec<(String, String)> = Vec::new();
    meta.push(("page".to_string(), i64_text(page)));
    meta.push(("per_page".to_string(), i64_text(per_page)));
    meta.push(("total".to_string(), i64_text(total)));
    meta.push(("total_pages".to_string(), i64_text(total_pages)));
    assert(pair_texts(meta@) =~= seq![
        ("page"@, int_text(page as int)),
        ("per_page"@, int_text(per_page as int)),
        ("total"@, int_text(total as int)),
        ("total_pages"@, int_text(total_pages as int)),
    ]);
    let meta_text = write_object(&meta);
    let mut members: Vec<(String, String)> = Vec::new();
    members.push(("data".to_string(), data));
    members.push(("message".to_string(), json_string_literal(message)));
    members.push(("meta".to_string(), meta_text));
    members.push(("success".to_string(), true_text()));
    assert(pair_texts(members@) =~= seq![
        ("data"@, data@),
        ("message"@, json_string(message@)),
        ("meta"@, json_object(seq![
            ("page"@, int_text(page as int)),
            ("per_page"@, int_text(per_page as int)),
            ("total"@, int_text(total as int)),
            ("total_pages"@, int_text(total_pages as int)),
        ])),
        ("success"@, json_bool(true)),
    ]);
    write_object(&members)
}

/// Body of the liveness check.
pub open spec fn live_text() -> Seq<char> {
    json_object(seq![("status"@, json_string("ok"@))])
}

/// The word for one dependency's check.
pub open spec fn check_word(ok: bool) -> Seq<char> {
    if ok { "ok"@ } else { "fail"@ }
}

/// Body of the readiness check.
pub open spec fn ready_text(db_ok: bool, redis_ok: bool) -> Seq<char> {
    json_object(seq![
        ("checks"@, json_object(seq![
            ("database"@, json_string(check_word(db_ok))),
            ("redis"@, json_string(check_word(redis_ok))),
        ])),
        ("status"@, json_string(if db_ok && redis_ok { "ready"@ } else { "not ready"@ })),
    ])
}

/// Liveness: always status 200 with `{"status":"ok"}`.
pub fn health_live() -> (r: (u16, String))
    ensures
        r.0 == 200,
        r.1@ == live_text(),
{
    let mut members: Vec<(String, String)> = Vec::new();
    members.push(("status".to_string(), json_string_literal("ok")));
    assert(pair_texts(members@) =~= seq![("status"@, json_string("ok"@))]);
    (200, write_object(&members))
}

/// Readiness from the results of the database and cache checks: status
/// 200 when both pass and 503 otherwise, with the outcome of each check.
pub fn health_ready(db_ok: bool, redis_ok: bool) -> (r: (u16, String))
    ensures
        r.0 == (if db_ok && redis_ok { 200u16 } else { 503u16 }),
        r.1@ == ready_text(db_ok, redis_ok),
{
    let ready = db_ok && redis_ok;
    let db_word = if db_ok { "ok" } else { "fail" };
    let redis_word = if redis_ok { "ok" } else { "fail" };
    let status_word = if ready { "ready" } else { "not ready" };
    let mut checks: Vec<(String, String)> = Vec::new();
    checks.push(("database".to_string(), json_string_literal(db_word)));
    checks.push(("redis".to_string(), json_string_literal(redis_word)));
    assert(pair_texts(checks@) =~= seq![
        ("database"@, json_string(check_word(db_ok))),
        ("redis"@, json_string(check_word(redis_ok))),
    ]);
    let checks_text = write_object(&checks);
    let mut members: Vec<(String, String)> = Vec::new();
    members.push(("checks".to_string(), checks_text));
    members.push(("status".to_string(), json_string_literal(status_word)));
    assert(pair_texts(members@) =~= seq![
        ("checks"@, json_object(seq![
            ("database"@, json_string(check_word(db_ok))),
            ("redis"@, json_string(check_word(redis_ok))),
        ])),
        ("status"@, json_string(if db_ok && redis_ok { "ready"@ } else { "not ready"@ })),
    ]);
    let status: u16 = if ready { 200 } else { 503 };
    (status, write_object(&members))
}


/// The JSON of a student holds, under each key, the string literal of the
/// field of the same name, the keys in alphabetical order:
/// `{"created_at":…,"email":…,"name":…,"student_number":…,"updated_at":…,"uuid":…}`.
pub proof fn lemma_student_json_fields(r: StudentResponse)
    ensures
        student_json_text(r) == seq!['{']
            + json_member("created_at"@, json_string(r.created_at@)) + seq![',']
            + json_member("email"@, json_string(r.email@)) + seq![',']
            + json_member("name"@, json_string(r.name@)) + seq![',']
            + json_member("student_number"@, json_string(r.student_number@)) + seq![',']
            + json_member("updated_at"@, json_string(r.updated_at@)) + seq![',']
            + json_member("uuid"@, json_string(uuid_text(r.uuid))) + seq!['}'],
{
    let m0 = Seq::<(Seq<char>, Seq<char>)>::empty();
    let m1 = m0.push(("created_at"@, json_string(r.created_at@)));
    let m2 = m1.push(("email"@, json_string(r.email@)));
    let m3 = m2.push(("name"@, json_string(r.name@)));
    let m4 = m3.push(("student_number"@, json_string(r.student_number@)));
    let m5 = m4.push(("updated_at"@, json_string(r.updated_at@)));
    let m6 = m5.push(("uuid"@, json_string(uuid_text(r.uuid))));
    lemma_members_push(m0, "created_at"@, json_string(r.created_at@));
    lemma_members_push(m1, "email"@, json_string(r.email@));
    lemma_members_push(m2, "name"@, json_string(r.name@));
    lemma_members_push(m3, "student_number"@, json_string(r.student_number@));
    lemma_members_push(m4, "updated_at"@, json_string(r.updated_at@));
    lemma_members_push(m5, "uuid"@, json_string(uuid_text(r.uuid)));
    assert(m6 =~= seq![
        ("created_at"@, json_string(r.created_at@)),
        ("email"@, json_string(r.email@)),
        ("name"@, json_string(r.name@)),
        ("student_number"@, json_string(r.student_number@)),
        ("updated_at"@, json_string(r.updated_at@)),
        ("uuid"@, json_string(uuid_text(r.uuid))),
    ]);
    assert(student_json_text(r) =~= seq!['{']
            + json_member("created_at"@, json_string(r.created_at@)) + seq![',']
            + json_member("email"@, json_string(r.email@)) + seq![',']
            + json_member("name"@, json_string(r.name@)) + seq![',']
            + json_member("student_number"@, json_string(r.student_number@)) + seq![',']
            + json_member("updated_at"@, json_string(r.updated_at@)) + seq![',']
            + json_member("uuid"@, json_string(uuid_text(r.uuid))) + seq!['}']);
}

/// A successful body is `{"data":D,"message":M,"success":true}` with the
/// data given and the message as a string literal.
pub proof fn lemma_success_body(message: Seq<char>, data: Seq<char>)
    ensures
        success_text(message, data) == seq!['{'] + json_member("data"@, data) + seq![',']
            + json_member("message"@, json_string(message)) + seq![','] + json_member("success"@, json_bool(true))
            + seq!['}'],
{
    let m0 = Seq::<(Seq<char>, Seq<char>)>::empty();
    let m1 = m0.push(("data"@, data));
    let m2 = m1.push(("message"@, json_string(message)));
    let m3 = m2.push(("success"@, json_bool(true)));
    lemma_members_push(m0, "data"@, data);
    lemma_members_push(m1, "message"@, json_string(message));
    lemma_members_push(m2, "success"@, json_bool(true));
    assert(m3 =~= seq![("data"@, data), ("message"@, json_string(message)), ("success"@, json_bool(true))]);
    assert(success_text(message, data) =~= seq!['{'] + json_member("data"@, data) + seq![',']
            + json_member("message"@, json_string(message)) + seq![','] + json_member("success"@, json_bool(true))
            + seq!['}']);
}

/// A page's body carries the data, the message, and a `meta` object with
/// the page number, the page size, the total and the number of pages, each
/// under its own name.
pub proof fn lemma_paginated_body(message: Seq<char>, data: Seq<char>, total: i64, page: i64, per_page: i64, total_pages: i64)
    ensures
        paginated_text(message, data, total, page, per_page, total_pages) == seq!['{']
            + json_member("data"@, data) + seq![',']
            + json_member("message"@, json_string(message)) + seq![',']
            + json_member("meta"@, seq!['{']
                + json_member("page"@, int_text(page as int)) + seq![',']
                + json_member("per_page"@, int_text(per_page as int)) + seq![',']
                + json_member("total"@, int_text(total as int)) + seq![',']
                + json_member("total_pages"@, int_text(total_pages as int)) + seq!['}']) + seq![',']
            + json_member("success"@, json_bool(true)) + seq!['}'],
{
    let n0 = Seq::<(Seq<char>, Seq<char>)>::empty();
    let n1 = n0.push(("page"@, int_text(page as int)));
    let n2 = n1.push(("per_page"@, int_text(per_page as int)));
    let n3 = n2.push(("total"@, int_text(total as int)));
    let n4 = n3.push(("total_pages"@, int_text(total_pages as int)));
    lemma_members_push(n0, "page"@, int_text(page as int));
    lemma_members_push(n1, "per_page"@, int_text(per_page as int));
    lemma_members_push(n2, "total"@, int_text(total as int));
    lemma_members_push(n3, "total_pages"@, int_text(total_pages as int));
    let meta = json_object(n4);
    assert(n4 =~= seq![
        ("page"@, int_text(page as int)),
        ("per_page"@, int_text(per_page as int)),
        ("total"@, int_text(total as int)),
        ("total_pages"@, int_text(total_pages as int)),
    ]);
    assert(meta =~= seq!['{']
                + json_member("page"@, int_text(page as int)) + seq![',']
                + json_member("per_page"@, int_text(per_page as int)) + seq![',']
                + json_member("total"@, int_text(total as int)) + seq![',']
                + json_member("total_pages"@, int_text(total_pages as int)) + seq!['}']);
    let m0 = Seq::<(Seq<char>, Seq<char>)>::empty();
    let m1 = m0.push(("data"@, data));
    let m2 = m1.push(("message"@, json_string(message)));
    let m3 = m2.push(("meta"@, meta));
    let m4 = m3.push(("success"@, json_bool(true)));
    lemma_members_push(m0, "data"@, data);
    lemma_members_push(m1, "message"@, json_string(message));
    lemma_members_push(m2, "meta"@, meta);
    lemma_members_push(m3, "success"@, json_bool(true));
    assert(m4 =~= seq![("data"@, data), ("message"@, json_string(message)), ("meta"@, meta), ("success"@, json_bool(true))]);
    assert(paginated_text(message, data, total, page, per_page, total_pages) =~= seq!['{']
            + json_member("data"@, data) + seq![',']
            + json_member("message"@, json_string(message)) + seq![',']
            + json_member("meta"@, meta) + seq![',']
            + json_member("success"@, json_bool(true)) + seq!['}']);
}

/// Readiness says `ready` exactly when both checks pass, and names each
/// check's own outcome: `{"checks":{"database":D,"redis":R},"status":S}`.
pub proof fn lemma_ready_body(db_ok: bool, redis_ok: bool)
    ensures
        ready_text(db_ok, redis_ok) == seq!['{']
            + json_member("checks"@, seq!['{']
                + json_member("database"@, json_string(if db_ok { "ok"@ } else { "fail"@ })) + seq![',']
                + json_member("redis"@, json_string(if redis_ok { "ok"@ } else { "fail"@ })) + seq!['}'])
            + seq![',']
            + json_member("status"@, json_string(if db_ok && redis_ok { "ready"@ } else { "not ready"@ })) + seq!['}'],
        live_text() == seq!['{'] + json_member("status"@, json_string("ok"@)) + seq!['}'],
{
    let d = json_string(if db_ok { "ok"@ } else { "fail"@ });
    let r = json_string(if redis_ok { "ok"@ } else { "fail"@ });
    let n0 = Seq::<(Seq<char>, Seq<char>)>::empty();
    let n1 = n0.push(("database"@, d));
    let n2 = n1.push(("redis"@, r));
    lemma_members_push(n0, "database"@, d);
    lemma_members_push(n1, "redis"@, r);
    assert(n2 =~= seq![("database"@, d), ("redis"@, r)]);
    let checks = json_object(n2);
    let st = json_string(if db_ok && redis_ok { "ready"@ } else { "not ready"@ });
    let m0 = Seq::<(Seq<char>, Seq<char>)>::empty();
    let m1 = m0.push(("checks"@, checks));
    let m2 = m1.push(("status"@, st));
    lemma_members_push(m0, "checks"@, checks);
    lemma_members_push(m1, "status"@, st);
    assert(m2 =~= seq![("checks"@, checks), ("status"@, st)]);
    let l0 = Seq::<(Seq<char>, Seq<char>)>::empty();
    lemma_members_push(l0, "status"@, json_string("ok"@));
    assert(l0.push(("status"@, json_string("ok"@))) =~= seq![("status"@, json_string("ok"@))]);
}

/// The JSON array of a list of students holds the students' JSON in the
/// list's order: item `k` is the JSON of student `k`.
pub proof fn lemma_students_json_order(v: Seq<StudentResponse>)
    ensures
        students_json_text(v) == json_array(Seq::new(v.len(), |k: int| student_json_text(v[k]))),
        v.len() > 1 ==> students_json_text(v) == seq!['['] + crate::text::joined(
            Seq::new((v.len() - 1) as nat, |k: int| student_json_text(v[k])), seq![',']) + seq![',']
            + student_json_text(v.last()) + seq![']'],
{
    let items = Seq::new(v.len(), |k: int| student_json_text(v[k]));
    assert(v.map_values(|r: StudentResponse| student_json_text(r)) =~= items);
    if v.len() > 1 {
        let init = Seq::new((v.len() - 1) as nat, |k: int| student_json_text(v[k]));
        assert(items =~= init.push(student_json_text(v.last())));
        lemma_joined_push(init, student_json_text(v.last()), seq![',']);
    }
}

} // verus!
