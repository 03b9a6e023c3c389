use student_service::dto::{CreateStudentRequest, ListStudentQuery, Student, StudentResponse, UpdateStudentRequest};
use student_service::service::{Action, Event, Operation, Outcome, StudentService, Workflow};

const TOPIC: &str = "student-events";
const UUID: u128 = 0x1111_2222_3333_4444_5555_6666_7777_8888;
const UUID_TEXT: &str = "11112222-3333-4444-5555-666677778888";

fn row(name: &str) -> Student {
    Student {
        uuid: UUID,
        student_number: "S-7".to_string(),
        name: name.to_string(),
        email: "s7@example.com".to_string(),
        created_at: "2024-05-06T07:08:09Z".to_string(),
        updated_at: "2024-05-06T07:08:09Z".to_string(),
    }
}

fn begin(op: Operation) -> (Workflow, Action) {
    Workflow::begin(op, TOPIC.to_string())
}

fn step(w: Workflow, ev: Event) -> (Workflow, Action) {
    assert!(w.takes(&ev));
    w.resume(ev)
}

fn finished(a: Action) -> Result<Outcome, String> {
    match a {
        Action::Finish(r) => r,
        _ => panic!("expected the operation to finish"),
    }
}

#[test]
fn create_stores_caches_invalidates_and_publishes() {
    let req = CreateStudentRequest { student_number: "S-7".into(), name: "Zoe".into(), email: "s7@example.com".into() };
    let (w, a) = begin(Operation::Create(req));
    match a {
        Action::InsertStudent(p) => {
            assert_eq!(p.student_number, "S-7");
            assert_eq!(p.name, "Zoe");
        }
        _ => panic!("expected an insert"),
    }
    let (w, a) = step(w, Event::Inserted(Ok(row("Zoe"))));
    match a {
        Action::CacheStudent(k, v, ttl) => {
            assert_eq!(k, format!("student:{UUID_TEXT}"));
            assert_eq!(v.name, "Zoe");
            assert_eq!(ttl, 300);
        }
        _ => panic!("expected the student to be cached"),
    }
    let (w, a) = step(w, Event::Completed);
    assert!(matches!(a, Action::EvictPattern(ref p) if p == "students:list:*"));
    let (w, a) = step(w, Event::Completed);
    match a {
        Action::Publish(t, k, m) => {
            assert_eq!(t, TOPIC);
            assert_eq!(k, UUID_TEXT);
            assert_eq!(m, format!(
                "{{\"email\":\"s7@example.com\",\"event\":\"STUDENT_CREATED\",\"name\":\"Zoe\",\"student_number\":\"S-7\",\"student_uuid\":\"{UUID_TEXT}\"}}"));
        }
        _ => panic!("expected an event"),
    }
    let (w, a) = step(w, Event::Published(Err("broker down".into())));
    assert!(matches!(w, Workflow::Done));
    match finished(a) {
        Ok(Outcome::Created(r)) => assert_eq!(r.uuid, UUID),
        _ => panic!("expected success"),
    }
}

#[test]
fn create_failure_is_reported_without_side_effects() {
    let req = CreateStudentRequest { student_number: "S".into(), name: "N".into(), email: "e@x.io".into() };
    let (w, _) = begin(Operation::Create(req));
    let (w, a) = step(w, Event::Inserted(Err("duplicate key".into())));
    assert!(matches!(w, Workflow::Done));
    assert!(matches!(finished(a), Err(e) if e == "duplicate key"));
}

#[test]
fn list_reads_cache_then_database() {
    let q = ListStudentQuery { page: Some(3), per_page: Some(500) };
    assert!(q.window_fits());
    assert_eq!(q.window(), (3, 100));
    let (w, a) = begin(Operation::GetAll(q));
    assert!(matches!(a, Action::ReadCachedPage(ref k) if k == "students:list:3:100"));
    let (w, a) = step(w, Event::CachedPage(None));
    match a {
        Action::SelectPage(p) => assert_eq!((p.offset, p.limit), (200, 100)),
        _ => panic!("expected a page query"),
    }
    let (w, a) = step(w, Event::Paged(Ok((vec![row("A"), row("B")], 202))));
    match a {
        Action::CachePage(k, v, total, ttl) => {
            assert_eq!(k, "students:list:3:100");
            assert_eq!(v.len(), 2);
            assert_eq!(v[1].name, "B");
            assert_eq!((total, ttl), (202, 60));
        }
        _ => panic!("expected the page to be cached"),
    }
    let (w, a) = step(w, Event::Completed);
    assert!(matches!(w, Workflow::Done));
    match finished(a) {
        Ok(Outcome::Listed(v, total)) => {
            assert_eq!(v.iter().map(|s| s.name.as_str()).collect::<Vec<_>>(), vec!["A", "B"]);
            assert_eq!(total, 202);
        }
        _ => panic!("expected the page"),
    }
}

#[test]
fn list_defaults_and_cache_hit() {
    let q = ListStudentQuery { page: Some(-4), per_page: None };
    assert_eq!(q.window(), (1, 20));
    let (w, a) = begin(Operation::GetAll(q));
    assert!(matches!(a, Action::ReadCachedPage(ref k) if k == "students:list:1:20"));
    let cached: Vec<StudentResponse> = vec![];
    let (w, a) = step(w, Event::CachedPage(Some((cached, 9))));
    assert!(matches!(w, Workflow::Done));
    assert!(matches!(finished(a), Ok(Outcome::Listed(v, 9)) if v.is_empty()));
}

#[test]
fn huge_page_number_does_not_fit() {
    assert!(!ListStudentQuery { page: Some(i64::MAX), per_page: Some(2) }.window_fits());
    assert!(ListStudentQuery { page: Some(i64::MAX), per_page: Some(1) }.window_fits());
}

#[test]
fn get_by_uuid_miss_then_cache_fill() {
    let (w, a) = begin(Operation::GetByUuid(UUID));
    assert!(matches!(a, Action::ReadCachedStudent(ref k) if *k == format!("student:{UUID_TEXT}")));
    let (w, a) = step(w, Event::CachedStudent(None));
    assert!(matches!(a, Action::SelectStudent(UUID)));
    let (w, a) = step(w, Event::Selected(Ok(Some(row("Q")))));
    assert!(matches!(a, Action::CacheStudent(ref k, _, 300) if *k == format!("student:{UUID_TEXT}")));
    let (w, a) = step(w, Event::Completed);
    assert!(matches!(w, Workflow::Done));
    assert!(matches!(finished(a), Ok(Outcome::Fetched(Some(r))) if r.name == "Q"));
}

#[test]
fn get_by_uuid_absent() {
    let (w, _) = begin(Operation::GetByUuid(UUID));
    let (w, _) = step(w, Event::CachedStudent(None));
    let (w, a) = step(w, Event::Selected(Ok(None)));
    assert!(matches!(w, Workflow::Done));
    assert!(matches!(finished(a), Ok(Outcome::Fetched(None))));
}

#[test]
fn update_missing_student_is_not_found() {
    let (w, a) = begin(Operation::Update(UUID, UpdateStudentRequest { name: Some("N".into()), email: None }));
    match a {
        Action::UpdateStudent(p) => {
            assert_eq!(p.uuid, UUID);
            assert_eq!(p.name, Some("N".to_string()));
            assert_eq!(p.email, None);
        }
        _ => panic!("expected an update"),
    }
    let (_, a) = step(w, Event::Selected(Ok(None)));
    assert!(matches!(finished(a), Err(e) if e == "not_found: student not found"));
}

#[test]
fn update_then_effects() {
    let (w, _) = begin(Operation::Update(UUID, UpdateStudentRequest { name: Some("New".into()), email: None }));
    let (w, a) = step(w, Event::Selected(Ok(Some(row("New")))));
    assert!(matches!(a, Action::CacheStudent(ref k, ref v, 300) if *k == format!("student:{UUID_TEXT}") && v.name == "New"));
    let (w, a) = step(w, Event::Completed);
    assert!(matches!(a, Action::EvictPattern(ref p) if p == "students:list:*"));
    let (w, a) = step(w, Event::Completed);
    assert!(matches!(a, Action::Publish(_, _, ref m) if *m == format!(
        "{{\"email\":\"s7@example.com\",\"event\":\"STUDENT_UPDATED\",\"name\":\"New\",\"student_uuid\":\"{UUID_TEXT}\"}}")));
    let (_, a) = step(w, Event::Published(Ok(())));
    assert!(matches!(finished(a), Ok(Outcome::Updated(r)) if r.name == "New"));
}

#[test]
fn delete_evicts_and_publishes() {
    let (w, a) = begin(Operation::Delete(UUID));
    assert!(matches!(a, Action::SoftDeleteStudent(UUID)));
    let (w, a) = step(w, Event::Selected(Ok(Some(row("Gone")))));
    assert!(matches!(a, Action::EvictKey(ref k) if *k == format!("student:{UUID_TEXT}")));
    let (w, a) = step(w, Event::Completed);
    assert!(matches!(a, Action::EvictPattern(_)));
    let (w, a) = step(w, Event::Completed);
    assert!(matches!(a, Action::Publish(_, _, ref m) if *m == format!(
        "{{\"event\":\"STUDENT_DELETED\",\"student_uuid\":\"{UUID_TEXT}\"}}")));
    let (_, a) = step(w, Event::Published(Ok(())));
    assert!(matches!(finished(a), Ok(Outcome::Deleted)));
}

#[test]
fn delete_missing_student() {
    let (w, _) = begin(Operation::Delete(UUID));
    let (_, a) = step(w, Event::Selected(Ok(None)));
    assert!(matches!(finished(a), Err(e) if e == "not_found: student does not exist"));
}

#[test]
fn machine_refuses_results_it_did_not_ask_for() {
    let (w, _) = begin(Operation::Delete(UUID));
    assert!(!w.takes(&Event::Completed));
    assert!(!Workflow::Done.takes(&Event::Completed));
}

#[test]
fn get_by_uuid_cache_hit_skips_database() {
    let (w, _) = begin(Operation::GetByUuid(UUID));
    let cached = StudentResponse::from(row("Cached"));
    let (w, a) = step(w, Event::CachedStudent(Some(cached)));
    assert!(matches!(w, Workflow::Done));
    assert!(matches!(finished(a), Ok(Outcome::Fetched(Some(r))) if r.name == "Cached"));
}

#[test]
fn list_database_failure_is_reported() {
    let (w, _) = begin(Operation::GetAll(ListStudentQuery { page: None, per_page: None }));
    let (w, _) = step(w, Event::CachedPage(None));
    let (w, a) = step(w, Event::Paged(Err("timeout".into())));
    assert!(matches!(w, Workflow::Done));
    assert!(matches!(finished(a), Err(e) if e == "timeout"));
}

#[test]
fn service_entry_points_begin_their_workflows() {
    let (_, a) = StudentService::get_by_uuid(UUID);
    assert!(matches!(a, Action::ReadCachedStudent(_)));
    let (_, a) = StudentService::get_all(ListStudentQuery { page: Some(2), per_page: Some(10) });
    assert!(matches!(a, Action::ReadCachedPage(ref k) if k == "students:list:2:10"));
    let (w, a) = StudentService::delete(UUID, TOPIC.to_string());
    assert!(matches!(a, Action::SoftDeleteStudent(UUID)));
    assert!(matches!(w, Workflow::AwaitDelete { .. }));
    let (_, a) = StudentService::update(UUID, UpdateStudentRequest { name: None, email: None }, TOPIC.to_string());
    assert!(matches!(a, Action::UpdateStudent(_)));
    let req = CreateStudentRequest { student_number: "1".into(), name: "n".into(), email: "e@x.y".into() };
    let (_, a) = StudentService::create(req, TOPIC.to_string());
    assert!(matches!(a, Action::InsertStudent(_)));
}
