use student_service::dto::{CreateStudentRequest, StudentResponse, UpdateStudentRequest, ListStudentQuery};
use student_service::error::{classify_failure, AppError};
use student_service::handlers::{create_student_reply, delete_student_reply, get_all_students_reply, get_student_reply, update_student_reply};
use student_service::observe::{is_slow, request_breadcrumb, response_breadcrumb, response_level, slow_request_message, status_tag, BreadcrumbLevel};
use student_service::response::{health_live, health_ready, student_json, success, success_paginated};

fn student() -> StudentResponse {
    StudentResponse {
        uuid: 0x0123456789abcdef0123456789abcdef,
        student_number: "S-1".to_string(),
        name: "Ann \"A\"".to_string(),
        email: "ann@example.com".to_string(),
        created_at: "2024-01-02T03:04:05.123456Z".to_string(),
        updated_at: "2024-01-02T03:04:05.123456Z".to_string(),
    }
}

fn unprocessable(e: AppError) -> Vec<String> {
    match e {
        AppError::UnprocessableEntity(v) => v,
        _ => panic!("expected validation errors"),
    }
}

#[test]
fn create_request_validation() {
    let ok = CreateStudentRequest { student_number: "S1".into(), name: "Ann".into(), email: "ann@example.com".into() };
    assert!(ok.validate().is_ok());
    let bad = CreateStudentRequest { student_number: "".into(), name: "x".repeat(256), email: "nope".into() };
    let errs = unprocessable(bad.validate().unwrap_err());
    assert_eq!(errs, vec![
        "student_number: student_number must be 1-50 chars".to_string(),
        "name: name must be 1-255 chars".to_string(),
        "email: email must be a valid email address".to_string(),
    ]);
    let long_mail = format!("{}@example.com", "a".repeat(250));
    let errs = unprocessable(CreateStudentRequest { student_number: "é".repeat(50), name: "é".into(), email: long_mail }.validate().unwrap_err());
    assert!(errs.contains(&"email: email must be under 255 chars".to_string()));
    assert!(!errs.iter().any(|e| e.starts_with("student_number")));
}

#[test]
fn update_request_validation() {
    assert!(UpdateStudentRequest { name: None, email: None }.validate().is_ok());
    assert!(UpdateStudentRequest { name: Some("B".into()), email: Some("b@x.org".into()) }.validate().is_ok());
    let errs = unprocessable(UpdateStudentRequest { name: Some("".into()), email: Some("b".into()) }.validate().unwrap_err());
    assert_eq!(errs, vec![
        "name: name must be 1-255 chars".to_string(),
        "email: email must be a valid email address".to_string(),
    ]);
}

#[test]
fn error_statuses_and_bodies() {
    assert_eq!(AppError::BadRequest("b".into()).status_code(), 400);
    assert_eq!(AppError::Unauthorized("u".into()).status_code(), 401);
    assert_eq!(AppError::NotFound("n".into()).status_code(), 404);
    assert_eq!(AppError::Conflict("c".into()).status_code(), 409);
    assert_eq!(AppError::UnprocessableEntity(vec![]).status_code(), 422);
    assert_eq!(AppError::InternalServerError("i".into()).status_code(), 500);
    assert_eq!(AppError::NotFound("student not found".into()).body(),
        r#"{"data":null,"errors":null,"message":"student not found","success":false}"#);
    assert_eq!(AppError::Conflict("dup \"x\"\n".into()).body(),
        r#"{"data":null,"errors":null,"message":"dup \"x\"\n","success":false}"#);
    assert_eq!(AppError::UnprocessableEntity(vec!["a: b".into(), "c: d".into()]).body(),
        r#"{"data":null,"errors":["a: b","c: d"],"message":"validation failed","success":false}"#);
    let internal = AppError::InternalServerError("db down".into());
    assert_eq!(internal.body(), r#"{"data":null,"errors":null,"message":"internal server error","success":false}"#);
    assert_eq!(internal.internal_detail(), Some("db down".to_string()));
    assert_eq!(AppError::BadRequest("x".into()).internal_detail(), None);
    assert_eq!(AppError::InternalServerError("other".into()).body(), internal.body());
}

#[test]
fn control_characters_are_escaped() {
    assert_eq!(AppError::BadRequest("a\u{1}b\tc\\".into()).body(),
        "{\"data\":null,\"errors\":null,\"message\":\"a\\u0001b\\tc\\\\\",\"success\":false}");
}

#[test]
fn failures_are_classified_by_their_text() {
    assert!(matches!(classify_failure("not_found: student not found".into()), AppError::NotFound(_)));
    assert!(matches!(classify_failure("timeout".into()), AppError::InternalServerError(_)));
}

#[test]
fn student_and_success_bodies() {
    let s = student();
    let json = student_json(&s);
    let expected = r#"{"created_at":"2024-01-02T03:04:05.123456Z","email":"ann@example.com","name":"Ann \"A\"","student_number":"S-1","updated_at":"2024-01-02T03:04:05.123456Z","uuid":"01234567-89ab-cdef-0123-456789abcdef"}"#;
    assert_eq!(json, expected);
    assert_eq!(success("ok", "1".into()), r#"{"data":1,"message":"ok","success":true}"#);
    assert_eq!(success_paginated("p", "[]".into(), 41, 2, 20, 3),
        r#"{"data":[],"message":"p","meta":{"page":2,"per_page":20,"total":41,"total_pages":3},"success":true}"#);
}

#[test]
fn health_bodies() {
    assert_eq!(health_live(), (200, r#"{"status":"ok"}"#.to_string()));
    assert_eq!(health_ready(true, true), (200, r#"{"checks":{"database":"ok","redis":"ok"},"status":"ready"}"#.to_string()));
    assert_eq!(health_ready(true, false), (503, r#"{"checks":{"database":"ok","redis":"fail"},"status":"not ready"}"#.to_string()));
    assert_eq!(health_ready(false, true).0, 503);
}

#[test]
fn handler_replies() {
    let created = create_student_reply(Ok(student())).ok().unwrap();
    assert_eq!(created.status, 201);
    assert!(created.body.contains("\"message\":\"student created\""));
    assert!(matches!(create_student_reply(Err("boom".into())), Err(AppError::InternalServerError(m)) if m == "boom"));
    let fetched = get_student_reply(Ok(Some(student()))).ok().unwrap();
    assert_eq!(fetched.status, 200);
    assert!(matches!(get_student_reply(Ok(None)), Err(AppError::NotFound(m)) if m == "student not found"));
    assert!(matches!(update_student_reply(Err("not_found: student not found".into())), Err(AppError::NotFound(_))));
    assert!(matches!(update_student_reply(Err("pool closed".into())), Err(AppError::InternalServerError(_))));
    assert_eq!(update_student_reply(Ok(student())).ok().unwrap().status, 200);
    assert_eq!(delete_student_reply(Ok(())).ok(), Some(204));
    assert!(matches!(delete_student_reply(Err("not_found: student does not exist".into())), Err(AppError::NotFound(_))));
    let page = get_all_students_reply(&ListStudentQuery { page: None, per_page: Some(500) }, Ok((vec![student()], 1))).ok().unwrap();
    assert_eq!((page.page, page.per_page, page.total), (1, 500, 1));
    assert!(page.body(1).starts_with("{\"data\":[{\"created_at\""));
    assert!(page.body(1).ends_with("\"meta\":{\"page\":1,\"per_page\":500,\"total\":1,\"total_pages\":1},\"success\":true}"));
}

#[test]
fn request_observation() {
    assert!(response_level(503) == BreadcrumbLevel::Error);
    assert!(response_level(500) == BreadcrumbLevel::Error);
    assert!(response_level(404) == BreadcrumbLevel::Warning);
    assert!(response_level(399) == BreadcrumbLevel::Info);
    assert!(!is_slow(500));
    assert!(is_slow(501));
    assert_eq!(request_breadcrumb("GET", "/students"), "GET /students");
    assert_eq!(response_breadcrumb("GET", "/students", 200, 12), "GET /students -> 200 (12ms)");
    assert_eq!(slow_request_message("POST", "/students", 750), "Slow request: POST /students took 750ms");
    assert_eq!(status_tag(201), "201");
}
