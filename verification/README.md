# student_service

The verified core of a student-records HTTP service.

- `src/` is the library, verified with Verus:
  - `text`: decimal text of integers, reading unsigned integers and booleans
    as `str::parse` does, substring search, joining.
  - `json`: compact JSON text (string literals, arrays, objects).
  - `keys`: cache keys of students and list pages, and the pattern that
    clears every cached list page.
  - `config`: settings read from a snapshot of the environment, with the
    lists of absent and unparseable variables; `user_service` holds the
    settings of the companion user service.
  - `dto`: request and response data and request validation.
  - `error`, `response`, `handlers`, `observe`: statuses, JSON bodies and
    the messages that the HTTP layer records.
  - `service`: the student operations as a state machine that names each
    database, cache and broker action and takes its result back.
- `app/` is the program around it: the HTTP server, the database, cache
  and broker clients, tracing and error reporting.
- `tests/` exercises the library on concrete values.
