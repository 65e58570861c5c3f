use event_gateway::config::BackendTarget;
use event_gateway::credentials::CredentialStore;
use event_gateway::pipeline::{
    shape, DataField, EventData, Field, Number, Point, PointError, Step, Tag, WriteError,
    WritePipeline, WriteReceipt, FIELD_COUNT, FIELD_MG, TAG_FORM,
};
use event_gateway::response::write_reply;
use event_gateway::session::SessionAuthenticator;
use event_gateway::token::{TokenService, TOKEN_DURATION};

const AT: i64 = 1_700_000_000;

/// A pipeline that knows "nico" with the password "secret".
fn pipeline() -> WritePipeline {
    let mut store = CredentialStore::new();
    store.enroll("nico", Ok(bcrypt::hash("secret", 4).unwrap())).unwrap();
    let tokens = TokenService::new(String::from("signing-key"));
    WritePipeline::new(SessionAuthenticator::new(store, tokens))
}

fn motion() -> EventData {
    EventData {
        measurement: String::from("motion"),
        fields: DataField { mg_bits: 12.5f64.to_bits(), count: 3 },
        form: String::from("A"),
    }
}

/// A backend that records what it is asked and answers as it was told to.
struct StubBackend {
    build: Result<(), String>,
    target: Option<BackendTarget>,
    write: Result<(), String>,
    built: Vec<Point>,
    resolves: u32,
    written_to: Vec<String>,
}

fn events_bucket() -> BackendTarget {
    BackendTarget {
        host: String::from("http://localhost:8086"),
        organization: String::from("lab"),
        access_token: String::from("influx-token"),
        bucket: String::from("events"),
    }
}

fn healthy_backend() -> StubBackend {
    StubBackend {
        build: Ok(()),
        target: Some(events_bucket()),
        write: Ok(()),
        built: Vec::new(),
        resolves: 0,
        written_to: Vec::new(),
    }
}

/// Does what each step asks for, against the stub, until the request ends.
fn run(first: Step, backend: &mut StubBackend) -> Result<WriteReceipt, WriteError> {
    let mut step = first;
    loop {
        step = match step {
            Step::Respond(result) => return result,
            Step::Build(point) => {
                backend.built.push(point);
                WritePipeline::built(backend.build.clone())
            }
            Step::Resolve => {
                backend.resolves += 1;
                WritePipeline::resolved(backend.target.clone())
            }
            Step::Write(target) => {
                backend.written_to.push(target.bucket);
                WritePipeline::written(backend.write.clone())
            }
        };
    }
}

fn as_float(value: Number) -> f64 {
    match value {
        Number::Float { bits } => f64::from_bits(bits),
        Number::Integer { value } => value as f64,
    }
}

#[test]
fn field_and_tag_names() {
    assert_eq!(FIELD_MG, "mg");
    assert_eq!(FIELD_COUNT, "count");
    assert_eq!(TAG_FORM, "form");
}

#[test]
fn shape_gives_measurement_two_fields_and_one_tag() {
    let point = shape(&motion());
    assert_eq!(point.measurement(), "motion");
    assert_eq!(
        point.fields(),
        &vec![
            Field { name: String::from("mg"), value: Number::Float { bits: 0x4029_0000_0000_0000 } },
            Field { name: String::from("count"), value: Number::Integer { value: 3 } },
        ]
    );
    assert_eq!(point.tags(), &vec![Tag { name: String::from("form"), value: String::from("A") }]);
}

#[test]
fn shape_keeps_every_bit_pattern_and_count() {
    let event = EventData {
        measurement: String::new(),
        fields: DataField { mg_bits: f64::NAN.to_bits(), count: i64::MIN },
        form: String::new(),
    };
    let point = shape(&event);
    assert_eq!(point.measurement(), "");
    assert_eq!(point.fields()[0].value, Number::Float { bits: f64::NAN.to_bits() });
    assert_eq!(point.fields()[1].value, Number::Integer { value: i64::MIN });
    assert_eq!(point.tags()[0].value, "");
}

#[test]
fn point_without_fields_is_not_built() {
    let tags = vec![Tag { name: String::from("form"), value: String::from("A") }];
    assert_eq!(Point::build(String::from("motion"), Vec::new(), tags), Err(PointError::NoFields));
    assert_eq!(Point::build(String::new(), Vec::new(), Vec::new()), Err(PointError::NoFields));
}

#[test]
fn point_with_a_field_is_built_as_given() {
    let fields = vec![Field { name: String::from("count"), value: Number::Integer { value: 9 } }];
    let point = Point::build(String::from("motion"), fields, Vec::new()).unwrap();
    assert_eq!(point.measurement(), "motion");
    assert_eq!(
        point.fields(),
        &vec![Field { name: String::from("count"), value: Number::Integer { value: 9 } }]
    );
    assert!(point.tags().is_empty());
}

#[test]
fn submit_without_header_never_reaches_the_backend() {
    let pipeline = pipeline();
    let mut backend = healthy_backend();
    let first = pipeline.submit_at(None, &motion(), AT);
    assert_eq!(first, Step::Respond(Err(WriteError::Unauthorized)));
    assert_eq!(run(first, &mut backend), Err(WriteError::Unauthorized));
    assert!(backend.written_to.is_empty());
    assert_eq!(backend.resolves, 0);
    assert!(backend.built.is_empty());
    assert_eq!(pipeline.submit(None, &motion()), Step::Respond(Err(WriteError::Unauthorized)));
}

#[test]
fn submit_with_another_scheme_never_reaches_the_backend() {
    let pipeline = pipeline();
    let token = pipeline.authenticator().login_at("nico", "secret", AT).unwrap();
    let headers = [format!("Basic {}", token), format!("Token {}", token), token.clone()];
    for header in headers.iter() {
        let mut backend = healthy_backend();
        let first = pipeline.submit_at(Some(header), &motion(), AT);
        assert_eq!(run(first, &mut backend), Err(WriteError::Unauthorized));
        assert!(backend.written_to.is_empty());
    }
}

#[test]
fn submit_with_a_valid_token_writes_one_point_and_succeeds() {
    let pipeline = pipeline();
    let token = pipeline.authenticator().login_at("nico", "secret", AT).unwrap();
    let header = format!("Bearer {}", token);
    let mut backend = healthy_backend();
    let first = pipeline.submit_at(Some(&header), &motion(), AT + 60);
    let result = run(first, &mut backend);
    assert_eq!(result, Ok(WriteReceipt {}));
    assert_eq!(backend.written_to, vec![String::from("events")]);
    assert_eq!(backend.resolves, 1);
    assert_eq!(backend.built.len(), 1);
    let point = &backend.built[0];
    assert_eq!(point.measurement(), "motion");
    assert_eq!(point.fields().len(), 2);
    assert_eq!(point.fields()[0].name, "mg");
    assert_eq!(as_float(point.fields()[0].value), 12.5);
    assert_eq!(point.fields()[1].name, "count");
    assert_eq!(as_float(point.fields()[1].value), 3.0);
    assert_eq!(point.tags().len(), 1);
    assert_eq!(point.tags()[0].name, "form");
    assert_eq!(point.tags()[0].value, "A");
    assert_eq!(write_reply(result).status(), 200);
}

#[test]
fn submit_by_the_clock_with_a_fresh_token_asks_for_the_build() {
    let pipeline = pipeline();
    let token = pipeline.authenticator().login("nico", "secret").unwrap();
    let header = format!("Bearer {}", token);
    assert_eq!(pipeline.submit(Some(&header), &motion()), Step::Build(shape(&motion())));
}

#[test]
fn submit_with_an_expired_token_is_unauthorized_and_writes_nothing() {
    let pipeline = pipeline();
    // Logged in a day and a second ago: the token expired one second ago.
    let token = pipeline.authenticator().login_at("nico", "secret", AT - TOKEN_DURATION - 1).unwrap();
    let header = format!("Bearer {}", token);
    let mut backend = healthy_backend();
    let first = pipeline.submit_at(Some(&header), &motion(), AT);
    let result = run(first, &mut backend);
    assert_eq!(result, Err(WriteError::Unauthorized));
    assert!(backend.written_to.is_empty());
    assert!(backend.built.is_empty());
    assert_eq!(write_reply(result).status(), 401);
}

#[test]
fn refused_point_ends_the_request_before_the_backend_is_resolved() {
    let pipeline = pipeline();
    let token = pipeline.authenticator().login_at("nico", "secret", AT).unwrap();
    let header = format!("Bearer {}", token);
    let mut backend = healthy_backend();
    backend.build = Err(String::from("no fields"));
    backend.target = None;
    let result = run(pipeline.submit_at(Some(&header), &motion(), AT), &mut backend);
    assert_eq!(result, Err(WriteError::InvalidPoint(String::from("no fields"))));
    assert_eq!(backend.resolves, 0);
    assert!(backend.written_to.is_empty());
    assert_eq!(write_reply(result).status(), 400);
}

#[test]
fn missing_backend_ends_the_request_before_any_write() {
    let pipeline = pipeline();
    let token = pipeline.authenticator().login_at("nico", "secret", AT).unwrap();
    let header = format!("Bearer {}", token);
    let mut backend = healthy_backend();
    backend.target = None;
    backend.write = Err(String::from("never asked"));
    let result = run(pipeline.submit_at(Some(&header), &motion(), AT), &mut backend);
    assert_eq!(result, Err(WriteError::BackendUnavailable));
    assert_eq!(backend.resolves, 1);
    assert!(backend.written_to.is_empty());
    assert_eq!(write_reply(result).status(), 500);
}

#[test]
fn failed_write_is_reported_and_not_tried_again() {
    let pipeline = pipeline();
    let token = pipeline.authenticator().login_at("nico", "secret", AT).unwrap();
    let header = format!("Bearer {}", token);
    let mut backend = healthy_backend();
    backend.write = Err(String::from("connection reset"));
    let result = run(pipeline.submit_at(Some(&header), &motion(), AT), &mut backend);
    assert_eq!(result, Err(WriteError::BackendRejected(String::from("connection reset"))));
    assert_eq!(backend.written_to, vec![String::from("events")]);
    assert_eq!(write_reply(result).status(), 500);
}

#[test]
fn each_step_answers_its_report() {
    assert_eq!(WritePipeline::built(Ok(())), Step::Resolve);
    assert_eq!(
        WritePipeline::built(Err(String::from("x"))),
        Step::Respond(Err(WriteError::InvalidPoint(String::from("x"))))
    );
    assert_eq!(WritePipeline::resolved(Some(events_bucket())), Step::Write(events_bucket()));
    assert_eq!(WritePipeline::resolved(None), Step::Respond(Err(WriteError::BackendUnavailable)));
    assert_eq!(WritePipeline::written(Ok(())), Step::Respond(Ok(WriteReceipt {})));
    assert_eq!(
        WritePipeline::written(Err(String::from("y"))),
        Step::Respond(Err(WriteError::BackendRejected(String::from("y"))))
    );
}
