//! The write pipeline: an authenticated event becomes a point, and the
//! point goes to the time-series backend in one attempt.
//!
//! The backend is reached over the network, outside of this crate. The
//! pipeline therefore decides step by step: each function here answers one
//! outcome with the next thing to do, and whoever runs the pipeline does it
//! and reports back. A write is asked for only by [`WritePipeline::resolved`],
//! which names the target of the write and follows [`WritePipeline::built`],
//! which follows a [`WritePipeline::submit_at`] that authenticated the
//! request.

use vstd::prelude::*;

use crate::config::{BackendTarget, BackendTargetView};
use crate::credentials::UserView;
use crate::session::{
    authentication_outcome, bearer_token, header_view, AuthError, SessionAuthenticator,
};
use crate::token::{on_the_clock, unix_now};

verus! {

/// Name of the field that carries the acceleration reading.
pub const FIELD_MG: &'static str = "mg";

/// Name of the field that carries the event count.
pub const FIELD_COUNT: &'static str = "count";

/// Name of the tag that carries the form.
pub const TAG_FORM: &'static str = "form";

/// The numeric fields of an event. The reading `mg` is a 64-bit float,
/// held by its IEEE 754 bit pattern.
#[derive(Clone, Copy, Debug, PartialEq, Eq, Structural)]
pub struct DataField {
    pub mg_bits: u64,
    pub count: i64,
}

/// One measurement event as a write request carries it.
#[derive(Debug)]
pub struct EventData {
    pub measurement: String,
    pub fields: DataField,
    pub form: String,
}

/// An event as contracts see it.
pub struct EventView {
    pub measurement: Seq<char>,
    pub fields: DataField,
    pub form: Seq<char>,
}

impl View for EventData {
    type V = EventView;

    open spec fn view(&self) -> EventView {
        EventView { measurement: self.measurement@, fields: self.fields, form: self.form@ }
    }
}

/// The value of a numeric field. The backend stores every such value as a
/// 64-bit float.
#[derive(Clone, Copy, Debug, PartialEq, Eq, Structural)]
pub enum Number {
    /// The float with this IEEE 754 bit pattern.
    Float { bits: u64 },
    /// The float that this integer converts to.
    Integer { value: i64 },
}

/// A named numeric field of a point.
#[derive(Debug, PartialEq, Eq)]
pub struct Field {
    pub name: String,
    pub value: Number,
}

/// A field as contracts see it.
pub struct FieldView {
    pub name: Seq<char>,
    pub value: Number,
}

impl View for Field {
    type V = FieldView;

    open spec fn view(&self) -> FieldView {
        FieldView { name: self.name@, value: self.value }
    }
}

/// A named string tag of a point.
#[derive(Debug, PartialEq, Eq)]
pub struct Tag {
    pub name: String,
    pub value: String,
}

/// A tag as contracts see it.
pub struct TagView {
    pub name: Seq<char>,
    pub value: Seq<char>,
}

impl View for Tag {
    type V = TagView;

    open spec fn view(&self) -> TagView {
        TagView { name: self.name@, value: self.value@ }
    }
}

/// A point as contracts see it.
pub struct PointView {
    pub measurement: Seq<char>,
    pub fields: Seq<FieldView>,
    pub tags: Seq<TagView>,
}

/// Why a point could not be built.
#[derive(Clone, Copy, Debug, PartialEq, Eq, Structural)]
pub enum PointError {
    /// A point must carry at least one field.
    NoFields,
}

/// One sample for the backend: a measurement name, numeric fields and
/// string tags. The backend stamps the time. A point always carries at
/// least one field.
#[derive(Debug, PartialEq, Eq)]
pub struct Point {
    measurement: String,
    fields: Vec<Field>,
    tags: Vec<Tag>,
}

impl View for Point {
    type V = PointView;

    closed spec fn view(&self) -> PointView {
        PointView {
            measurement: self.measurement@,
            fields: self.fields@.map_values(|f: Field| f@),
            tags: self.tags@.map_values(|t: Tag| t@),
        }
    }
}

impl Point {
    #[verifier::type_invariant]
    spec fn carries_a_field(&self) -> bool {
        self.fields@.len() > 0
    }

    /// Builds a point. Fails if and only if no field is given.
    pub fn build(measurement: String, fields: Vec<Field>, tags: Vec<Tag>) -> (r: Result<Point, PointError>)
        ensures
            match r {
                Ok(point) => fields@.len() > 0 && point@ == (PointView {
                    measurement: measurement@,
                    fields: fields@.map_values(|f: Field| f@),
                    tags: tags@.map_values(|t: Tag| t@),
                }),
                Err(e) => fields@.len() == 0 && e == PointError::NoFields,
            },
    {
        if fields.len() == 0 {
            Err(PointError::NoFields)
        } else {
            Ok(Point { measurement, fields, tags })
        }
    }

    /// The measurement name.
    pub fn measurement(&self) -> (r: &str)
        ensures
            r@ == self@.measurement,
    {
        self.measurement.as_str()
    }

    /// The fields, in the order in which they were given.
    pub fn fields(&self) -> (r: &Vec<Field>)
        ensures
            r@.map_values(|f: Field| f@) == self@.fields,
            r@.len() > 0,
    {
        proof {
            use_type_invariant(self);
        }
        &self.fields
    }

    /// The tags, in the order in which they were given.
    pub fn tags(&self) -> (r: &Vec<Tag>)
        ensures
            r@.map_values(|t: Tag| t@) == self@.tags,
    {
        &self.tags
    }
}

/// The point that an event is shaped into: its measurement, the fields
/// `mg` and `count`, the tag `form`.
pub open spec fn shaped(event: EventView) -> PointView {
    PointView {
        measurement: event.measurement,
        fields: seq![
            FieldView { name: FIELD_MG@, value: Number::Float { bits: event.fields.mg_bits } },
            FieldView { name: FIELD_COUNT@, value: Number::Integer { value: event.fields.count } },
        ],
        tags: seq![TagView { name: TAG_FORM@, value: event.form }],
    }
}

/// Shapes an event into a point.
pub fn shape(event: &EventData) -> (r: Point)
    ensures
        r@ == shaped(event@),
{
    let mut fields: Vec<Field> = Vec::new();
    fields.push(
        Field { name: FIELD_MG.to_owned(), value: Number::Float { bits: event.fields.mg_bits } },
    );
    fields.push(
        Field {
            name: FIELD_COUNT.to_owned(),
            value: Number::Integer { value: event.fields.count },
        },
    );
    let mut tags: Vec<Tag> = Vec::new();
    tags.push(Tag { name: TAG_FORM.to_owned(), value: event.form.clone() });
    let point = Point { measurement: event.measurement.clone(), fields, tags };
    assert(point@.fields =~= shaped(event@).fields);
    assert(point@.tags =~= shaped(event@).tags);
    point
}

/// Why a write request failed.
#[derive(Debug, PartialEq, Eq)]
pub enum WriteError {
    /// The request did not authenticate.
    Unauthorized,
    /// The backend client refused the shape of the point.
    InvalidPoint(String),
    /// No backend is configured or reachable.
    BackendUnavailable,
    /// The backend refused or failed the write.
    BackendRejected(String),
}

/// A write error as contracts see it.
pub enum WriteErrorView {
    Unauthorized,
    InvalidPoint(Seq<char>),
    BackendUnavailable,
    BackendRejected(Seq<char>),
}

impl View for WriteError {
    type V = WriteErrorView;

    open spec fn view(&self) -> WriteErrorView {
        match self {
            WriteError::Unauthorized => WriteErrorView::Unauthorized,
            WriteError::InvalidPoint(detail) => WriteErrorView::InvalidPoint(detail@),
            WriteError::BackendUnavailable => WriteErrorView::BackendUnavailable,
            WriteError::BackendRejected(detail) => WriteErrorView::BackendRejected(detail@),
        }
    }
}

/// Marks a write that the backend accepted.
#[derive(Clone, Copy, Debug, PartialEq, Eq, Structural)]
pub struct WriteReceipt {}

/// The next thing to do for a write request.
#[derive(Debug, PartialEq, Eq)]
pub enum Step {
    /// The request is finished with this result.
    Respond(Result<WriteReceipt, WriteError>),
    /// Hand this point to the backend client to build its own form of it,
    /// and report to [`WritePipeline::built`].
    Build(Point),
    /// Resolve the backend and its target bucket, and report to
    /// [`WritePipeline::resolved`].
    Resolve,
    /// Send the point to the bucket of this target, once, and report to
    /// [`WritePipeline::written`].
    Write(BackendTarget),
}

/// A step as contracts see it.
pub enum StepView {
    Respond(Result<WriteReceipt, WriteErrorView>),
    Build(PointView),
    Resolve,
    Write(BackendTargetView),
}

impl View for Step {
    type V = StepView;

    open spec fn view(&self) -> StepView {
        match self {
            Step::Respond(Ok(receipt)) => StepView::Respond(Ok(*receipt)),
            Step::Respond(Err(e)) => StepView::Respond(Err(e@)),
            Step::Build(point) => StepView::Build(point@),
            Step::Resolve => StepView::Resolve,
            Step::Write(target) => StepView::Write(target@),
        }
    }
}

/// The step that refuses a request for want of authentication.
pub open spec fn refusal() -> StepView {
    StepView::Respond(Err(WriteErrorView::Unauthorized))
}

/// The first step for a request: a refusal unless it authenticates, else
/// the building of the point that the event is shaped into.
pub open spec fn first_step(authentication: Result<UserView, AuthError>, event: EventView) -> StepView {
    match authentication {
        Err(_) => refusal(),
        Ok(_) => StepView::Build(shaped(event)),
    }
}

/// The step after the build, from what the backend client reported of it.
pub open spec fn after_build(report: Result<(), Seq<char>>) -> StepView {
    match report {
        Ok(_) => StepView::Resolve,
        Err(detail) => StepView::Respond(Err(WriteErrorView::InvalidPoint(detail))),
    }
}

/// The step after resolving the backend: the write to the target that was
/// found, or the end of the request where none was.
pub open spec fn after_resolve(target: Option<BackendTargetView>) -> StepView {
    match target {
        Some(target) => StepView::Write(target),
        None => StepView::Respond(Err(WriteErrorView::BackendUnavailable)),
    }
}

/// The step after the write, from what the backend reported of it.
pub open spec fn after_write(report: Result<(), Seq<char>>) -> StepView {
    match report {
        Ok(_) => StepView::Respond(Ok(WriteReceipt {})),
        Err(detail) => StepView::Respond(Err(WriteErrorView::BackendRejected(detail))),
    }
}

/// What the backend side reports in the course of one request, were it
/// asked at every step.
pub struct Reports {
    pub built: Result<(), Seq<char>>,
    pub target: Option<BackendTargetView>,
    pub written: Result<(), Seq<char>>,
}

/// How a request ends: its last step, the number of writes that were asked
/// for on the way, and the target of the write where there was one.
pub struct Course {
    pub last: StepView,
    pub writes: nat,
    pub written_to: Option<BackendTargetView>,
}

/// The course of a request from its first step, each step done as asked and
/// answered by the function that it reports to.
pub open spec fn course(first: StepView, reports: Reports) -> Course {
    let second = match first {
        StepView::Build(_) => after_build(reports.built),
        other => other,
    };
    let third = match second {
        StepView::Resolve => after_resolve(reports.target),
        other => other,
    };
    match third {
        StepView::Write(target) => Course {
            last: after_write(reports.written),
            writes: 1,
            written_to: Some(target),
        },
        other => Course { last: other, writes: 0, written_to: None },
    }
}

/// The view of what resolving the backend found.
pub open spec fn target_view(target: Option<BackendTarget>) -> Option<BackendTargetView> {
    match target {
        Some(target) => Some(target@),
        None => None,
    }
}

/// The view of what the backend side reports of a build or a write.
pub open spec fn report_view(outcome: Result<(), String>) -> Result<(), Seq<char>> {
    match outcome {
        Ok(_) => Ok(()),
        Err(detail) => Err(detail@),
    }
}

/// Takes authenticated events to the backend.
pub struct WritePipeline {
    authenticator: SessionAuthenticator,
}

impl WritePipeline {
    /// The authenticator in front of the pipeline.
    pub closed spec fn gate(&self) -> SessionAuthenticator {
        self.authenticator
    }

    /// The invariant: that of the authenticator.
    pub open spec fn wf(&self) -> bool {
        self.gate().wf()
    }

    /// A pipeline behind `authenticator`.
    pub fn new(authenticator: SessionAuthenticator) -> (r: Self)
        requires
            authenticator.wf(),
        ensures
            r.wf(),
            r.gate() == authenticator,
    {
        WritePipeline { authenticator }
    }

    /// The authenticator, for logins on the same store and secret.
    pub fn authenticator(&self) -> (r: &SessionAuthenticator)
        ensures
            *r == self.gate(),
    {
        &self.authenticator
    }

    /// Takes up a write request at time `now`. Any failure to authenticate
    /// ends the request as `Unauthorized`; in particular a request without
    /// a header, or with a header that does not begin with the scheme
    /// marker, goes no further. An authenticated event is shaped into a
    /// point, to be built next.
    pub fn submit_at(&self, auth_header: Option<&str>, event: &EventData, now: i64) -> (r: Step)
        requires
            self.wf(),
        ensures
            r@ == first_step(
                authentication_outcome(
                    self.gate().users(),
                    self.gate().key(),
                    header_view(auth_header),
                    now,
                ),
                event@,
            ),
            bearer_token(header_view(auth_header)) is None ==> r@ == refusal(),
    {
        match self.authenticator.authenticate_at(auth_header, now) {
            Err(_) => Step::Respond(Err(WriteError::Unauthorized)),
            Ok(_) => Step::Build(shape(event)),
        }
    }

    /// Takes up a write request at the time the clock shows.
    pub fn submit(&self, auth_header: Option<&str>, event: &EventData) -> (r: Step)
        requires
            self.wf(),
        ensures
            exists|now: i64|
                on_the_clock(now) && r@ == first_step(
                    #[trigger] authentication_outcome(
                        self.gate().users(),
                        self.gate().key(),
                        header_view(auth_header),
                        now,
                    ),
                    event@,
                ),
            bearer_token(header_view(auth_header)) is None ==> r@ == refusal(),
    {
        let now = unix_now();
        self.submit_at(auth_header, event, now)
    }

    /// After the build: a point that the backend client refused ends the
    /// request as `InvalidPoint` with the client's words; otherwise the
    /// backend is resolved next.
    pub fn built(outcome: Result<(), String>) -> (r: Step)
        ensures
            r@ == after_build(report_view(outcome)),
    {
        match outcome {
            Ok(_) => Step::Resolve,
            Err(detail) => Step::Respond(Err(WriteError::InvalidPoint(detail))),
        }
    }

    /// After resolving the backend: without a target the request ends as
    /// `BackendUnavailable`, before any write is tried; with one the point
    /// is written next, to the bucket of that target.
    pub fn resolved(target: Option<BackendTarget>) -> (r: Step)
        ensures
            r@ == after_resolve(target_view(target)),
    {
        match target {
            Some(target) => Step::Write(target),
            None => Step::Respond(Err(WriteError::BackendUnavailable)),
        }
    }

    /// After the one write: success ends the request with a receipt, a
    /// failure ends it as `BackendRejected` with the backend's words.
    /// Nothing is tried again.
    pub fn written(outcome: Result<(), String>) -> (r: Step)
        ensures
            r@ == after_write(report_view(outcome)),
    {
        match outcome {
            Ok(_) => Step::Respond(Ok(WriteReceipt {})),
            Err(detail) => Step::Respond(Err(WriteError::BackendRejected(detail))),
        }
    }
}

/// A request that does not authenticate ends as `Unauthorized` without a
/// write, whatever the backend would have reported. So does in particular
/// every request without a header or with a header that does not begin with
/// the scheme marker, and every request whose token has expired.
pub proof fn lemma_unauthenticated_request_never_writes(
    authentication: Result<UserView, AuthError>,
    event: EventView,
    reports: Reports,
)
    requires
        authentication is Err,
    ensures
        course(first_step(authentication, event), reports) == (Course {
            last: refusal(),
            writes: 0,
            written_to: None,
        }),
{
}

/// A request without a bearer token in its header does not authenticate.
pub proof fn lemma_request_without_bearer_token_is_refused(
    store: Map<Seq<char>, UserView>,
    secret: Seq<char>,
    header: Option<Seq<char>>,
    event: EventView,
    now: i64,
    reports: Reports,
)
    requires
        bearer_token(header) is None,
    ensures
        authentication_outcome(store, secret, header, now) == Err::<UserView, AuthError>(
            AuthError::MissingOrMalformedHeader,
        ),
        course(first_step(authentication_outcome(store, secret, header, now), event), reports) == (Course {
            last: refusal(),
            writes: 0,
            written_to: None,
        }),
{
}

/// Every request ends with a response after at most one write, which goes
/// to the target that resolving the backend found. It ends with a receipt
/// if and only if it authenticated, the point was built, a target was found
/// and the one write succeeded.
pub proof fn lemma_single_attempt(
    authentication: Result<UserView, AuthError>,
    event: EventView,
    reports: Reports,
)
    ensures
        course(first_step(authentication, event), reports).last is Respond,
        course(first_step(authentication, event), reports).writes <= 1,
        course(first_step(authentication, event), reports).last == StepView::Respond(
            Ok(WriteReceipt {}),
        ) <==> authentication is Ok && reports.built is Ok && reports.target is Some
            && reports.written is Ok,
        course(first_step(authentication, event), reports).writes == 1 <==> authentication is Ok
            && reports.built is Ok && reports.target is Some,
        course(first_step(authentication, event), reports).writes == 1 ==> course(
            first_step(authentication, event),
            reports,
        ).written_to == reports.target,
        course(first_step(authentication, event), reports).writes == 0 ==> course(
            first_step(authentication, event),
            reports,
        ).written_to is None,
{
}

} // verus!
