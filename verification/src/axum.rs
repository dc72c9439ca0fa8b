//! What a service starts from: the middleware around its routes, the
//! version endpoint, the notice of a shutdown, the export of its API
//! description, and the error type that `app_error_v2` supersedes.

use crate::app_error_v2;
use crate::app_error_v2::{Level, Response};
use crate::failure::Failure;
use crate::manifest::{
    fault_message, manifest_version, manifest_version_of, outcome_view, ManifestError,
    ManifestFault,
};
use crate::status::StatusCode;
use vstd::prelude::*;
use vstd::std_specs::convert::FromSpecImpl;

verus! {

/// The body that the superseded error type answers with: a fixed opening
/// and the outermost message, without the causes behind it.
pub open spec fn superseded_body(chain: Seq<Seq<char>>) -> Seq<char> {
    "Something went wrong: "@ + chain.first()
}

/// Superseded by `app_error_v2::AppError`, which carries a status code and
/// keeps a record for the log. This type answers every failure with
/// `500 Internal Server Error` and logs nothing; it is kept for services
/// that still name it.
#[derive(Debug)]
pub struct AppError(pub Failure);

impl AppError {
    /// The response to the failure: always `500 Internal Server Error`,
    /// with the outermost message in the body.
    pub fn into_response(self) -> (out: Response)
        ensures
            out.status == StatusCode::with_code(500),
            out.body@ == superseded_body(self.0@),
    {
        let mut body = String::from_str("Something went wrong: ");
        body.append(self.0.message().as_str());
        Response { status: StatusCode::internal_server_error(), body }
    }
}

impl From<Failure> for AppError {
    /// Every failure can take the place of this error.
    fn from(failure: Failure) -> (error: AppError) {
        AppError(failure)
    }
}

impl FromSpecImpl<Failure> for AppError {
    open spec fn obeys_from_spec() -> bool {
        true
    }

    open spec fn from_spec(failure: Failure) -> AppError {
        AppError(failure)
    }
}

/// The answer of the version endpoint.
#[derive(Clone, Debug)]
pub struct HomeResponse {
    pub version: String,
}

/// What became of reading the manifest file: it could not be opened, it
/// could not be read, or its text is here.
#[derive(Debug)]
pub enum ManifestRead {
    OpenFailed(Failure),
    ReadFailed(Failure),
    Contents(String),
}

/// The chain of causes when the manifest states no version: what could not
/// be done with the manifest, then why.
pub open spec fn manifest_failure(context: Seq<char>, cause: Seq<Seq<char>>) -> Seq<Seq<char>> {
    seq![context] + cause
}

/// The version that the endpoint answers with, or the causes of its
/// failure, for each outcome of parsing the manifest.
pub open spec fn version_reply_of(parsed: Result<Seq<char>, ManifestFault>) -> Result<
    Seq<char>,
    Seq<Seq<char>>,
> {
    match parsed {
        Ok(version) => Ok(version),
        Err(fault) => Err(
            manifest_failure("Failed to parse Cargo.toml"@, seq![fault_message(fault)]),
        ),
    }
}

/// The version that the endpoint answers with, or the causes of its
/// failure, for each outcome of reading the manifest.
pub open spec fn app_version_of(manifest: ManifestRead) -> Result<Seq<char>, Seq<Seq<char>>> {
    match manifest {
        ManifestRead::OpenFailed(cause) => Err(
            manifest_failure("Failed to open Cargo.toml"@, cause@),
        ),
        ManifestRead::ReadFailed(cause) => Err(
            manifest_failure("Failed to read Cargo.toml"@, cause@),
        ),
        ManifestRead::Contents(text) => version_reply_of(manifest_version_of(text@)),
    }
}

/// Whether `out` is the reply `expected`: the same version, or an error
/// answered with `500 Internal Server Error` that has the same causes.
pub open spec fn is_version_reply(
    out: Result<HomeResponse, app_error_v2::AppError>,
    expected: Result<Seq<char>, Seq<Seq<char>>>,
) -> bool {
    match out {
        Ok(home) => expected == Ok::<Seq<char>, Seq<Seq<char>>>(home.version@),
        Err(error) => error.0 == StatusCode::with_code(500) && expected == Err::<
            Seq<char>,
            Seq<Seq<char>>,
        >(error.1@),
    }
}

/// The error of the version endpoint: `cause`, seen as a failure of
/// `context`, answered with `500 Internal Server Error`.
fn manifest_error(context: &str, cause: Failure) -> (error: app_error_v2::AppError)
    ensures
        error.0 == StatusCode::with_code(500),
        error.1@ == manifest_failure(context@, cause@),
{
    app_error_v2::AppError(
        StatusCode::internal_server_error(),
        cause.context(String::from_str(context)),
    )
}

/// The reply of the version endpoint once the manifest has been parsed:
/// the version found, or what the error says of itself as the cause of a
/// failure to parse.
pub fn version_reply(parsed: Result<String, ManifestError>) -> (out: Result<
    HomeResponse,
    app_error_v2::AppError,
>)
    ensures
        is_version_reply(out, version_reply_of(outcome_view(parsed))),
{
    match parsed {
        Ok(version) => Ok(HomeResponse { version }),
        Err(error) => Err(
            manifest_error("Failed to parse Cargo.toml", Failure::new(error.message())),
        ),
    }
}

/// The reply of the version endpoint: the version that the manifest
/// states. A manifest that could not be opened, read or parsed is answered
/// with `500 Internal Server Error`, and the causes say which of the three
/// failed and why.
pub fn app_version(manifest: ManifestRead) -> (out: Result<
    HomeResponse,
    app_error_v2::AppError,
>)
    ensures
        is_version_reply(out, app_version_of(manifest)),
{
    match manifest {
        ManifestRead::OpenFailed(cause) => Err(manifest_error("Failed to open Cargo.toml", cause)),
        ManifestRead::ReadFailed(cause) => Err(manifest_error("Failed to read Cargo.toml", cause)),
        ManifestRead::Contents(text) => version_reply(manifest_version(text.as_str())),
    }
}

/// How the log subscriber of the service is set up.
#[derive(Debug)]
pub struct SubscriberConfig {
    /// The directives that say which records are kept.
    pub filter: String,
    /// Whether a record names the module it comes from.
    pub with_target: bool,
}

/// The directives of the subscriber's filter: the requested ones, or
/// `info` where none were requested.
pub open spec fn log_filter_of(requested: Option<String>) -> Seq<char> {
    match requested {
        Some(directives) => directives@,
        None => "info"@,
    }
}

/// Decides how the log subscriber is set up. `requested` holds the
/// directives of the variable `RUST_LOG`, if it is set and they can be
/// used; without them records from level `Info` on are kept. Records do
/// not name the module they come from.
pub fn init_tracing_subcriber(requested: Option<String>) -> (config: SubscriberConfig)
    ensures
        config.filter@ == log_filter_of(requested),
        !config.with_target,
{
    let filter = match requested {
        Some(directives) => directives,
        None => String::from_str("info"),
    };
    SubscriberConfig { filter, with_target: false }
}

/// The signals that end the serving of requests.
#[derive(Clone, Copy, Debug, PartialEq, Eq, Structural)]
pub enum ShutdownSignal {
    /// The interactive interrupt.
    CtrlC,
    /// The request to terminate, on platforms that have one.
    Terminate,
}

/// The notice printed for each signal.
pub open spec fn shutdown_notice_of(signal: ShutdownSignal) -> Seq<char> {
    match signal {
        ShutdownSignal::CtrlC => "control c handler"@,
        ShutdownSignal::Terminate => "terminate handler"@,
    }
}

/// The notice to print when `signal` has arrived and the server stops
/// accepting connections.
pub fn shutdown_notice(signal: ShutdownSignal) -> (notice: &'static str)
    ensures
        notice@ == shutdown_notice_of(signal),
{
    match signal {
        ShutdownSignal::CtrlC => "control c handler",
        ShutdownSignal::Terminate => "terminate handler",
    }
}

/// The request methods that a policy can allow.
#[derive(Clone, Copy, Debug, PartialEq, Eq, Structural)]
pub enum Method {
    Get,
    Post,
    Options,
}

/// The request headers that a policy can allow.
#[derive(Clone, Copy, Debug, PartialEq, Eq, Structural)]
pub enum Header {
    ContentType,
    Authorization,
}

/// Which requests from other origins are let through.
#[derive(Debug)]
pub struct CorsPolicy {
    /// Whether every origin is allowed.
    pub any_origin: bool,
    /// The request headers that are allowed.
    pub headers: Vec<Header>,
    /// The request methods that are allowed.
    pub methods: Vec<Method>,
}

/// How requests are logged: one span for each request, and one record of
/// the outcome when the response is there.
#[derive(Clone, Copy, Debug, PartialEq, Eq, Structural)]
pub struct TracePolicy {
    /// The level of the span.
    pub span: Level,
    /// The level of the record of the response.
    pub response: Level,
}

/// One layer of middleware.
#[derive(Debug)]
pub enum Middleware {
    Trace(TracePolicy),
    Cors(CorsPolicy),
}

/// A layer of middleware as contracts speak of it.
pub ghost enum MiddlewareView {
    Trace(TracePolicy),
    Cors { any_origin: bool, headers: Seq<Header>, methods: Seq<Method> },
}

impl View for Middleware {
    type V = MiddlewareView;

    open spec fn view(&self) -> MiddlewareView {
        match *self {
            Middleware::Trace(policy) => MiddlewareView::Trace(policy),
            Middleware::Cors(policy) => MiddlewareView::Cors {
                any_origin: policy.any_origin,
                headers: policy.headers@,
                methods: policy.methods@,
            },
        }
    }
}

/// A router as far as its middleware goes: the layers around its routes,
/// outermost first. A request passes them in this order, its response in
/// the opposite one.
#[derive(Debug)]
pub struct Router {
    pub layers: Vec<Middleware>,
}

impl View for Router {
    type V = Seq<MiddlewareView>;

    open spec fn view(&self) -> Seq<MiddlewareView> {
        Seq::new(self.layers@.len(), |i: int| self.layers@[i]@)
    }
}

impl Router {
    /// A router without layers.
    pub fn new() -> (router: Router)
        ensures
            router@ == Seq::<MiddlewareView>::empty(),
    {
        let router = Router { layers: Vec::new() };
        assert(router@ =~= Seq::<MiddlewareView>::empty());
        router
    }
}

/// Request logging at level `Info`, for the span and for the response.
pub open spec fn info_tracing() -> MiddlewareView {
    MiddlewareView::Trace(TracePolicy { span: Level::Info, response: Level::Info })
}

/// Requests from every origin, with the headers `Content-Type` and
/// `Authorization`, by the given methods.
pub open spec fn open_cors(methods: Seq<Method>) -> MiddlewareView {
    MiddlewareView::Cors {
        any_origin: true,
        headers: seq![Header::ContentType, Header::Authorization],
        methods,
    }
}

fn info_tracing_layer() -> (layer: Middleware)
    ensures
        layer@ == info_tracing(),
{
    Middleware::Trace(TracePolicy { span: Level::Info, response: Level::Info })
}

fn open_cors_layer(methods: Vec<Method>) -> (layer: Middleware)
    ensures
        layer@ == open_cors(methods@),
{
    let mut headers: Vec<Header> = Vec::new();
    headers.push(Header::ContentType);
    headers.push(Header::Authorization);
    assert(headers@ =~= seq![Header::ContentType, Header::Authorization]);
    Middleware::Cors(CorsPolicy { any_origin: true, headers, methods })
}

/// Superseded: start from a router without layers and call
/// `attach_tracing_cors_middleware` once the routes are there. This router
/// has request logging wrapped in a policy that allows `GET` and `POST`
/// only, around no routes at all.
pub fn default_router() -> (router: Router)
    ensures
        router@ == seq![open_cors(seq![Method::Get, Method::Post]), info_tracing()],
{
    let mut methods: Vec<Method> = Vec::new();
    methods.push(Method::Get);
    methods.push(Method::Post);
    assert(methods@ =~= seq![Method::Get, Method::Post]);
    let mut layers: Vec<Middleware> = Vec::new();
    layers.push(open_cors_layer(methods));
    layers.push(info_tracing_layer());
    let router = Router { layers };
    assert(router@ =~= seq![open_cors(seq![Method::Get, Method::Post]), info_tracing()]);
    router
}

/// Wraps the routes and layers of `router` in two more layers: outermost
/// the logging of every request at level `Info`, and inside it a policy
/// that allows every origin, the headers `Content-Type` and
/// `Authorization`, and the methods `GET`, `POST` and `OPTIONS`.
pub fn attach_tracing_cors_middleware(router: Router) -> (out: Router)
    ensures
        out@ == seq![
            info_tracing(),
            open_cors(seq![Method::Get, Method::Post, Method::Options]),
        ] + router@,
{
    let mut methods: Vec<Method> = Vec::new();
    methods.push(Method::Get);
    methods.push(Method::Post);
    methods.push(Method::Options);
    assert(methods@ =~= seq![Method::Get, Method::Post, Method::Options]);
    let mut layers = router.layers;
    layers.insert(0, open_cors_layer(methods));
    layers.insert(0, info_tracing_layer());
    let out = Router { layers };
    assert(out@ =~= seq![
        info_tracing(),
        open_cors(seq![Method::Get, Method::Post, Method::Options]),
    ] + router@);
    out
}

/// `utoipa::openapi::OpenApi`: the description of an API. It is carried
/// to the renderer and nothing of it is known here.
#[verifier::external_type_specification]
#[verifier::external_body]
pub struct ExOpenApi(utoipa::openapi::OpenApi);

/// `serde_json::Error`: what the renderer answers when it fails.
#[verifier::external_type_specification]
#[verifier::external_body]
pub struct ExJsonError(serde_json::Error);

/// The steps of the export of an API description, in their order.
#[derive(Clone, Copy, Debug, PartialEq, Eq, Structural)]
pub enum ExportStep {
    /// The description is rendered as text.
    Render,
    /// The file is created, or emptied if it is there.
    Create,
    /// The text is written to the file.
    Write,
}

/// The kinds of failure of an export.
#[derive(Clone, Copy, Debug, PartialEq, Eq, Structural)]
pub enum ExportErrorKind {
    /// The description could not be rendered.
    Serialization,
    /// The file could not be created or written.
    Io,
}

/// A failed export: the kind of the failure, and its causes.
#[derive(Debug)]
pub struct ExportError {
    pub kind: ExportErrorKind,
    pub failure: Failure,
}

/// What could not be done when a step fails.
pub open spec fn export_context(step: ExportStep) -> Seq<char> {
    match step {
        ExportStep::Render => "Failed to generate open API spec"@,
        ExportStep::Create => "Failed to create open API spec file"@,
        ExportStep::Write => "Failed to write open api spec to file"@,
    }
}

/// The kind of failure of each step: rendering fails in serialization, the
/// two steps on the file fail in input and output.
pub open spec fn export_kind(step: ExportStep) -> ExportErrorKind {
    match step {
        ExportStep::Render => ExportErrorKind::Serialization,
        ExportStep::Create => ExportErrorKind::Io,
        ExportStep::Write => ExportErrorKind::Io,
    }
}

/// The error of an export that failed at `step` for the reasons of
/// `cause`: of the kind of the step, with the step's context before the
/// causes.
pub fn export_failure(step: ExportStep, cause: Failure) -> (error: ExportError)
    ensures
        error.kind == export_kind(step),
        error.failure@ == seq![export_context(step)] + cause@,
{
    match step {
        ExportStep::Render => ExportError {
            kind: ExportErrorKind::Serialization,
            failure: cause.context(String::from_str("Failed to generate open API spec")),
        },
        ExportStep::Create => ExportError {
            kind: ExportErrorKind::Io,
            failure: cause.context(String::from_str("Failed to create open API spec file")),
        },
        ExportStep::Write => ExportError {
            kind: ExportErrorKind::Io,
            failure: cause.context(String::from_str("Failed to write open api spec to file")),
        },
    }
}

/// Renders an API description with `utoipa::openapi::OpenApi::to_pretty_json`.
/// Nothing is claimed of the outcome: the order in which extensions are
/// written may differ from one run to the next.
#[verifier::external_body]
fn to_pretty_json(open_api: &utoipa::openapi::OpenApi) -> (out: Result<
    String,
    serde_json::Error,
>) {
    open_api.to_pretty_json()
}

/// The text to export once rendering has ended: the rendered text as it
/// is, or the renderer's message as the cause of a failure to render.
pub fn rendered_spec(rendered: Result<String, String>) -> (out: Result<String, ExportError>)
    ensures
        match rendered {
            Ok(text) => out matches Ok(same) && same@ == text@,
            Err(message) => out matches Err(error) && error.kind == ExportErrorKind::Serialization
                && error.failure@ == seq![export_context(ExportStep::Render), message@],
        },
{
    match rendered {
        Ok(text) => Ok(text),
        Err(message) => {
            let error = export_failure(ExportStep::Render, Failure::new(message));
            assert(error.failure@ =~= seq![export_context(ExportStep::Render), message@]);
            Err(error)
        },
    }
}

/// Renders an API description as the pretty-printed text to write to the
/// export file. Whatever the renderer answers, a failure is of kind
/// `Serialization` and has two causes, of which the first says that the
/// description could not be generated.
pub fn generate_open_api_spec_from_open_api(open_api: &utoipa::openapi::OpenApi) -> (out: Result<
    String,
    ExportError,
>)
    ensures
        out matches Err(error) ==> error.kind == ExportErrorKind::Serialization
            && error.failure@.len() == 2 && error.failure@[0] == export_context(
            ExportStep::Render,
        ),
{
    match to_pretty_json(open_api) {
        Ok(text) => rendered_spec(Ok(text)),
        Err(error) => rendered_spec(Err(error.to_string())),
    }
}

} // verus!
