//! Protocol data: argument and result values, requests, responses, and the
//! error taxonomy shared by the registries and the dispatcher.
//!
//! Numeric protocol values are carried as their 64-bit IEEE 754 bit
//! patterns; the core never interprets them, it only moves them between a
//! request and a response. The caller that owns the transport encodes and
//! decodes the patterns.

use vstd::prelude::*;

verus! {

/// The kinds of failure a request can end in.
#[derive(Clone, Copy, Debug, PartialEq, Eq, Structural)]
pub enum ErrorKind {
    /// A tool call named a tool that is not registered.
    UnknownTool,
    /// A required parameter was missing, or a value had the wrong type.
    InvalidArgument,
    /// The tool's handler itself reported a failure.
    ToolFailed,
    /// A resource read matched no registered URI template.
    NotFound,
    /// The resource's handler itself reported a failure.
    ResourceFailed,
}

/// A failure: a stable kind tag and a human-readable message.
#[derive(Debug, PartialEq, Eq)]
pub struct ServerError {
    pub kind: ErrorKind,
    pub message: String,
}

/// Mathematical model of [`ServerError`].
#[verifier::ext_equal]
pub struct SpecServerError {
    pub kind: ErrorKind,
    pub message: Seq<char>,
}

impl View for ServerError {
    type V = SpecServerError;

    open spec fn view(&self) -> SpecServerError {
        SpecServerError { kind: self.kind, message: self.message@ }
    }
}

impl DeepView for ServerError {
    type V = SpecServerError;

    open spec fn deep_view(&self) -> SpecServerError {
        self.view()
    }
}

/// A value handed to a tool as an argument.
#[derive(Debug, PartialEq, Eq)]
pub enum ArgValue {
    /// A string.
    Text(String),
    /// A number, as its 64-bit IEEE 754 bit pattern.
    Num(u64),
    /// A boolean.
    Flag(bool),
    /// A list of strings.
    TextList(Vec<String>),
}

/// Mathematical model of [`ArgValue`].
#[verifier::ext_equal]
pub enum SpecArgValue {
    Text(Seq<char>),
    Num(u64),
    Flag(bool),
    TextList(Seq<Seq<char>>),
}

impl View for ArgValue {
    type V = SpecArgValue;

    open spec fn view(&self) -> SpecArgValue {
        match self {
            ArgValue::Text(s) => SpecArgValue::Text(s@),
            ArgValue::Num(n) => SpecArgValue::Num(*n),
            ArgValue::Flag(b) => SpecArgValue::Flag(*b),
            ArgValue::TextList(l) => SpecArgValue::TextList(l.deep_view()),
        }
    }
}

impl DeepView for ArgValue {
    type V = SpecArgValue;

    open spec fn deep_view(&self) -> SpecArgValue {
        self.view()
    }
}

impl Clone for ArgValue {
    /// A clone carries the same modelled value.
    fn clone(&self) -> (res: Self)
        ensures
            res@ == self@,
    {
        match self {
            ArgValue::Text(s) => ArgValue::Text(s.clone()),
            ArgValue::Num(n) => ArgValue::Num(*n),
            ArgValue::Flag(b) => ArgValue::Flag(*b),
            ArgValue::TextList(l) => {
                let c = l.clone();
                proof {
                    assert forall|i: int| 0 <= i < l@.len() implies c@[i]@ == l@[i]@ by {
                        assert(vstd::pervasive::cloned::<String>(l@[i], c@[i]));
                    }
                    assert(c.deep_view() =~= l.deep_view());
                }
                ArgValue::TextList(c)
            },
        }
    }
}

/// A named argument of a tool call.
#[derive(Debug, PartialEq, Eq)]
pub struct Arg {
    pub name: String,
    pub value: ArgValue,
}

/// Mathematical model of [`Arg`].
#[verifier::ext_equal]
pub struct SpecArg {
    pub name: Seq<char>,
    pub value: SpecArgValue,
}

impl View for Arg {
    type V = SpecArg;

    open spec fn view(&self) -> SpecArg {
        SpecArg { name: self.name@, value: self.value@ }
    }
}

impl DeepView for Arg {
    type V = SpecArg;

    open spec fn deep_view(&self) -> SpecArg {
        self.view()
    }
}

/// Example data entry that the demonstration tools create and serve.
#[derive(Debug, PartialEq, Eq)]
pub struct ExampleData {
    pub id: u64,
    pub name: String,
    /// The entry's numeric value, as its 64-bit IEEE 754 bit pattern.
    pub value: u64,
    pub tags: Vec<String>,
}

/// Mathematical model of [`ExampleData`].
#[verifier::ext_equal]
pub struct SpecExampleData {
    pub id: u64,
    pub name: Seq<char>,
    pub value: u64,
    pub tags: Seq<Seq<char>>,
}

impl View for ExampleData {
    type V = SpecExampleData;

    open spec fn view(&self) -> SpecExampleData {
        SpecExampleData {
            id: self.id,
            name: self.name@,
            value: self.value,
            tags: self.tags.deep_view(),
        }
    }
}

impl DeepView for ExampleData {
    type V = SpecExampleData;

    open spec fn deep_view(&self) -> SpecExampleData {
        self.view()
    }
}

/// Server status information (exposed as a resource).
#[derive(Debug, PartialEq, Eq)]
pub struct ServerStatus {
    pub name: String,
    pub version: String,
    pub uptime_seconds: u64,
    pub tools_count: usize,
    pub resources_count: usize,
}

/// Mathematical model of [`ServerStatus`].
#[verifier::ext_equal]
pub struct SpecServerStatus {
    pub name: Seq<char>,
    pub version: Seq<char>,
    pub uptime_seconds: u64,
    pub tools_count: nat,
    pub resources_count: nat,
}

impl View for ServerStatus {
    type V = SpecServerStatus;

    open spec fn view(&self) -> SpecServerStatus {
        SpecServerStatus {
            name: self.name@,
            version: self.version@,
            uptime_seconds: self.uptime_seconds,
            tools_count: self.tools_count as nat,
            resources_count: self.resources_count as nat,
        }
    }
}

impl DeepView for ServerStatus {
    type V = SpecServerStatus;

    open spec fn deep_view(&self) -> SpecServerStatus {
        self.view()
    }
}

/// Server configuration (exposed as a resource).
#[derive(Debug, PartialEq, Eq)]
pub struct ServerConfig {
    pub max_concurrent_requests: usize,
    pub timeout_seconds: u64,
    pub debug_mode: bool,
    pub supported_formats: Vec<String>,
}

/// Mathematical model of [`ServerConfig`].
#[verifier::ext_equal]
pub struct SpecServerConfig {
    pub max_concurrent_requests: nat,
    pub timeout_seconds: u64,
    pub debug_mode: bool,
    pub supported_formats: Seq<Seq<char>>,
}

impl View for ServerConfig {
    type V = SpecServerConfig;

    open spec fn view(&self) -> SpecServerConfig {
        SpecServerConfig {
            max_concurrent_requests: self.max_concurrent_requests as nat,
            timeout_seconds: self.timeout_seconds,
            debug_mode: self.debug_mode,
            supported_formats: self.supported_formats.deep_view(),
        }
    }
}

impl DeepView for ServerConfig {
    type V = SpecServerConfig;

    open spec fn deep_view(&self) -> SpecServerConfig {
        self.view()
    }
}

/// A successful result of a tool call or a resource read.
#[derive(Debug, PartialEq, Eq)]
pub enum Value {
    /// A string result.
    Text(String),
    /// A numeric result, as its 64-bit IEEE 754 bit pattern.
    Num(u64),
    /// An example data entry.
    Data(ExampleData),
    /// The server status.
    Status(ServerStatus),
    /// The server configuration.
    Config(ServerConfig),
}

/// Mathematical model of [`Value`].
#[verifier::ext_equal]
pub enum SpecValue {
    Text(Seq<char>),
    Num(u64),
    Data(SpecExampleData),
    Status(SpecServerStatus),
    Config(SpecServerConfig),
}

impl View for Value {
    type V = SpecValue;

    open spec fn view(&self) -> SpecValue {
        match self {
            Value::Text(s) => SpecValue::Text(s@),
            Value::Num(n) => SpecValue::Num(*n),
            Value::Data(d) => SpecValue::Data(d@),
            Value::Status(s) => SpecValue::Status(s@),
            Value::Config(c) => SpecValue::Config(c@),
        }
    }
}

impl DeepView for Value {
    type V = SpecValue;

    open spec fn deep_view(&self) -> SpecValue {
        self.view()
    }
}

/// An inbound protocol request.
#[derive(Debug, PartialEq, Eq)]
pub enum Request {
    /// Call the tool `name` with the given named arguments.
    ToolCall { name: String, arguments: Vec<Arg> },
    /// Read the resource addressed by `uri`.
    ResourceRead { uri: String },
}

/// Mathematical model of [`Request`].
#[verifier::ext_equal]
pub enum SpecRequest {
    ToolCall { name: Seq<char>, arguments: Seq<SpecArg> },
    ResourceRead { uri: Seq<char> },
}

impl View for Request {
    type V = SpecRequest;

    open spec fn view(&self) -> SpecRequest {
        match self {
            Request::ToolCall { name, arguments } => SpecRequest::ToolCall {
                name: name@,
                arguments: arguments.deep_view(),
            },
            Request::ResourceRead { uri } => SpecRequest::ResourceRead { uri: uri@ },
        }
    }
}

impl DeepView for Request {
    type V = SpecRequest;

    open spec fn deep_view(&self) -> SpecRequest {
        self.view()
    }
}

/// The outbound envelope: every request ends in success or failure.
#[derive(Debug, PartialEq, Eq)]
pub enum Response {
    Success { value: Value },
    Failure { kind: ErrorKind, message: String },
}

/// Mathematical model of [`Response`].
#[verifier::ext_equal]
pub enum SpecResponse {
    Success { value: SpecValue },
    Failure { kind: ErrorKind, message: Seq<char> },
}

impl View for Response {
    type V = SpecResponse;

    open spec fn view(&self) -> SpecResponse {
        match self {
            Response::Success { value } => SpecResponse::Success { value: value@ },
            Response::Failure { kind, message } => SpecResponse::Failure {
                kind: *kind,
                message: message@,
            },
        }
    }
}

impl DeepView for Response {
    type V = SpecResponse;

    open spec fn deep_view(&self) -> SpecResponse {
        self.view()
    }
}

/// Turns an error into the failure response that carries it.
pub fn failure_of(e: ServerError) -> (r: Response)
    ensures
        r@ == (SpecResponse::Failure { kind: e@.kind, message: e@.message }),
{
    Response::Failure { kind: e.kind, message: e.message }
}

} // verus!
