//! The dispatcher: turns a protocol request into a response through the
//! registries, and is the error boundary — every failure becomes a failure
//! response, never a fault.
//!
//! Two handlers end in arithmetic on protocol numbers, which this crate
//! carries only as 64-bit IEEE 754 bit patterns. Dispatching such a call
//! yields a pending operation instead of a response: the caller that owns
//! the numeric representation performs the operation and hands the result's
//! bit pattern to [`resume`], which builds the response.

use vstd::prelude::*;
use crate::protocol::{Arg, ArgValue, ErrorKind, Request, Response, SpecArgValue, SpecRequest,
    SpecResponse, Value};
use crate::resources::{ResourceKind, ResourceRegistry, SpecResourceDescriptor, capture_value,
    spec_capture_value, spec_resolve};
use crate::server::{TemplateMcpServer, example_data_from, spec_config, spec_echo,
    spec_example_data_num, spec_example_id, spec_process_list, spec_status, spec_status_text};
use crate::text::parse_u64;
use crate::tools::{SpecToolDescriptor, ToolKind, ToolRegistry, decode_args, spec_decode,
    spec_lookup};
use vstd::string::StringExecFns;

verus! {

/// An arithmetic step on protocol numbers, which only the caller that owns
/// their representation can perform. Numbers stand as bit patterns.
#[derive(Clone, Copy, Debug, PartialEq, Eq, Structural)]
pub enum FloatOp {
    /// Add the numbers whose bit patterns are `a` and `b`.
    Add { a: u64, b: u64 },
    /// Scale the entry id `id` by three halves, the numeric value of the
    /// example data entry.
    ScaleId { id: u64 },
}

/// What dispatching a request yields: a finished response, or a pending
/// arithmetic step to be fed back through [`resume`].
#[derive(Debug, PartialEq, Eq)]
pub enum Outcome {
    Done(Response),
    Pending(FloatOp),
}

/// Mathematical model of [`Outcome`].
#[verifier::ext_equal]
pub enum SpecOutcome {
    Done(SpecResponse),
    Pending(FloatOp),
}

impl View for Outcome {
    type V = SpecOutcome;

    open spec fn view(&self) -> SpecOutcome {
        match self {
            Outcome::Done(resp) => SpecOutcome::Done(resp@),
            Outcome::Pending(op) => SpecOutcome::Pending(*op),
        }
    }
}

impl DeepView for Outcome {
    type V = SpecOutcome;

    open spec fn deep_view(&self) -> SpecOutcome {
        self.view()
    }
}

/// A finished successful text response.
pub open spec fn spec_done_text(s: Seq<char>) -> SpecOutcome {
    SpecOutcome::Done(SpecResponse::Success { value: SpecValue::Text(s) })
}

/// A finished failure response.
pub open spec fn spec_done_failure(kind: ErrorKind, message: Seq<char>) -> SpecOutcome {
    SpecOutcome::Done(SpecResponse::Failure { kind, message })
}

/// The outcome when decoded arguments do not fit the handler's shape; under
/// a registry whose schemas match their handlers it is never reached.
pub open spec fn spec_malformed() -> SpecOutcome {
    spec_done_failure(ErrorKind::InvalidArgument, "malformed arguments"@)
}

/// What running the handler `kind` on the decoded arguments yields. A
/// handler that draws a random id gets it from `seed`.
pub open spec fn spec_run_tool(kind: ToolKind, dec: Seq<Option<SpecArgValue>>, seed: u64) -> SpecOutcome {
    match kind {
        ToolKind::GetStatus => spec_done_text(spec_status_text()),
        ToolKind::Echo => if dec.len() == 2 {
            match (dec[0], dec[1]) {
                (Some(SpecArgValue::Text(m)), Some(SpecArgValue::Text(p))) => spec_done_text(
                    spec_echo(m, Some(p)),
                ),
                (Some(SpecArgValue::Text(m)), None) => spec_done_text(spec_echo(m, None)),
                _ => spec_malformed(),
            }
        } else {
            spec_malformed()
        },
        ToolKind::AddNumbers => if dec.len() == 2 {
            match (dec[0], dec[1]) {
                (Some(SpecArgValue::Num(a)), Some(SpecArgValue::Num(b))) => SpecOutcome::Pending(
                    FloatOp::Add { a, b },
                ),
                _ => spec_malformed(),
            }
        } else {
            spec_malformed()
        },
        ToolKind::CreateData => if dec.len() == 3 {
            match (dec[0], dec[1], dec[2]) {
                (
                    Some(SpecArgValue::Text(name)),
                    Some(SpecArgValue::Num(v)),
                    Some(SpecArgValue::TextList(t)),
                ) => SpecOutcome::Done(
                    SpecResponse::Success {
                        value: SpecValue::Data(
                            crate::protocol::SpecExampleData {
                                id: seed,
                                name: name,
                                value: v,
                                tags: t,
                            },
                        ),
                    },
                ),
                (Some(SpecArgValue::Text(name)), Some(SpecArgValue::Num(v)), None) =>
                    SpecOutcome::Done(
                    SpecResponse::Success {
                        value: SpecValue::Data(
                            crate::protocol::SpecExampleData {
                                id: seed,
                                name: name,
                                value: v,
                                tags: Seq::empty(),
                            },
                        ),
                    },
                ),
                _ => spec_malformed(),
            }
        } else {
            spec_malformed()
        },
        ToolKind::ProcessList => if dec.len() == 2 {
            match (dec[0], dec[1]) {
                (Some(SpecArgValue::TextList(items)), Some(SpecArgValue::Text(op))) => match
                    spec_process_list(items, op) {
                    Ok(s) => spec_done_text(s),
                    Err(m) => spec_done_failure(ErrorKind::ToolFailed, m),
                },
                _ => spec_malformed(),
            }
        } else {
            spec_malformed()
        },
        ToolKind::ExampleWithError => if dec.len() == 1 {
            match dec[0] {
                Some(SpecArgValue::Flag(b)) => if b {
                    spec_done_failure(ErrorKind::ToolFailed, "This tool was asked to fail"@)
                } else {
                    spec_done_text("Tool executed successfully"@)
                },
                _ => spec_malformed(),
            }
        } else {
            spec_malformed()
        },
    }
}

/// What invoking the tool `name` with `args` against the registry `tools`
/// yields: unknown names and argument faults fail, and otherwise the
/// descriptor's handler runs on the decoded arguments.
pub open spec fn spec_invoke(
    tools: Seq<SpecToolDescriptor>,
    name: Seq<char>,
    args: Seq<crate::protocol::SpecArg>,
    seed: u64,
) -> SpecOutcome {
    match spec_lookup(tools, name) {
        None => spec_done_failure(ErrorKind::UnknownTool, "Unknown tool: "@ + name),
        Some(i) => match spec_decode(tools[i].params, args) {
            Err(m) => spec_done_failure(ErrorKind::InvalidArgument, m),
            Ok(d) => spec_run_tool(tools[i].kind, d, seed),
        },
    }
}

/// What reading `uri` against the registry `resources` yields: an unmatched
/// URI fails with `NotFound`, and otherwise the first matching descriptor's
/// handler runs on the captured parameters. The status resource reads the
/// clock, so its uptime comes from `uptime`.
pub open spec fn spec_read(
    resources: Seq<SpecResourceDescriptor>,
    uri: Seq<char>,
    uptime: u64,
) -> SpecOutcome {
    match spec_resolve(resources, uri) {
        None => spec_done_failure(ErrorKind::NotFound, "No resource matches URI: "@ + uri),
        Some((i, caps)) => match resources[i].kind {
            ResourceKind::Status => SpecOutcome::Done(
                SpecResponse::Success { value: SpecValue::Status(spec_status(uptime)) },
            ),
            ResourceKind::Config => SpecOutcome::Done(
                SpecResponse::Success { value: SpecValue::Config(spec_config()) },
            ),
            ResourceKind::ExampleEntry => SpecOutcome::Pending(
                FloatOp::ScaleId { id: spec_example_id(spec_capture_value(caps, "id"@)) },
            ),
        },
    }
}

/// What handling a request yields: tool calls go to the tool registry,
/// resource reads to the resource registry.
pub open spec fn spec_handle(
    tools: Seq<SpecToolDescriptor>,
    resources: Seq<SpecResourceDescriptor>,
    req: SpecRequest,
    seed: u64,
    uptime: u64,
) -> SpecOutcome {
    match req {
        SpecRequest::ToolCall { name, arguments } => spec_invoke(tools, name, arguments, seed),
        SpecRequest::ResourceRead { uri } => spec_read(resources, uri, uptime),
    }
}

use crate::protocol::SpecValue;

/// Copies a list of strings; the copy reads as the same sequence.
fn clone_string_vec(v: &Vec<String>) -> (r: Vec<String>)
    ensures
        r.deep_view() == v.deep_view(),
{
    let c = v.clone();
    proof {
        assert forall|i: int| 0 <= i < v@.len() implies c@[i]@ == v@[i]@ by {
            assert(vstd::pervasive::cloned::<String>(v@[i], c@[i]));
        }
        assert(c.deep_view() =~= v.deep_view());
    }
    c
}

fn malformed_outcome() -> (r: Outcome)
    ensures
        r@ == spec_malformed(),
{
    Outcome::Done(
        Response::Failure {
            kind: ErrorKind::InvalidArgument,
            message: String::from_str("malformed arguments"),
        },
    )
}

fn run_tool(server: &TemplateMcpServer, kind: ToolKind, dec: &Vec<Option<ArgValue>>) -> (r:
    Outcome)
    ensures
        exists|seed: u64| r@ == spec_run_tool(kind, dec.deep_view(), seed),
{
    let ghost dv = dec.deep_view();
    match kind {
        ToolKind::GetStatus => {
            let r = match server.get_status() {
                Ok(s) => Outcome::Done(Response::Success { value: Value::Text(s) }),
                Err(e) => Outcome::Done(crate::protocol::failure_of(e)),
            };
            proof {
                assert(r@ == spec_run_tool(kind, dv, 0u64));
            }
            r
        },
        ToolKind::Echo => {
            let r = if dec.len() == 2 {
                match (&dec[0], &dec[1]) {
                    (Some(ArgValue::Text(m)), Some(ArgValue::Text(p))) => {
                        match server.echo(m.clone(), Some(p.clone())) {
                            Ok(s) => Outcome::Done(Response::Success { value: Value::Text(s) }),
                            Err(e) => Outcome::Done(crate::protocol::failure_of(e)),
                        }
                    },
                    (Some(ArgValue::Text(m)), None) => {
                        match server.echo(m.clone(), None) {
                            Ok(s) => Outcome::Done(Response::Success { value: Value::Text(s) }),
                            Err(e) => Outcome::Done(crate::protocol::failure_of(e)),
                        }
                    },
                    _ => malformed_outcome(),
                }
            } else {
                malformed_outcome()
            };
            proof {
                assert(r@ == spec_run_tool(kind, dv, 0u64));
            }
            r
        },
        ToolKind::AddNumbers => {
            let r = if dec.len() == 2 {
                match (&dec[0], &dec[1]) {
                    (Some(ArgValue::Num(a)), Some(ArgValue::Num(b))) => Outcome::Pending(
                        FloatOp::Add { a: *a, b: *b },
                    ),
                    _ => malformed_outcome(),
                }
            } else {
                malformed_outcome()
            };
            proof {
                assert(r@ == spec_run_tool(kind, dv, 0u64));
            }
            r
        },
        ToolKind::CreateData => {
            if dec.len() == 3 {
                match (&dec[0], &dec[1], &dec[2]) {
                    (
                        Some(ArgValue::Text(name)),
                        Some(ArgValue::Num(v)),
                        Some(ArgValue::TextList(t)),
                    ) => {
                        match server.create_data(name.clone(), *v, Some(clone_string_vec(t))) {
                            Ok(d) => {
                                let ghost seed = d@.id;
                                let r = Outcome::Done(
                                    Response::Success { value: Value::Data(d) },
                                );
                                proof {
                                    assert(r@ == spec_run_tool(kind, dv, seed));
                                }
                                r
                            },
                            Err(e) => Outcome::Done(crate::protocol::failure_of(e)),
                        }
                    },
                    (Some(ArgValue::Text(name)), Some(ArgValue::Num(v)), None) => {
                        match server.create_data(name.clone(), *v, None) {
                            Ok(d) => {
                                let ghost seed = d@.id;
                                let r = Outcome::Done(
                                    Response::Success { value: Value::Data(d) },
                                );
                                proof {
                                    assert(r@ == spec_run_tool(kind, dv, seed));
                                }
                                r
                            },
                            Err(e) => Outcome::Done(crate::protocol::failure_of(e)),
                        }
                    },
                    _ => {
                        let r = malformed_outcome();
                        proof {
                            assert(r@ == spec_run_tool(kind, dv, 0u64));
                        }
                        r
                    },
                }
            } else {
                let r = malformed_outcome();
                proof {
                    assert(r@ == spec_run_tool(kind, dv, 0u64));
                }
                r
            }
        },
        ToolKind::ProcessList => {
            let r = if dec.len() == 2 {
                match (&dec[0], &dec[1]) {
                    (Some(ArgValue::TextList(items)), Some(ArgValue::Text(op))) => {
                        match server.process_list(clone_string_vec(items), op.clone()) {
                            Ok(s) => Outcome::Done(Response::Success { value: Value::Text(s) }),
                            Err(e) => Outcome::Done(crate::protocol::failure_of(e)),
                        }
                    },
                    _ => malformed_outcome(),
                }
            } else {
                malformed_outcome()
            };
            proof {
                assert(r@ == spec_run_tool(kind, dv, 0u64));
            }
            r
        },
        ToolKind::ExampleWithError => {
            let r = if dec.len() == 1 {
                match &dec[0] {
                    Some(ArgValue::Flag(b)) => {
                        match server.example_with_error(*b) {
                            Ok(s) => Outcome::Done(Response::Success { value: Value::Text(s) }),
                            Err(e) => Outcome::Done(crate::protocol::failure_of(e)),
                        }
                    },
                    _ => malformed_outcome(),
                }
            } else {
                malformed_outcome()
            };
            proof {
                assert(r@ == spec_run_tool(kind, dv, 0u64));
            }
            r
        },
    }
}

impl ToolRegistry {
    /// Decodes `args` against the named tool's schema and runs its handler.
    /// An unknown name fails with `UnknownTool`; argument faults fail with
    /// `InvalidArgument`; a handler failure keeps the handler's kind and
    /// message. A handler that draws a random id decides the drawn value
    /// itself, so the outcome is pinned only up to it.
    pub fn invoke(&self, server: &TemplateMcpServer, name: &String, args: &Vec<Arg>) -> (r:
        Outcome)
        ensures
            exists|seed: u64| r@ == spec_invoke(self@, name@, args.deep_view(), seed),
    {
        match self.lookup(name) {
            None => {
                let message = String::from_str("Unknown tool: ").concat(name.as_str());
                let r = Outcome::Done(Response::Failure { kind: ErrorKind::UnknownTool, message });
                proof {
                    assert(r@ == spec_invoke(self@, name@, args.deep_view(), 0u64));
                }
                r
            },
            Some(d) => match decode_args(&d.params, args) {
                Err(e) => {
                    let r = Outcome::Done(crate::protocol::failure_of(e));
                    proof {
                        assert(r@ == spec_invoke(self@, name@, args.deep_view(), 0u64));
                    }
                    r
                },
                Ok(dec) => {
                    let r = run_tool(server, d.kind, &dec);
                    proof {
                        let seed = choose|seed: u64|
                            r@ == spec_run_tool(d.kind, dec.deep_view(), seed);
                        assert(r@ == spec_invoke(self@, name@, args.deep_view(), seed));
                    }
                    r
                },
            },
        }
    }
}

impl ResourceRegistry {
    /// Resolves `uri` and runs the matched resource's handler on the captured
    /// parameters; an unmatched URI fails with `NotFound`. The status
    /// resource reads the clock, so the outcome is pinned only up to the
    /// uptime it reports.
    pub fn read(&self, server: &TemplateMcpServer, uri: &String) -> (r: Outcome)
        ensures
            exists|up: u64| r@ == spec_read(self@, uri@, up),
    {
        match self.resolve(uri) {
            None => {
                let message = String::from_str("No resource matches URI: ").concat(uri.as_str());
                let r = Outcome::Done(Response::Failure { kind: ErrorKind::NotFound, message });
                proof {
                    assert(r@ == spec_read(self@, uri@, 0u64));
                }
                r
            },
            Some((d, caps)) => match d.kind {
                ResourceKind::Status => match server.server_status_resource() {
                    Ok(s) => {
                        let ghost up = choose|u: u64| s@ == spec_status(u);
                        let r = Outcome::Done(Response::Success { value: Value::Status(s) });
                        proof {
                            assert(r@ == spec_read(self@, uri@, up));
                        }
                        r
                    },
                    Err(e) => Outcome::Done(crate::protocol::failure_of(e)),
                },
                ResourceKind::Config => {
                    let r = match server.server_config_resource() {
                        Ok(c) => Outcome::Done(Response::Success { value: Value::Config(c) }),
                        Err(e) => Outcome::Done(crate::protocol::failure_of(e)),
                    };
                    proof {
                        assert(r@ == spec_read(self@, uri@, 0u64));
                    }
                    r
                },
                ResourceKind::ExampleEntry => {
                    let id_text = capture_value(&caps, &String::from_str("id"));
                    let n = match parse_u64(id_text.as_str()) {
                        Some(v) => v,
                        None => 1,
                    };
                    let r = Outcome::Pending(FloatOp::ScaleId { id: n });
                    proof {
                        assert(r@ == spec_read(self@, uri@, 0u64));
                    }
                    r
                },
            },
        }
    }
}

/// Handles one request: a tool call goes to the tool registry, a resource
/// read to the resource registry. Every failure comes back as a failure
/// response; a handler that ends in number arithmetic comes back as a
/// pending operation for [`resume`].
pub fn handle(
    server: &TemplateMcpServer,
    tools: &ToolRegistry,
    resources: &ResourceRegistry,
    req: &Request,
) -> (r: Outcome)
    ensures
        exists|seed: u64, up: u64| r@ == spec_handle(tools@, resources@, req@, seed, up),
{
    match req {
        Request::ToolCall { name, arguments } => {
            let r = tools.invoke(server, name, arguments);
            proof {
                let seed = choose|seed: u64|
                    r@ == spec_invoke(tools@, name@, arguments.deep_view(), seed);
                assert(r@ == spec_handle(tools@, resources@, req@, seed, 0u64));
            }
            r
        },
        Request::ResourceRead { uri } => {
            let r = resources.read(server, uri);
            proof {
                let up = choose|u: u64| r@ == spec_read(resources@, uri@, u);
                assert(r@ == spec_handle(tools@, resources@, req@, 0u64, up));
            }
            r
        },
    }
}

/// The response a pending operation ends in, given the bit pattern of the
/// operation's numeric result.
pub open spec fn spec_resume(op: FloatOp, result_bits: u64) -> SpecResponse {
    match op {
        FloatOp::Add { .. } => SpecResponse::Success { value: SpecValue::Num(result_bits) },
        FloatOp::ScaleId { id } => SpecResponse::Success {
            value: SpecValue::Data(spec_example_data_num(id, result_bits)),
        },
    }
}

/// Finishes a pending operation: `result_bits` is the bit pattern of the
/// operation's numeric result, computed by the caller that owns the numeric
/// representation.
pub fn resume(op: &FloatOp, result_bits: u64) -> (r: Response)
    ensures
        r@ == spec_resume(*op, result_bits),
{
    match op {
        FloatOp::Add { .. } => Response::Success { value: Value::Num(result_bits) },
        FloatOp::ScaleId { id } => Response::Success {
            value: Value::Data(example_data_from(*id, result_bits)),
        },
    }
}

} // verus!
