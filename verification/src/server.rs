//! The server shell and the demonstration tool and resource handlers.
//!
//! The shell owns the process-wide state — here only the start instant — and
//! the handlers are its methods. Handlers that work with protocol numbers
//! take or return them as 64-bit IEEE 754 bit patterns, which this crate
//! carries opaquely; the caller that owns the transport does the numeric
//! work (see the dispatcher's pending operations).

use vstd::prelude::*;
use crate::protocol::{ErrorKind, ExampleData, ServerConfig, ServerError, ServerStatus,
    SpecExampleData, SpecServerConfig, SpecServerStatus};
use crate::text::{spec_join, spec_parse_u64, spec_udec, join_strings, parse_u64, u64_to_string};
use vstd::string::StringExecFns;

verus! {

/// Relies on std::time::Instant, an opaque monotonic time point.
#[verifier::external_type_specification]
#[verifier::external_body]
pub struct ExInstant(std::time::Instant);

/// Relies on std::time::Instant::now: some time point; nothing is assumed of
/// which one.
pub assume_specification[ std::time::Instant::now ]() -> std::time::Instant;

/// Relies on std::time::Instant::elapsed: some duration; nothing is assumed
/// of which one, since it depends on the clock.
pub assume_specification[ std::time::Instant::elapsed ](
    start: &std::time::Instant,
) -> core::time::Duration;

/// Relies on core::time::Duration::as_secs: the duration's whole seconds;
/// the duration itself is opaque, so nothing is assumed of the count.
pub assume_specification[ core::time::Duration::as_secs ](d: &core::time::Duration) -> u64;

/// Relies on rand::random: a value sampled from the standard distribution;
/// nothing is assumed of which value comes back.
pub assume_specification<T>[ rand::random::<T> ]() -> (r: T)
    where
        rand::distr::StandardUniform: rand::distr::Distribution<T>,
;

/// The template server: the state shared by every handler.
pub struct TemplateMcpServer {
    start_time: std::time::Instant,
}

impl Default for TemplateMcpServer {
    fn default() -> Self {
        TemplateMcpServer { start_time: std::time::Instant::now() }
    }
}

/// The status message of a running server.
pub open spec fn spec_status_text() -> Seq<char> {
    "Template MCP Server is running and ready to serve requests"@
}

/// The echoed form of `message`: prefixed by `prefix` when one is given,
/// by the word `Echo` otherwise, with a colon and a space between.
pub open spec fn spec_echo(message: Seq<char>, prefix: Option<Seq<char>>) -> Seq<char> {
    match prefix {
        Some(p) => p + ": "@ + message,
        None => "Echo: "@ + message,
    }
}

/// What processing `items` under `operation` yields: a count line, the items
/// joined, or the items joined in reverse order; an unknown operation is a
/// handler failure carrying the returned message.
pub open spec fn spec_process_list(items: Seq<Seq<char>>, operation: Seq<char>) -> Result<
    Seq<char>,
    Seq<char>,
> {
    if operation == "count"@ {
        Ok("List contains "@ + spec_udec(items.len()) + " items"@)
    } else if operation == "join"@ {
        Ok(spec_join(items, ", "@))
    } else if operation == "reverse"@ {
        Ok(spec_join(items.reverse(), ", "@))
    } else {
        Err("Unknown operation: "@ + operation + ". Supported: count, join, reverse"@)
    }
}

/// The entry id read from its text: its decimal reading, or 1 where the text
/// has none.
pub open spec fn spec_example_id(id: Seq<char>) -> u64 {
    match spec_parse_u64(id) {
        Some(v) => v,
        None => 1u64,
    }
}

/// The example data entry with id `n` and the given numeric value.
pub open spec fn spec_example_data_num(n: u64, value: u64) -> SpecExampleData {
    SpecExampleData {
        id: n,
        name: "Example Item "@ + spec_udec(n as nat),
        value: value,
        tags: seq!["example"@, "template"@, "id-"@ + spec_udec(n as nat)],
    }
}

/// The example data entry served for the id text `id`.
pub open spec fn spec_example_data(id: Seq<char>, value: u64) -> SpecExampleData {
    spec_example_data_num(spec_example_id(id), value)
}

/// The server status with the given uptime.
pub open spec fn spec_status(uptime: u64) -> SpecServerStatus {
    SpecServerStatus {
        name: "Template MCP Server"@,
        version: "0.1.0"@,
        uptime_seconds: uptime,
        tools_count: 6,
        resources_count: 3,
    }
}

/// The server configuration.
pub open spec fn spec_config() -> SpecServerConfig {
    SpecServerConfig {
        max_concurrent_requests: 100,
        timeout_seconds: 30,
        debug_mode: false,
        supported_formats: seq!["json"@, "text"@, "binary"@],
    }
}

/// The tags a created entry carries: the given ones, or none.
pub open spec fn spec_tags_or_empty(tags: Option<Seq<Seq<char>>>) -> Seq<Seq<char>> {
    match tags {
        Some(t) => t,
        None => Seq::empty(),
    }
}

impl TemplateMcpServer {
    /// Get server status and basic information.
    pub fn get_status(&self) -> (r: Result<String, ServerError>)
        ensures
            r matches Ok(s) && s@ == spec_status_text(),
    {
        Ok(String::from_str("Template MCP Server is running and ready to serve requests"))
    }

    /// Echo back a message, prefixed by `prefix` or by the word `Echo`.
    pub fn echo(&self, message: String, prefix: Option<String>) -> (r: Result<String, ServerError>)
        ensures
            r matches Ok(s) && s@ == spec_echo(message@, prefix.deep_view()),
    {
        match prefix {
            Some(p) => Ok(p.concat(": ").concat(message.as_str())),
            None => Ok(String::from_str("Echo: ").concat(message.as_str())),
        }
    }

    /// Create an example data entry: the name, numeric value (as its bit
    /// pattern) and tags are the given ones; the id is drawn at random, so
    /// nothing is said of it.
    pub fn create_data(&self, name: String, value: u64, tags: Option<Vec<String>>) -> (r: Result<
        ExampleData,
        ServerError,
    >)
        ensures
            r matches Ok(d) && d@.name == name@ && d@.value == value && d@.tags
                == spec_tags_or_empty(tags.deep_view()),
    {
        let id: u64 = rand::random();
        let tags_vec = match tags {
            Some(t) => t,
            None => Vec::new(),
        };
        let d = ExampleData { id, name, value, tags: tags_vec };
        proof {
            if tags is None {
                assert(d@.tags =~= Seq::<Seq<char>>::empty());
            }
        }
        Ok(d)
    }

    /// Process a list of items under the named operation: `count`, `join` or
    /// `reverse`; any other operation is a handler failure.
    pub fn process_list(&self, items: Vec<String>, operation: String) -> (r: Result<
        String,
        ServerError,
    >)
        ensures
            match spec_process_list(items.deep_view(), operation@) {
                Ok(s) => r matches Ok(v) && v@ == s,
                Err(m) => r matches Err(e) && e@.kind == ErrorKind::ToolFailed && e@.message == m,
            },
    {
        if operation == String::from_str("count") {
            let n = u64_to_string(items.len() as u64);
            let out = String::from_str("List contains ").concat(n.as_str()).concat(" items");
            Ok(out)
        } else if operation == String::from_str("join") {
            Ok(join_strings(&items, ", "))
        } else if operation == String::from_str("reverse") {
            let len = items.len();
            let mut rev: Vec<String> = Vec::new();
            let mut k: usize = len;
            proof {
                assert(rev.deep_view() =~= items.deep_view().subrange(
                    len as int,
                    len as int,
                ).reverse());
            }
            while k > 0
                invariant
                    0 <= k <= len,
                    len == items.deep_view().len(),
                    rev.deep_view() =~= items.deep_view().subrange(k as int, len as int).reverse(),
                decreases k,
            {
                let ghost pre = rev.deep_view();
                rev.push(items[k - 1].clone());
                proof {
                    assert(rev.deep_view() =~= pre.push(items.deep_view()[k - 1]));
                    assert(rev.deep_view() =~= items.deep_view().subrange(
                        k - 1,
                        len as int,
                    ).reverse());
                }
                k -= 1;
            }
            proof {
                assert(items.deep_view().subrange(0, len as int) =~= items.deep_view());
            }
            Ok(join_strings(&rev, ", "))
        } else {
            let message = String::from_str("Unknown operation: ").concat(operation.as_str())
                .concat(". Supported: count, join, reverse");
            Err(ServerError { kind: ErrorKind::ToolFailed, message })
        }
    }

    /// Fail when asked to; succeed otherwise.
    pub fn example_with_error(&self, should_fail: bool) -> (r: Result<String, ServerError>)
        ensures
            should_fail ==> (r matches Err(e) && e@.kind == ErrorKind::ToolFailed && e@.message
                == "This tool was asked to fail"@),
            !should_fail ==> (r matches Ok(s) && s@ == "Tool executed successfully"@),
    {
        if should_fail {
            Err(
                ServerError {
                    kind: ErrorKind::ToolFailed,
                    message: String::from_str("This tool was asked to fail"),
                },
            )
        } else {
            Ok(String::from_str("Tool executed successfully"))
        }
    }

    /// The server's current status; the uptime comes from the clock, so
    /// nothing is said of it beyond being some count of seconds.
    pub fn server_status_resource(&self) -> (r: Result<ServerStatus, ServerError>)
        ensures
            r matches Ok(s) && exists|up: u64| s@ == spec_status(up),
    {
        let uptime = self.start_time.elapsed();
        let secs = uptime.as_secs();
        let s = ServerStatus {
            name: String::from_str("Template MCP Server"),
            version: String::from_str("0.1.0"),
            uptime_seconds: secs,
            tools_count: 6,
            resources_count: 3,
        };
        proof {
            assert(s@ =~= spec_status(secs));
        }
        Ok(s)
    }

    /// The server's configuration settings.
    pub fn server_config_resource(&self) -> (r: Result<ServerConfig, ServerError>)
        ensures
            r matches Ok(c) && c@ == spec_config(),
    {
        let mut formats: Vec<String> = Vec::new();
        formats.push(String::from_str("json"));
        formats.push(String::from_str("text"));
        formats.push(String::from_str("binary"));
        let c = ServerConfig {
            max_concurrent_requests: 100,
            timeout_seconds: 30,
            debug_mode: false,
            supported_formats: formats,
        };
        proof {
            assert(c@.supported_formats =~= spec_config().supported_formats);
            assert(c@ =~= spec_config());
        }
        Ok(c)
    }

    /// The example data entry served for the id text `id`; an id without a
    /// decimal reading falls back to entry 1. The entry's numeric value is
    /// scaled from the id outside this crate and handed in as `value`, its
    /// 64-bit bit pattern.
    pub fn example_data_resource(&self, id: String, value: u64) -> (r: Result<
        ExampleData,
        ServerError,
    >)
        ensures
            r matches Ok(d) && d@ == spec_example_data(id@, value),
    {
        let n = match parse_u64(id.as_str()) {
            Some(v) => v,
            None => 1,
        };
        Ok(example_data_from(n, value))
    }

    /// A helper that is not exposed as a tool.
    pub fn internal_helper(&self) -> (r: String)
        ensures
            r@ == "This method is not exposed as an MCP tool"@,
    {
        String::from_str("This method is not exposed as an MCP tool")
    }
}

/// Builds the example data entry with id `n` and the given numeric value.
pub fn example_data_from(n: u64, value: u64) -> (r: ExampleData)
    ensures
        r@ == spec_example_data_num(n, value),
{
    let num = u64_to_string(n);
    let name = String::from_str("Example Item ").concat(num.as_str());
    let mut tags: Vec<String> = Vec::new();
    tags.push(String::from_str("example"));
    tags.push(String::from_str("template"));
    tags.push(String::from_str("id-").concat(num.as_str()));
    let r = ExampleData { id: n, name, value, tags };
    proof {
        assert(r@.tags =~= spec_example_data_num(n, value).tags);
        assert(r@ =~= spec_example_data_num(n, value));
    }
    r
}

} // verus!
