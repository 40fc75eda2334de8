use template_mcp_server::dispatch::{handle, resume, FloatOp, Outcome};
use template_mcp_server::protocol::{
    Arg, ArgValue, ErrorKind, Request, Response, Value,
};
use template_mcp_server::resources::{ResourceDescriptor, ResourceKind, ResourceRegistry};
use template_mcp_server::server::TemplateMcpServer;
use template_mcp_server::setup::build_registries;
use template_mcp_server::tools::{ParamSpec, ParamType, ToolDescriptor, ToolKind, ToolRegistry};

fn server() -> TemplateMcpServer {
    TemplateMcpServer::default()
}

fn arg(name: &str, value: ArgValue) -> Arg {
    Arg {
        name: name.to_string(),
        value,
    }
}

fn text(s: &str) -> ArgValue {
    ArgValue::Text(s.to_string())
}

fn tool_call(name: &str, arguments: Vec<Arg>) -> Request {
    Request::ToolCall {
        name: name.to_string(),
        arguments,
    }
}

fn read(uri: &str) -> Request {
    Request::ResourceRead {
        uri: uri.to_string(),
    }
}

fn success_text(s: &str) -> Outcome {
    Outcome::Done(Response::Success {
        value: Value::Text(s.to_string()),
    })
}

#[test]
fn echo_without_prefix() {
    let out = server().echo("hi".to_string(), None).unwrap();
    assert_eq!(out, "Echo: hi");
}

#[test]
fn echo_with_prefix() {
    let out = server().echo("hi".to_string(), Some("Yo".to_string())).unwrap();
    assert_eq!(out, "Yo: hi");
}

#[test]
fn get_status_message() {
    let out = server().get_status().unwrap();
    assert_eq!(
        out,
        "Template MCP Server is running and ready to serve requests"
    );
}

#[test]
fn internal_helper_message() {
    assert_eq!(
        server().internal_helper(),
        "This method is not exposed as an MCP tool"
    );
}

#[test]
fn process_list_count() {
    let items = vec!["a".to_string(), "b".to_string(), "c".to_string()];
    let out = server().process_list(items, "count".to_string()).unwrap();
    assert_eq!(out, "List contains 3 items");
}

#[test]
fn process_list_join() {
    let items = vec!["a".to_string(), "b".to_string()];
    let out = server().process_list(items, "join".to_string()).unwrap();
    assert_eq!(out, "a, b");
}

#[test]
fn process_list_reverse() {
    let items = vec!["a".to_string(), "b".to_string()];
    let out = server().process_list(items, "reverse".to_string()).unwrap();
    assert_eq!(out, "b, a");
}

#[test]
fn process_list_unknown_operation() {
    let e = server()
        .process_list(Vec::new(), "bogus".to_string())
        .unwrap_err();
    assert_eq!(e.kind, ErrorKind::ToolFailed);
    assert_eq!(
        e.message,
        "Unknown operation: bogus. Supported: count, join, reverse"
    );
}

#[test]
fn example_with_error_fails_on_true() {
    let e = server().example_with_error(true).unwrap_err();
    assert_eq!(e.kind, ErrorKind::ToolFailed);
    assert_eq!(e.message, "This tool was asked to fail");
}

#[test]
fn example_with_error_succeeds_on_false() {
    let out = server().example_with_error(false).unwrap();
    assert_eq!(out, "Tool executed successfully");
}

#[test]
fn create_data_keeps_inputs() {
    let d = server()
        .create_data(
            "thing".to_string(),
            2.5f64.to_bits(),
            Some(vec!["x".to_string()]),
        )
        .unwrap();
    assert_eq!(d.name, "thing");
    assert_eq!(d.value, 2.5f64.to_bits());
    assert_eq!(d.tags, vec!["x".to_string()]);
}

#[test]
fn create_data_without_tags() {
    let d = server()
        .create_data("thing".to_string(), 0, None)
        .unwrap();
    assert!(d.tags.is_empty());
}

#[test]
fn config_resource_values() {
    let c = server().server_config_resource().unwrap();
    assert_eq!(c.max_concurrent_requests, 100);
    assert_eq!(c.timeout_seconds, 30);
    assert!(!c.debug_mode);
    assert_eq!(
        c.supported_formats,
        vec!["json".to_string(), "text".to_string(), "binary".to_string()]
    );
}

#[test]
fn status_resource_values() {
    let s = server().server_status_resource().unwrap();
    assert_eq!(s.name, "Template MCP Server");
    assert_eq!(s.version, "0.1.0");
    assert_eq!(s.tools_count, 6);
    assert_eq!(s.resources_count, 3);
}

#[test]
fn example_data_resource_parses_id() {
    let d = server()
        .example_data_resource("42".to_string(), 63.0f64.to_bits())
        .unwrap();
    assert_eq!(d.id, 42);
    assert_eq!(d.name, "Example Item 42");
    assert_eq!(
        d.tags,
        vec![
            "example".to_string(),
            "template".to_string(),
            "id-42".to_string()
        ]
    );
    assert_eq!(d.value, 63.0f64.to_bits());
}

#[test]
fn example_data_resource_falls_back_to_one() {
    let d = server()
        .example_data_resource("not-a-number".to_string(), 0)
        .unwrap();
    assert_eq!(d.id, 1);
    assert_eq!(d.name, "Example Item 1");
}

#[test]
fn lookup_finds_every_registered_tool() {
    let (tools, _) = build_registries();
    for name in [
        "get_status",
        "echo",
        "add_numbers",
        "create_data",
        "process_list",
        "example_with_error",
    ] {
        let d = tools.lookup(&name.to_string()).expect("registered tool");
        assert_eq!(d.name, name);
    }
}

#[test]
fn lookup_misses_unregistered_name() {
    let (tools, _) = build_registries();
    assert!(tools.lookup(&"nope".to_string()).is_none());
}

#[test]
fn register_rejects_duplicate_name() {
    let mut tools = ToolRegistry::new();
    let make = || ToolDescriptor {
        name: "twice".to_string(),
        params: Vec::new(),
        kind: ToolKind::GetStatus,
    };
    assert!(tools.register(make()).is_ok());
    let e = tools.register(make()).unwrap_err();
    assert_eq!(e.kind, ErrorKind::InvalidArgument);
}

#[test]
fn invoke_unknown_tool_fails() {
    let srv = server();
    let (tools, resources) = build_registries();
    let out = handle(&srv, &tools, &resources, &tool_call("nope", Vec::new()));
    assert_eq!(
        out,
        Outcome::Done(Response::Failure {
            kind: ErrorKind::UnknownTool,
            message: "Unknown tool: nope".to_string(),
        })
    );
}

#[test]
fn invoke_echo_through_dispatcher() {
    let srv = server();
    let (tools, resources) = build_registries();
    let req = tool_call(
        "echo",
        vec![arg("message", text("hi")), arg("prefix", text("Yo"))],
    );
    let out = handle(&srv, &tools, &resources, &req);
    assert_eq!(out, success_text("Yo: hi"));
}

#[test]
fn invoke_ignores_extra_arguments() {
    let srv = server();
    let (tools, resources) = build_registries();
    let req = tool_call(
        "echo",
        vec![arg("message", text("hi")), arg("junk", ArgValue::Num(0))],
    );
    let out = handle(&srv, &tools, &resources, &req);
    assert_eq!(out, success_text("Echo: hi"));
}

#[test]
fn invoke_missing_required_parameter() {
    let srv = server();
    let (tools, resources) = build_registries();
    let req = tool_call("echo", vec![arg("prefix", text("Yo"))]);
    let out = handle(&srv, &tools, &resources, &req);
    assert_eq!(
        out,
        Outcome::Done(Response::Failure {
            kind: ErrorKind::InvalidArgument,
            message: "missing required parameter: message".to_string(),
        })
    );
}

#[test]
fn invoke_wrong_parameter_type() {
    let srv = server();
    let (tools, resources) = build_registries();
    let req = tool_call("echo", vec![arg("message", ArgValue::Flag(true))]);
    let out = handle(&srv, &tools, &resources, &req);
    assert_eq!(
        out,
        Outcome::Done(Response::Failure {
            kind: ErrorKind::InvalidArgument,
            message: "invalid type for parameter: message".to_string(),
        })
    );
}

#[test]
fn add_numbers_round_trip() {
    let srv = server();
    let (tools, resources) = build_registries();
    let req = tool_call(
        "add_numbers",
        vec![
            arg("a", ArgValue::Num(2.0f64.to_bits())),
            arg("b", ArgValue::Num(3.5f64.to_bits())),
        ],
    );
    let out = handle(&srv, &tools, &resources, &req);
    let op = match out {
        Outcome::Pending(op) => op,
        other => panic!("expected a pending operation, got {:?}", other),
    };
    assert_eq!(
        op,
        FloatOp::Add {
            a: 2.0f64.to_bits(),
            b: 3.5f64.to_bits(),
        }
    );
    let (a, b) = match op {
        FloatOp::Add { a, b } => (f64::from_bits(a), f64::from_bits(b)),
        other => panic!("expected an addition, got {:?}", other),
    };
    let resp = resume(&op, (a + b).to_bits());
    assert_eq!(
        resp,
        Response::Success {
            value: Value::Num(5.5f64.to_bits()),
        }
    );
}

#[test]
fn identical_tool_calls_agree() {
    let srv = server();
    let (tools, resources) = build_registries();
    let req = || tool_call("echo", vec![arg("message", text("same"))]);
    let first = handle(&srv, &tools, &resources, &req());
    let second = handle(&srv, &tools, &resources, &req());
    assert_eq!(first, second);
}

#[test]
fn resolve_captures_template_id() {
    let (_, resources) = build_registries();
    let (d, caps) = resources
        .resolve(&"template://example-data/42".to_string())
        .expect("template should match");
    assert_eq!(d.name, "example_data");
    assert_eq!(caps.len(), 1);
    assert_eq!(caps[0].name, "id");
    assert_eq!(caps[0].value, "42");
}

#[test]
fn read_example_data_scales_id() {
    let srv = server();
    let (tools, resources) = build_registries();
    let out = handle(&srv, &tools, &resources, &read("template://example-data/42"));
    let op = match out {
        Outcome::Pending(op) => op,
        other => panic!("expected a pending operation, got {:?}", other),
    };
    assert_eq!(op, FloatOp::ScaleId { id: 42 });
    let value = (42.0f64 * 1.5).to_bits();
    let resp = resume(&op, value);
    let d = match resp {
        Response::Success {
            value: Value::Data(d),
        } => d,
        other => panic!("expected a data entry, got {:?}", other),
    };
    assert_eq!(d.id, 42);
    assert_eq!(d.name, "Example Item 42");
    assert_eq!(d.value, value);
    assert_eq!(
        d.tags,
        vec![
            "example".to_string(),
            "template".to_string(),
            "id-42".to_string()
        ]
    );
}

#[test]
fn read_example_data_unparsable_id_falls_back() {
    let srv = server();
    let (tools, resources) = build_registries();
    let out = handle(&srv, &tools, &resources, &read("template://example-data/zzz"));
    assert_eq!(out, Outcome::Pending(FloatOp::ScaleId { id: 1 }));
}

#[test]
fn read_status_resource() {
    let srv = server();
    let (tools, resources) = build_registries();
    let out = handle(&srv, &tools, &resources, &read("template://server-status"));
    let s = match out {
        Outcome::Done(Response::Success {
            value: Value::Status(s),
        }) => s,
        other => panic!("expected a status value, got {:?}", other),
    };
    assert_eq!(s.name, "Template MCP Server");
    assert_eq!(s.version, "0.1.0");
    assert_eq!(s.tools_count, 6);
    assert_eq!(s.resources_count, 3);
}

#[test]
fn read_config_resource() {
    let srv = server();
    let (tools, resources) = build_registries();
    let out = handle(&srv, &tools, &resources, &read("template://server-config"));
    let c = match out {
        Outcome::Done(Response::Success {
            value: Value::Config(c),
        }) => c,
        other => panic!("expected a config value, got {:?}", other),
    };
    assert_eq!(c.max_concurrent_requests, 100);
    assert_eq!(c.timeout_seconds, 30);
}

#[test]
fn read_unmatched_uri_fails() {
    let srv = server();
    let (tools, resources) = build_registries();
    let out = handle(&srv, &tools, &resources, &read("template://nope"));
    assert_eq!(
        out,
        Outcome::Done(Response::Failure {
            kind: ErrorKind::NotFound,
            message: "No resource matches URI: template://nope".to_string(),
        })
    );
}

#[test]
fn schemas_of_registered_tools() {
    let (tools, _) = build_registries();
    let d = tools.lookup(&"create_data".to_string()).unwrap();
    let expect = [("name", ParamType::Text, true),
        ("value", ParamType::Num, true),
        ("tags", ParamType::TextList, false)];
    assert_eq!(d.params.len(), expect.len());
    for (p, (name, ty, required)) in d.params.iter().zip(expect.iter()) {
        let want = ParamSpec {
            name: name.to_string(),
            ty: *ty,
            required: *required,
        };
        assert_eq!(p, &want);
    }
}

#[test]
fn metadata_lists_tools_and_resources() {
    let (tools, resources) = build_registries();
    let tool_names: Vec<&str> = tools.descriptors().iter().map(|d| d.name.as_str()).collect();
    assert_eq!(
        tool_names,
        vec![
            "get_status",
            "echo",
            "add_numbers",
            "create_data",
            "process_list",
            "example_with_error"
        ]
    );
    let templates: Vec<&str> = resources
        .descriptors()
        .iter()
        .map(|d| d.template.as_str())
        .collect();
    assert_eq!(
        templates,
        vec![
            "template://server-status",
            "template://server-config",
            "template://example-data/{id}"
        ]
    );
    for d in resources.descriptors() {
        assert_eq!(d.mime_type, "application/json");
    }
}

#[test]
fn ambiguous_templates_first_registration_wins() {
    let mut reg = ResourceRegistry::new();
    let mk = |template: &str, name: &str, kind: ResourceKind| ResourceDescriptor {
        template: template.to_string(),
        name: name.to_string(),
        mime_type: "application/json".to_string(),
        kind,
    };
    assert!(reg.register(mk("demo/{x}", "wild", ResourceKind::Status)).is_ok());
    assert!(reg.register(mk("demo/b", "literal", ResourceKind::Config)).is_ok());
    let (d, caps) = reg.resolve(&"demo/b".to_string()).expect("a template matches");
    assert_eq!(d.name, "wild");
    assert_eq!(caps.len(), 1);
    assert_eq!(caps[0].name, "x");
    assert_eq!(caps[0].value, "b");
}

#[test]
fn register_rejects_duplicate_template() {
    let mut reg = ResourceRegistry::new();
    let mk = || ResourceDescriptor {
        template: "demo/{x}".to_string(),
        name: "wild".to_string(),
        mime_type: "application/json".to_string(),
        kind: ResourceKind::Status,
    };
    assert!(reg.register(mk()).is_ok());
    let e = reg.register(mk()).unwrap_err();
    assert_eq!(e.kind, ErrorKind::InvalidArgument);
}
