//! Startup registration: the template server's tools and resources, entered
//! into fresh registries once, before any request is served.

use vstd::prelude::*;
use crate::resources::{ResourceDescriptor, ResourceKind, ResourceRegistry,
    SpecResourceDescriptor};
use crate::tools::{ParamSpec, ParamType, SpecParamSpec, SpecToolDescriptor, ToolDescriptor,
    ToolKind, ToolRegistry};
use vstd::string::StringExecFns;

verus! {

/// The descriptors of the template server's six tools, in registration order.
pub open spec fn spec_default_tools() -> Seq<SpecToolDescriptor> {
    seq![
        SpecToolDescriptor { name: "get_status"@, params: seq![], kind: ToolKind::GetStatus },
        SpecToolDescriptor {
            name: "echo"@,
            params: seq![
                SpecParamSpec { name: "message"@, ty: ParamType::Text, required: true },
                SpecParamSpec { name: "prefix"@, ty: ParamType::Text, required: false },
            ],
            kind: ToolKind::Echo,
        },
        SpecToolDescriptor {
            name: "add_numbers"@,
            params: seq![
                SpecParamSpec { name: "a"@, ty: ParamType::Num, required: true },
                SpecParamSpec { name: "b"@, ty: ParamType::Num, required: true },
            ],
            kind: ToolKind::AddNumbers,
        },
        SpecToolDescriptor {
            name: "create_data"@,
            params: seq![
                SpecParamSpec { name: "name"@, ty: ParamType::Text, required: true },
                SpecParamSpec { name: "value"@, ty: ParamType::Num, required: true },
                SpecParamSpec { name: "tags"@, ty: ParamType::TextList, required: false },
            ],
            kind: ToolKind::CreateData,
        },
        SpecToolDescriptor {
            name: "process_list"@,
            params: seq![
                SpecParamSpec { name: "items"@, ty: ParamType::TextList, required: true },
                SpecParamSpec { name: "operation"@, ty: ParamType::Text, required: true },
            ],
            kind: ToolKind::ProcessList,
        },
        SpecToolDescriptor {
            name: "example_with_error"@,
            params: seq![
                SpecParamSpec { name: "should_fail"@, ty: ParamType::Flag, required: true },
            ],
            kind: ToolKind::ExampleWithError,
        },
    ]
}

/// The descriptors of the template server's three resources, in registration
/// order.
pub open spec fn spec_default_resources() -> Seq<SpecResourceDescriptor> {
    seq![
        SpecResourceDescriptor {
            template: "template://server-status"@,
            name: "server_status"@,
            mime_type: "application/json"@,
            kind: ResourceKind::Status,
        },
        SpecResourceDescriptor {
            template: "template://server-config"@,
            name: "server_config"@,
            mime_type: "application/json"@,
            kind: ResourceKind::Config,
        },
        SpecResourceDescriptor {
            template: "template://example-data/{id}"@,
            name: "example_data"@,
            mime_type: "application/json"@,
            kind: ResourceKind::ExampleEntry,
        },
    ]
}

fn text_param(name: &str, required: bool) -> (r: ParamSpec)
    ensures
        r@ == (SpecParamSpec { name: name@, ty: ParamType::Text, required }),
{
    ParamSpec { name: name.to_owned(), ty: ParamType::Text, required }
}

fn num_param(name: &str) -> (r: ParamSpec)
    ensures
        r@ == (SpecParamSpec { name: name@, ty: ParamType::Num, required: true }),
{
    ParamSpec { name: name.to_owned(), ty: ParamType::Num, required: true }
}

/// Builds the template server's registries: the six tools and the three
/// resources, each registered exactly once, in the listed order.
pub fn build_registries() -> (r: (ToolRegistry, ResourceRegistry))
    ensures
        r.0@ == spec_default_tools(),
        r.0.wf(),
        r.1@ == spec_default_resources(),
        r.1.wf(),
{
    proof {
        reveal_strlit("get_status");
        reveal_strlit("echo");
        reveal_strlit("add_numbers");
        reveal_strlit("create_data");
        reveal_strlit("process_list");
        reveal_strlit("example_with_error");
        assert("get_status"@.len() == 10);
        assert("echo"@.len() == 4);
        assert("add_numbers"@.len() == 11);
        assert("create_data"@.len() == 11);
        assert("add_numbers"@[0] == 'a');
        assert("create_data"@[0] == 'c');
        assert("process_list"@.len() == 12);
        assert("example_with_error"@.len() == 18);
    }
    let mut tools = ToolRegistry::new();

    let d0 = ToolDescriptor {
        name: String::from_str("get_status"),
        params: Vec::new(),
        kind: ToolKind::GetStatus,
    };
    proof {
        assert(d0@ =~= spec_default_tools()[0]);
    }
    proof {
        crate::tools::lemma_lookup_none(tools@, "get_status"@);
    }
    let _ = tools.register(d0);
    proof {
        assert(tools@ =~= spec_default_tools().take(1));
    }

    let mut params: Vec<ParamSpec> = Vec::new();
    params.push(text_param("message", true));
    params.push(text_param("prefix", false));
    let d1 = ToolDescriptor { name: String::from_str("echo"), params, kind: ToolKind::Echo };
    proof {
        assert(d1@.params =~= spec_default_tools()[1].params);
        assert(d1@ =~= spec_default_tools()[1]);
    }
    proof {
        crate::tools::lemma_lookup_none(tools@, "echo"@);
    }
    let _ = tools.register(d1);
    proof {
        assert(tools@ =~= spec_default_tools().take(2));
    }

    let mut params: Vec<ParamSpec> = Vec::new();
    params.push(num_param("a"));
    params.push(num_param("b"));
    let d2 = ToolDescriptor {
        name: String::from_str("add_numbers"),
        params,
        kind: ToolKind::AddNumbers,
    };
    proof {
        assert(d2@.params =~= spec_default_tools()[2].params);
        assert(d2@ =~= spec_default_tools()[2]);
    }
    proof {
        crate::tools::lemma_lookup_none(tools@, "add_numbers"@);
    }
    let _ = tools.register(d2);
    proof {
        assert(tools@ =~= spec_default_tools().take(3));
    }

    let mut params: Vec<ParamSpec> = Vec::new();
    params.push(text_param("name", true));
    params.push(num_param("value"));
    params.push(
        ParamSpec { name: String::from_str("tags"), ty: ParamType::TextList, required: false },
    );
    let d3 = ToolDescriptor {
        name: String::from_str("create_data"),
        params,
        kind: ToolKind::CreateData,
    };
    proof {
        assert(d3@.params =~= spec_default_tools()[3].params);
        assert(d3@ =~= spec_default_tools()[3]);
    }
    proof {
        crate::tools::lemma_lookup_none(tools@, "create_data"@);
    }
    let _ = tools.register(d3);
    proof {
        assert(tools@ =~= spec_default_tools().take(4));
    }

    let mut params: Vec<ParamSpec> = Vec::new();
    params.push(
        ParamSpec { name: String::from_str("items"), ty: ParamType::TextList, required: true },
    );
    params.push(text_param("operation", true));
    let d4 = ToolDescriptor {
        name: String::from_str("process_list"),
        params,
        kind: ToolKind::ProcessList,
    };
    proof {
        assert(d4@.params =~= spec_default_tools()[4].params);
        assert(d4@ =~= spec_default_tools()[4]);
    }
    proof {
        crate::tools::lemma_lookup_none(tools@, "process_list"@);
    }
    let _ = tools.register(d4);
    proof {
        assert(tools@ =~= spec_default_tools().take(5));
    }

    let mut params: Vec<ParamSpec> = Vec::new();
    params.push(ParamSpec { name: String::from_str("should_fail"), ty: ParamType::Flag, required: true });
    let d5 = ToolDescriptor {
        name: String::from_str("example_with_error"),
        params,
        kind: ToolKind::ExampleWithError,
    };
    proof {
        assert(d5@.params =~= spec_default_tools()[5].params);
        assert(d5@ =~= spec_default_tools()[5]);
    }
    proof {
        crate::tools::lemma_lookup_none(tools@, "example_with_error"@);
    }
    let _ = tools.register(d5);
    proof {
        assert(tools@ =~= spec_default_tools());
    }

    proof {
        reveal_strlit("template://server-status");
        reveal_strlit("template://server-config");
        reveal_strlit("template://example-data/{id}");
        assert("template://server-status"@.len() == 24);
        assert("template://server-config"@.len() == 24);
        assert("template://example-data/{id}"@.len() == 28);
        assert("template://server-status"@[18] == 's');
        assert("template://server-config"@[18] == 'c');
    }
    let mut resources = ResourceRegistry::new();

    let r0 = ResourceDescriptor {
        template: String::from_str("template://server-status"),
        name: String::from_str("server_status"),
        mime_type: String::from_str("application/json"),
        kind: ResourceKind::Status,
    };
    proof {
        assert(r0@ =~= spec_default_resources()[0]);
    }
    let _ = resources.register(r0);
    proof {
        assert(resources@ =~= spec_default_resources().take(1));
    }

    let r1 = ResourceDescriptor {
        template: String::from_str("template://server-config"),
        name: String::from_str("server_config"),
        mime_type: String::from_str("application/json"),
        kind: ResourceKind::Config,
    };
    proof {
        assert(r1@ =~= spec_default_resources()[1]);
    }
    let _ = resources.register(r1);
    proof {
        assert(resources@ =~= spec_default_resources().take(2));
    }

    let r2 = ResourceDescriptor {
        template: String::from_str("template://example-data/{id}"),
        name: String::from_str("example_data"),
        mime_type: String::from_str("application/json"),
        kind: ResourceKind::ExampleEntry,
    };
    proof {
        assert(r2@ =~= spec_default_resources()[2]);
    }
    let _ = resources.register(r2);
    proof {
        assert(resources@ =~= spec_default_resources());
    }

    (tools, resources)
}

} // verus!
