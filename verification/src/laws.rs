//! Laws of the registries and the dispatcher, stated over the same spec
//! functions that the executable functions' contracts use.

use vstd::prelude::*;
use crate::dispatch::{spec_done_failure, spec_handle, spec_invoke, spec_run_tool};
use crate::protocol::{ErrorKind, SpecArg, SpecRequest};
use crate::resources::SpecResourceDescriptor;
use crate::tools::{SpecToolDescriptor, ToolKind, lemma_lookup_found, lemma_lookup_some,
    spec_decode, spec_lookup, unique_tool_names};

verus! {

/// Law: in a registry with unique names, looking up any registered tool's
/// name finds exactly that tool's descriptor.
pub proof fn lemma_lookup_registered(tools: Seq<SpecToolDescriptor>, i: int)
    requires
        unique_tool_names(tools),
        0 <= i < tools.len(),
    ensures
        spec_lookup(tools, tools[i].name) == Some(i),
{
    lemma_lookup_some(tools, tools[i].name, i);
}

/// Law: invoking a name that no descriptor carries always fails with
/// `UnknownTool`, whatever the arguments and whatever value the random
/// source would have drawn.
pub proof fn lemma_invoke_unknown_tool(
    tools: Seq<SpecToolDescriptor>,
    name: Seq<char>,
    args: Seq<SpecArg>,
    seed: u64,
)
    requires
        spec_lookup(tools, name) is None,
    ensures
        spec_invoke(tools, name, args, seed) == spec_done_failure(
            ErrorKind::UnknownTool,
            "Unknown tool: "@ + name,
        ),
{
}

/// Law: handling a tool call is deterministic — two identical requests
/// yield the same outcome, whatever the random source and the clock read —
/// provided the call is not to the data-creating tool, whose drawn id
/// differs from call to call. The registry hypothesis says only that the
/// data-creating handler stands under its own name.
pub proof fn lemma_tool_call_deterministic(
    tools: Seq<SpecToolDescriptor>,
    resources: Seq<SpecResourceDescriptor>,
    req: SpecRequest,
    seed1: u64,
    uptime1: u64,
    seed2: u64,
    uptime2: u64,
)
    requires
        req is ToolCall,
        req->ToolCall_name != "create_data"@,
        forall|i: int|
            0 <= i < tools.len() ==> ((#[trigger] tools[i]).kind == ToolKind::CreateData
                ==> tools[i].name == "create_data"@),
    ensures
        spec_handle(tools, resources, req, seed1, uptime1) == spec_handle(
            tools,
            resources,
            req,
            seed2,
            uptime2,
        ),
{
    let name = req->ToolCall_name;
    let args = req->ToolCall_arguments;
    match spec_lookup(tools, name) {
        None => {},
        Some(i) => {
            lemma_lookup_found(tools, name, i);
            assert(tools[i].kind != ToolKind::CreateData);
            match spec_decode(tools[i].params, args) {
                Err(_) => {},
                Ok(d) => {
                    assert(spec_run_tool(tools[i].kind, d, seed1) == spec_run_tool(
                        tools[i].kind,
                        d,
                        seed2,
                    ));
                },
            }
        },
    }
}

} // verus!
