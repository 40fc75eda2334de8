//! The tool registry: descriptors of the callable tools, lookup by name,
//! and decoding of call arguments against a descriptor's parameter schema.

use vstd::prelude::*;
use crate::protocol::{Arg, ArgValue, ErrorKind, ServerError, SpecArg, SpecArgValue};
use vstd::string::StringExecFns;

verus! {

/// The type a tool parameter expects.
#[derive(Clone, Copy, Debug, PartialEq, Eq, Structural)]
pub enum ParamType {
    Text,
    Num,
    Flag,
    TextList,
}

/// One parameter of a tool's schema.
#[derive(Debug, PartialEq, Eq)]
pub struct ParamSpec {
    pub name: String,
    pub ty: ParamType,
    pub required: bool,
}

/// Mathematical model of [`ParamSpec`].
#[verifier::ext_equal]
pub struct SpecParamSpec {
    pub name: Seq<char>,
    pub ty: ParamType,
    pub required: bool,
}

impl View for ParamSpec {
    type V = SpecParamSpec;

    open spec fn view(&self) -> SpecParamSpec {
        SpecParamSpec { name: self.name@, ty: self.ty, required: self.required }
    }
}

impl DeepView for ParamSpec {
    type V = SpecParamSpec;

    open spec fn deep_view(&self) -> SpecParamSpec {
        self.view()
    }
}

/// The handler a descriptor is registered for. The registries are populated
/// once at startup with a fixed set of handlers, so a handler is named by
/// variant rather than held as a function value.
#[derive(Clone, Copy, Debug, PartialEq, Eq, Structural)]
pub enum ToolKind {
    GetStatus,
    Echo,
    AddNumbers,
    CreateData,
    ProcessList,
    ExampleWithError,
}

/// The static metadata registered for one tool.
#[derive(Debug, PartialEq, Eq)]
pub struct ToolDescriptor {
    pub name: String,
    pub params: Vec<ParamSpec>,
    pub kind: ToolKind,
}

/// Mathematical model of [`ToolDescriptor`].
#[verifier::ext_equal]
pub struct SpecToolDescriptor {
    pub name: Seq<char>,
    pub params: Seq<SpecParamSpec>,
    pub kind: ToolKind,
}

impl View for ToolDescriptor {
    type V = SpecToolDescriptor;

    open spec fn view(&self) -> SpecToolDescriptor {
        SpecToolDescriptor { name: self.name@, params: self.params.deep_view(), kind: self.kind }
    }
}

impl DeepView for ToolDescriptor {
    type V = SpecToolDescriptor;

    open spec fn deep_view(&self) -> SpecToolDescriptor {
        self.view()
    }
}

/// The index of the first descriptor named `name`, if any.
pub open spec fn spec_lookup(tools: Seq<SpecToolDescriptor>, name: Seq<char>) -> Option<int>
    decreases tools.len(),
{
    if tools.len() == 0 {
        None
    } else if tools[0].name == name {
        Some(0)
    } else {
        match spec_lookup(tools.skip(1), name) {
            Some(i) => Some(i + 1),
            None => None,
        }
    }
}

/// A found index points at the first descriptor with the looked-up name.
pub proof fn lemma_lookup_found(tools: Seq<SpecToolDescriptor>, name: Seq<char>, i: int)
    requires
        spec_lookup(tools, name) == Some(i),
    ensures
        0 <= i < tools.len(),
        tools[i].name == name,
        forall|m: int| 0 <= m < i ==> tools[m].name != name,
    decreases tools.len(),
{
    if tools.len() > 0 && tools[0].name != name {
        let tail = tools.skip(1);
        lemma_lookup_found(tail, name, i - 1);
        assert forall|m: int| 0 <= m < i implies tools[m].name != name by {
            if m > 0 {
                assert(tail[m - 1] == tools[m]);
            }
        }
    }
}

/// A name that lookup does not find is carried by no descriptor.
pub proof fn lemma_lookup_not_found(tools: Seq<SpecToolDescriptor>, name: Seq<char>)
    requires
        spec_lookup(tools, name) is None,
    ensures
        forall|m: int| 0 <= m < tools.len() ==> (#[trigger] tools[m].name) != name,
    decreases tools.len(),
{
    if tools.len() > 0 {
        lemma_lookup_not_found(tools.skip(1), name);
        assert forall|m: int| 0 <= m < tools.len() implies (#[trigger] tools[m].name)
            != name by {
            if m > 0 {
                assert(tools.skip(1)[m - 1] == tools[m]);
            }
        }
    }
}

/// A name that no descriptor carries is not found.
pub proof fn lemma_lookup_none(tools: Seq<SpecToolDescriptor>, name: Seq<char>)
    requires
        forall|m: int| 0 <= m < tools.len() ==> (#[trigger] tools[m].name) != name,
    ensures
        spec_lookup(tools, name) is None,
    decreases tools.len(),
{
    if tools.len() > 0 {
        assert(tools.skip(1) =~= tools.subrange(1, tools.len() as int));
        assert(forall|m: int|
            0 <= m < tools.skip(1).len() ==> (#[trigger] tools.skip(1)[m].name) != name);
        lemma_lookup_none(tools.skip(1), name);
    }
}

/// The first index whose descriptor carries the name is the one found.
pub proof fn lemma_lookup_some(tools: Seq<SpecToolDescriptor>, name: Seq<char>, k: int)
    requires
        0 <= k < tools.len(),
        tools[k].name == name,
        forall|m: int| 0 <= m < k ==> (#[trigger] tools[m].name) != name,
    ensures
        spec_lookup(tools, name) == Some(k),
    decreases tools.len(),
{
    if k > 0 {
        let tail = tools.skip(1);
        assert(forall|m: int| 0 <= m < k - 1 ==> (#[trigger] tail[m].name) != name);
        lemma_lookup_some(tail, name, k - 1);
    }
}

/// No two descriptors share a name.
pub open spec fn unique_tool_names(tools: Seq<SpecToolDescriptor>) -> bool {
    forall|i: int, j: int|
        0 <= i < j < tools.len() ==> (#[trigger] tools[i].name) != (#[trigger] tools[j].name)
}

/// Maps each tool name to its descriptor and hands tool calls to their
/// handlers. Populated once at startup; read-only afterwards.
#[derive(Debug, PartialEq, Eq)]
pub struct ToolRegistry {
    tools: Vec<ToolDescriptor>,
}

impl View for ToolRegistry {
    type V = Seq<SpecToolDescriptor>;

    closed spec fn view(&self) -> Seq<SpecToolDescriptor> {
        self.tools.deep_view()
    }
}

impl ToolRegistry {
    /// The registry's invariant: tool names are unique.
    pub open spec fn wf(&self) -> bool {
        unique_tool_names(self@)
    }

    /// An empty registry.
    pub fn new() -> (r: ToolRegistry)
        ensures
            r@ == Seq::<SpecToolDescriptor>::empty(),
            r.wf(),
    {
        let r = ToolRegistry { tools: Vec::new() };
        proof {
            assert(r@ =~= Seq::<SpecToolDescriptor>::empty());
        }
        r
    }

    /// Adds a descriptor; fails, leaving the registry unchanged, if the name
    /// is already registered.
    pub fn register(&mut self, d: ToolDescriptor) -> (r: Result<(), ServerError>)
        requires
            old(self).wf(),
        ensures
            final(self).wf(),
            r is Ok <==> spec_lookup(old(self)@, d@.name) is None,
            r is Ok ==> final(self)@ == old(self)@.push(d@),
            r is Err ==> final(self)@ == old(self)@ && r->Err_0.kind
                == ErrorKind::InvalidArgument,
    {
        if self.lookup(&d.name).is_some() {
            let message = String::from_str("duplicate tool name: ").concat(d.name.as_str());
            return Err(ServerError { kind: ErrorKind::InvalidArgument, message });
        }
        let ghost pre = self.tools.deep_view();
        let ghost dv = d.deep_view();
        proof {
            lemma_lookup_not_found(pre, dv.name);
        }
        self.tools.push(d);
        proof {
            assert(self.tools.deep_view() =~= pre.push(dv));
            assert forall|i: int, j: int| 0 <= i < j < self@.len() implies (
            #[trigger] self@[i].name) != (#[trigger] self@[j].name) by {
                if j < pre.len() {
                    assert(pre[i].name != pre[j].name);
                }
            }
        }
        Ok(())
    }

    /// The registered descriptors, in registration order: the discovery
    /// listing of tool names and parameter schemas.
    pub fn descriptors(&self) -> (r: &Vec<ToolDescriptor>)
        ensures
            r.deep_view() == self@,
    {
        &self.tools
    }

    /// The first descriptor registered under `name`, if any.
    pub fn lookup(&self, name: &String) -> (r: Option<&ToolDescriptor>)
        ensures
            match spec_lookup(self@, name@) {
                Some(i) => r matches Some(d) && d@ == self@[i],
                None => r is None,
            },
    {
        let n = self.tools.len();
        let mut k: usize = 0;
        while k < n
            invariant
                0 <= k <= n,
                n == self@.len(),
                forall|m: int| 0 <= m < k ==> (#[trigger] self@[m].name) != name@,
            decreases n - k,
        {
            if self.tools[k].name == *name {
                proof {
                    lemma_lookup_some(self@, name@, k as int);
                }
                return Some(&self.tools[k]);
            }
            k += 1;
        }
        proof {
            lemma_lookup_none(self@, name@);
        }
        None
    }
}

/// The value of the first argument named `name`, if any.
pub open spec fn spec_find_arg(args: Seq<SpecArg>, name: Seq<char>) -> Option<SpecArgValue>
    decreases args.len(),
{
    if args.len() == 0 {
        None
    } else if args[0].name == name {
        Some(args[0].value)
    } else {
        spec_find_arg(args.skip(1), name)
    }
}

proof fn lemma_find_arg_none(args: Seq<SpecArg>, name: Seq<char>)
    requires
        forall|m: int| 0 <= m < args.len() ==> (#[trigger] args[m].name) != name,
    ensures
        spec_find_arg(args, name) is None,
    decreases args.len(),
{
    if args.len() > 0 {
        assert(forall|m: int|
            0 <= m < args.skip(1).len() ==> (#[trigger] args.skip(1)[m].name) != name);
        lemma_find_arg_none(args.skip(1), name);
    }
}

proof fn lemma_find_arg_some(args: Seq<SpecArg>, name: Seq<char>, k: int)
    requires
        0 <= k < args.len(),
        args[k].name == name,
        forall|m: int| 0 <= m < k ==> (#[trigger] args[m].name) != name,
    ensures
        spec_find_arg(args, name) == Some(args[k].value),
    decreases args.len(),
{
    if k > 0 {
        let tail = args.skip(1);
        assert(forall|m: int| 0 <= m < k - 1 ==> (#[trigger] tail[m].name) != name);
        lemma_find_arg_some(tail, name, k - 1);
    }
}

/// The first argument named `name`, in the order the caller sent them.
pub fn find_arg<'a>(args: &'a Vec<Arg>, name: &String) -> (r: Option<&'a ArgValue>)
    ensures
        match spec_find_arg(args.deep_view(), name@) {
            Some(v) => r matches Some(a) && a@ == v,
            None => r is None,
        },
{
    let n = args.len();
    let mut k: usize = 0;
    while k < n
        invariant
            0 <= k <= n,
            n == args.deep_view().len(),
            forall|m: int| 0 <= m < k ==> (#[trigger] args.deep_view()[m].name) != name@,
        decreases n - k,
    {
        if args[k].name == *name {
            proof {
                lemma_find_arg_some(args.deep_view(), name@, k as int);
            }
            return Some(&args[k].value);
        }
        k += 1;
    }
    proof {
        lemma_find_arg_none(args.deep_view(), name@);
    }
    None
}

/// Whether `v` is a value of the parameter type `ty`.
pub open spec fn type_matches(v: SpecArgValue, ty: ParamType) -> bool {
    match ty {
        ParamType::Text => v is Text,
        ParamType::Num => v is Num,
        ParamType::Flag => v is Flag,
        ParamType::TextList => v is TextList,
    }
}

/// `args` decoded against the schema `params`: one slot per parameter, in
/// schema order; a present value must match its declared type, a missing
/// required parameter is a fault, a missing optional parameter decodes to the
/// absent marker, and arguments naming no parameter are ignored. A fault
/// carries its message; the first faulty parameter, in schema order, decides.
pub open spec fn spec_decode(params: Seq<SpecParamSpec>, args: Seq<SpecArg>) -> Result<
    Seq<Option<SpecArgValue>>,
    Seq<char>,
>
    decreases params.len(),
{
    if params.len() == 0 {
        Ok(Seq::empty())
    } else {
        match spec_find_arg(args, params[0].name) {
            Some(v) => if type_matches(v, params[0].ty) {
                match spec_decode(params.skip(1), args) {
                    Ok(r) => Ok(seq![Some(v)] + r),
                    Err(m) => Err(m),
                }
            } else {
                Err("invalid type for parameter: "@ + params[0].name)
            },
            None => if params[0].required {
                Err("missing required parameter: "@ + params[0].name)
            } else {
                match spec_decode(params.skip(1), args) {
                    Ok(r) => Ok(seq![None] + r),
                    Err(m) => Err(m),
                }
            },
        }
    }
}

/// Decodes `args` against `params`; a fault is reported as `InvalidArgument`.
pub fn decode_args(params: &Vec<ParamSpec>, args: &Vec<Arg>) -> (r: Result<
    Vec<Option<ArgValue>>,
    ServerError,
>)
    ensures
        match spec_decode(params.deep_view(), args.deep_view()) {
            Ok(d) => r matches Ok(out) && out.deep_view() == d,
            Err(m) => r matches Err(e) && e.kind == ErrorKind::InvalidArgument && e@.message
                == m,
        },
{
    let ghost pv = params.deep_view();
    let ghost av = args.deep_view();
    let n = params.len();
    let mut out: Vec<Option<ArgValue>> = Vec::new();
    let mut i: usize = 0;
    proof {
        assert(pv.skip(0) =~= pv);
        if spec_decode(pv, av) is Ok {
            assert(out.deep_view() + spec_decode(pv, av)->Ok_0 =~= spec_decode(pv, av)->Ok_0);
        }
    }
    while i < n
        invariant
            0 <= i <= n,
            n == pv.len(),
            pv == params.deep_view(),
            av == args.deep_view(),
            out.deep_view().len() == i,
            match spec_decode(pv.skip(i as int), av) {
                Ok(t) => spec_decode(pv, av) == Ok::<Seq<Option<SpecArgValue>>, Seq<char>>(
                    out.deep_view() + t,
                ),
                Err(m) => spec_decode(pv, av) == Err::<Seq<Option<SpecArgValue>>, Seq<char>>(m),
            },
        decreases n - i,
    {
        let ghost tail = pv.skip(i as int);
        proof {
            assert(tail[0] == pv[i as int]);
            assert(tail.skip(1) =~= pv.skip(i + 1));
        }
        let p = &params[i];
        let ghost pre = out.deep_view();
        match find_arg(args, &p.name) {
            Some(v) => {
                let matches_ty = match (v, p.ty) {
                    (ArgValue::Text(_), ParamType::Text) => true,
                    (ArgValue::Num(_), ParamType::Num) => true,
                    (ArgValue::Flag(_), ParamType::Flag) => true,
                    (ArgValue::TextList(_), ParamType::TextList) => true,
                    _ => false,
                };
                if !matches_ty {
                    let message = String::from_str("invalid type for parameter: ").concat(
                        p.name.as_str(),
                    );
                    return Err(ServerError { kind: ErrorKind::InvalidArgument, message });
                }
                out.push(Some(v.clone()));
                proof {
                    assert(out.deep_view() =~= pre.push(Some(v.deep_view())));
                    if spec_decode(pv.skip(i + 1), av) is Ok {
                        let t = spec_decode(pv.skip(i + 1), av)->Ok_0;
                        assert(pre + (seq![Some(v.deep_view())] + t) =~= out.deep_view() + t);
                    }
                }
            },
            None => {
                if p.required {
                    let message = String::from_str("missing required parameter: ").concat(
                        p.name.as_str(),
                    );
                    return Err(ServerError { kind: ErrorKind::InvalidArgument, message });
                }
                out.push(None);
                proof {
                    assert(out.deep_view() =~= pre.push(None));
                    if spec_decode(pv.skip(i + 1), av) is Ok {
                        let t = spec_decode(pv.skip(i + 1), av)->Ok_0;
                        assert(pre + (seq![None] + t) =~= out.deep_view() + t);
                    }
                }
            },
        }
        i += 1;
    }
    proof {
        assert(pv.skip(n as int) =~= Seq::<SpecParamSpec>::empty());
        assert(out.deep_view() + Seq::<Option<SpecArgValue>>::empty() =~= out.deep_view());
    }
    Ok(out)
}

} // verus!
