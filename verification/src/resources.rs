//! The resource registry: descriptors of the readable resources, and
//! resolution of a concrete URI against the registered URI templates.
//!
//! A URI template is a string whose path segments are either literals or
//! `{param}` placeholders. A URI matches a template when both split into the
//! same number of `/`-separated segments, every literal segment is equal, and
//! every placeholder segment captures the URI's segment under the
//! placeholder's name. The first matching template, in registration order,
//! wins.

use vstd::prelude::*;
use crate::protocol::{ErrorKind, ServerError};
use crate::text::{spec_split, split_char};
use vstd::string::StrSliceExecFns;
use vstd::string::StringExecFns;

verus! {

/// The handler a resource descriptor is registered for.
#[derive(Clone, Copy, Debug, PartialEq, Eq, Structural)]
pub enum ResourceKind {
    Status,
    Config,
    ExampleEntry,
}

/// The static metadata registered for one resource.
#[derive(Debug, PartialEq, Eq)]
pub struct ResourceDescriptor {
    pub template: String,
    pub name: String,
    pub mime_type: String,
    pub kind: ResourceKind,
}

/// Mathematical model of [`ResourceDescriptor`].
#[verifier::ext_equal]
pub struct SpecResourceDescriptor {
    pub template: Seq<char>,
    pub name: Seq<char>,
    pub mime_type: Seq<char>,
    pub kind: ResourceKind,
}

impl View for ResourceDescriptor {
    type V = SpecResourceDescriptor;

    open spec fn view(&self) -> SpecResourceDescriptor {
        SpecResourceDescriptor {
            template: self.template@,
            name: self.name@,
            mime_type: self.mime_type@,
            kind: self.kind,
        }
    }
}

impl DeepView for ResourceDescriptor {
    type V = SpecResourceDescriptor;

    open spec fn deep_view(&self) -> SpecResourceDescriptor {
        self.view()
    }
}

/// A parameter captured while matching a URI against a template.
#[derive(Debug, PartialEq, Eq)]
pub struct Capture {
    pub name: String,
    pub value: String,
}

/// Mathematical model of [`Capture`].
#[verifier::ext_equal]
pub struct SpecCapture {
    pub name: Seq<char>,
    pub value: Seq<char>,
}

impl View for Capture {
    type V = SpecCapture;

    open spec fn view(&self) -> SpecCapture {
        SpecCapture { name: self.name@, value: self.value@ }
    }
}

impl DeepView for Capture {
    type V = SpecCapture;

    open spec fn deep_view(&self) -> SpecCapture {
        self.view()
    }
}

/// Whether a template segment is a `{param}` placeholder.
pub open spec fn is_param_segment(seg: Seq<char>) -> bool {
    seg.len() >= 2 && seg[0] == '{' && seg[seg.len() - 1] == '}'
}

/// The parameter name inside a `{param}` placeholder segment.
pub open spec fn param_name(seg: Seq<char>) -> Seq<char> {
    seg.subrange(1, seg.len() - 1)
}

/// The captures of matching the URI segments `u` against the template
/// segments `t`, or nothing if they do not match.
pub open spec fn spec_match_segments(t: Seq<Seq<char>>, u: Seq<Seq<char>>) -> Option<
    Seq<SpecCapture>,
>
    decreases t.len(),
{
    if t.len() != u.len() {
        None
    } else if t.len() == 0 {
        Some(Seq::empty())
    } else {
        let rest = spec_match_segments(t.skip(1), u.skip(1));
        if is_param_segment(t[0]) {
            match rest {
                Some(r) => Some(seq![SpecCapture { name: param_name(t[0]), value: u[0] }] + r),
                None => None,
            }
        } else if t[0] == u[0] {
            rest
        } else {
            None
        }
    }
}

/// Matches URI segments against template segments, capturing parameters.
pub fn match_segments(t: &Vec<String>, u: &Vec<String>) -> (r: Option<Vec<Capture>>)
    ensures
        match spec_match_segments(t.deep_view(), u.deep_view()) {
            Some(c) => r matches Some(out) && out.deep_view() == c,
            None => r is None,
        },
{
    let ghost tv = t.deep_view();
    let ghost uv = u.deep_view();
    if t.len() != u.len() {
        return None;
    }
    let n = t.len();
    let mut caps: Vec<Capture> = Vec::new();
    let mut i: usize = 0;
    proof {
        assert(tv.skip(0) =~= tv);
        assert(uv.skip(0) =~= uv);
        if spec_match_segments(tv, uv) is Some {
            assert(caps.deep_view() + spec_match_segments(tv, uv)->Some_0 =~= spec_match_segments(
                tv,
                uv,
            )->Some_0);
        }
    }
    while i < n
        invariant
            0 <= i <= n,
            n == tv.len() == uv.len(),
            tv == t.deep_view(),
            uv == u.deep_view(),
            match spec_match_segments(tv.skip(i as int), uv.skip(i as int)) {
                Some(c) => spec_match_segments(tv, uv) == Some(caps.deep_view() + c),
                None => spec_match_segments(tv, uv) is None,
            },
        decreases n - i,
    {
        proof {
            assert(tv.skip(i as int)[0] == tv[i as int]);
            assert(uv.skip(i as int)[0] == uv[i as int]);
            assert(tv.skip(i as int).skip(1) =~= tv.skip(i + 1));
            assert(uv.skip(i as int).skip(1) =~= uv.skip(i + 1));
        }
        let seg = &t[i];
        let len = seg.as_str().unicode_len();
        let is_param = len >= 2 && seg.as_str().get_char(0) == '{' && seg.as_str().get_char(
            len - 1,
        ) == '}';
        if is_param {
            let name = seg.as_str().substring_char(1, len - 1).to_owned();
            let value = u[i].clone();
            let ghost pre = caps.deep_view();
            caps.push(Capture { name, value });
            proof {
                assert(caps.deep_view() =~= pre.push(
                    SpecCapture { name: param_name(tv[i as int]), value: uv[i as int] },
                ));
                if spec_match_segments(tv.skip(i + 1), uv.skip(i + 1)) is Some {
                    let c = spec_match_segments(tv.skip(i + 1), uv.skip(i + 1))->Some_0;
                    assert(pre + (seq![
                        SpecCapture { name: param_name(tv[i as int]), value: uv[i as int] },
                    ] + c) =~= caps.deep_view() + c);
                }
            }
        } else {
            if !(*seg == u[i]) {
                return None;
            }
        }
        i += 1;
    }
    proof {
        assert(tv.skip(n as int) =~= Seq::<Seq<char>>::empty());
        assert(uv.skip(n as int) =~= Seq::<Seq<char>>::empty());
        assert(caps.deep_view() + Seq::<SpecCapture>::empty() =~= caps.deep_view());
    }
    Some(caps)
}

/// The first registered descriptor whose template matches `uri`, with its
/// captures, if any.
pub open spec fn spec_resolve(resources: Seq<SpecResourceDescriptor>, uri: Seq<char>) -> Option<
    (int, Seq<SpecCapture>),
>
    decreases resources.len(),
{
    if resources.len() == 0 {
        None
    } else {
        match spec_match_segments(spec_split(resources[0].template, '/'), spec_split(uri, '/')) {
            Some(c) => Some((0, c)),
            None => match spec_resolve(resources.skip(1), uri) {
                Some((i, c)) => Some((i + 1, c)),
                None => None,
            },
        }
    }
}

proof fn lemma_resolve_none(resources: Seq<SpecResourceDescriptor>, uri: Seq<char>)
    requires
        forall|m: int|
            0 <= m < resources.len() ==> spec_match_segments(
                spec_split((#[trigger] resources[m]).template, '/'),
                spec_split(uri, '/'),
            ) is None,
    ensures
        spec_resolve(resources, uri) is None,
    decreases resources.len(),
{
    if resources.len() > 0 {
        assert(forall|m: int|
            0 <= m < resources.skip(1).len() ==> spec_match_segments(
                spec_split((#[trigger] resources.skip(1)[m]).template, '/'),
                spec_split(uri, '/'),
            ) is None);
        lemma_resolve_none(resources.skip(1), uri);
    }
}

proof fn lemma_resolve_some(
    resources: Seq<SpecResourceDescriptor>,
    uri: Seq<char>,
    k: int,
    c: Seq<SpecCapture>,
)
    requires
        0 <= k < resources.len(),
        spec_match_segments(spec_split(resources[k].template, '/'), spec_split(uri, '/')) == Some(
            c,
        ),
        forall|m: int|
            0 <= m < k ==> spec_match_segments(
                spec_split((#[trigger] resources[m]).template, '/'),
                spec_split(uri, '/'),
            ) is None,
    ensures
        spec_resolve(resources, uri) == Some((k, c)),
    decreases resources.len(),
{
    if k > 0 {
        let tail = resources.skip(1);
        assert(forall|m: int|
            0 <= m < k - 1 ==> spec_match_segments(
                spec_split((#[trigger] tail[m]).template, '/'),
                spec_split(uri, '/'),
            ) is None);
        lemma_resolve_some(tail, uri, k - 1, c);
    }
}

/// Maps URI templates to resource handlers. Populated once at startup;
/// read-only afterwards.
#[derive(Debug, PartialEq, Eq)]
pub struct ResourceRegistry {
    resources: Vec<ResourceDescriptor>,
}

impl View for ResourceRegistry {
    type V = Seq<SpecResourceDescriptor>;

    closed spec fn view(&self) -> Seq<SpecResourceDescriptor> {
        self.resources.deep_view()
    }
}

/// No two descriptors carry the same template text.
pub open spec fn unique_templates(resources: Seq<SpecResourceDescriptor>) -> bool {
    forall|i: int, j: int|
        0 <= i < j < resources.len() ==> (#[trigger] resources[i].template) != (
        #[trigger] resources[j].template)
}

impl ResourceRegistry {
    /// The registry's invariant: templates are unique as written.
    pub open spec fn wf(&self) -> bool {
        unique_templates(self@)
    }

    /// An empty registry.
    pub fn new() -> (r: ResourceRegistry)
        ensures
            r@ == Seq::<SpecResourceDescriptor>::empty(),
            r.wf(),
    {
        let r = ResourceRegistry { resources: Vec::new() };
        proof {
            assert(r@ =~= Seq::<SpecResourceDescriptor>::empty());
        }
        r
    }

    /// Adds a descriptor; fails, leaving the registry unchanged, if a
    /// descriptor with the same template text is already registered.
    pub fn register(&mut self, d: ResourceDescriptor) -> (r: Result<(), ServerError>)
        requires
            old(self).wf(),
        ensures
            final(self).wf(),
            r is Ok <==> (forall|m: int|
                0 <= m < old(self)@.len() ==> (#[trigger] old(self)@[m].template) != d@.template),
            r is Ok ==> final(self)@ == old(self)@.push(d@),
            r is Err ==> final(self)@ == old(self)@ && r->Err_0.kind
                == ErrorKind::InvalidArgument,
    {
        let n = self.resources.len();
        let mut k: usize = 0;
        while k < n
            invariant
                0 <= k <= n,
                n == self@.len(),
                self@ == old(self)@,
                self.wf(),
                forall|m: int| 0 <= m < k ==> (#[trigger] self@[m].template) != d@.template,
            decreases n - k,
        {
            if self.resources[k].template == d.template {
                proof {
                    assert(old(self)@[k as int].template == d@.template);
                }
                let message = String::from_str("duplicate resource template: ").concat(
                    d.template.as_str(),
                );
                return Err(ServerError { kind: ErrorKind::InvalidArgument, message });
            }
            k += 1;
        }
        let ghost pre = self.resources.deep_view();
        let ghost dv = d.deep_view();
        self.resources.push(d);
        proof {
            assert(self.resources.deep_view() =~= pre.push(dv));
            assert forall|i: int, j: int| 0 <= i < j < self@.len() implies (
            #[trigger] self@[i].template) != (#[trigger] self@[j].template) by {
                if j < pre.len() {
                    assert(pre[i].template != pre[j].template);
                }
            }
        }
        Ok(())
    }

    /// The registered descriptors, in registration order: the discovery
    /// listing of URI templates and MIME types.
    pub fn descriptors(&self) -> (r: &Vec<ResourceDescriptor>)
        ensures
            r.deep_view() == self@,
    {
        &self.resources
    }

    /// Resolves `uri` against the registered templates: the first structural
    /// match wins, in registration order, and its captured parameters are
    /// returned beside a reference to the descriptor.
    pub fn resolve(&self, uri: &String) -> (r: Option<(&ResourceDescriptor, Vec<Capture>)>)
        ensures
            match spec_resolve(self@, uri@) {
                Some((i, c)) => r matches Some((d, caps)) && d@ == self@[i] && caps.deep_view()
                    == c,
                None => r is None,
            },
    {
        let uri_segs = split_char(uri.as_str(), '/');
        let n = self.resources.len();
        let mut k: usize = 0;
        while k < n
            invariant
                0 <= k <= n,
                n == self@.len(),
                uri_segs.deep_view() == spec_split(uri@, '/'),
                forall|m: int|
                    0 <= m < k ==> spec_match_segments(
                        spec_split((#[trigger] self@[m]).template, '/'),
                        spec_split(uri@, '/'),
                    ) is None,
            decreases n - k,
        {
            let t_segs = split_char(self.resources[k].template.as_str(), '/');
            match match_segments(&t_segs, &uri_segs) {
                Some(caps) => {
                    proof {
                        lemma_resolve_some(self@, uri@, k as int, caps.deep_view());
                    }
                    return Some((&self.resources[k], caps));
                },
                None => {},
            }
            k += 1;
        }
        proof {
            lemma_resolve_none(self@, uri@);
        }
        None
    }
}

/// The value captured under `name`, or the empty string if none was.
pub open spec fn spec_capture_value(caps: Seq<SpecCapture>, name: Seq<char>) -> Seq<char>
    decreases caps.len(),
{
    if caps.len() == 0 {
        Seq::empty()
    } else if caps[0].name == name {
        caps[0].value
    } else {
        spec_capture_value(caps.skip(1), name)
    }
}

/// Looks up the first capture named `name`; a missing capture reads as the
/// empty string.
pub fn capture_value(caps: &Vec<Capture>, name: &String) -> (r: String)
    ensures
        r@ == spec_capture_value(caps.deep_view(), name@),
{
    let n = caps.len();
    let mut k: usize = 0;
    proof {
        assert(caps.deep_view().skip(0) =~= caps.deep_view());
    }
    while k < n
        invariant
            0 <= k <= n,
            n == caps.deep_view().len(),
            spec_capture_value(caps.deep_view(), name@) == spec_capture_value(
                caps.deep_view().skip(k as int),
                name@,
            ),
        decreases n - k,
    {
        proof {
            assert(caps.deep_view().skip(k as int)[0] == caps.deep_view()[k as int]);
            assert(caps.deep_view().skip(k as int).skip(1) =~= caps.deep_view().skip(k + 1));
        }
        if caps[k].name == *name {
            return caps[k].value.clone();
        }
        k += 1;
    }
    proof {
        assert(caps.deep_view().skip(n as int) =~= Seq::<SpecCapture>::empty());
    }
    String::new()
}

} // verus!
