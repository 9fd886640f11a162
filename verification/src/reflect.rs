//! Parsing of schema reflection data into plain service descriptions.
//!
//! A compiled reflection blob describes the services of a schema: each
//! service carries a dotted, namespace-qualified name and a list of calls,
//! and each call names its request and response tables and optional
//! streaming attributes.  The functions here read those fields through
//! trusted accessors and parse them into plain [`Service`] and [`Method`]
//! values; all the name handling is verified against the specs of
//! [`crate::text`].

use vstd::prelude::*;

verus! {

use flatbuffers_reflection::reflection;
use flatbuffers_reflection::reflection::Service as ReflectedService;
use crate::text::dots_to_path;
use crate::text::namespace_of;
use crate::text::spec_has_attr;
use crate::text::has_attr;
use crate::text::last_segment;
use crate::text::local_name;
use crate::text::lower_of;
use crate::text::lowercase;
use crate::text::namespace_to_path;
use crate::text::split_namespace;

#[verifier::external_type_specification]
#[verifier::external_body]
pub struct ExReflectionService<'a>(ReflectedService<'a>);

#[verifier::external_type_specification]
#[verifier::external_body]
pub struct ExRPCCall<'a>(reflection::RPCCall<'a>);

#[verifier::external_type_specification]
#[verifier::external_body]
pub struct ExObject<'a>(reflection::Object<'a>);

/// Relies on `reflection::Schema::services`: hands the service tables out
/// one by one; `None` when the schema records no service list.
#[verifier::external_body]
fn schema_services<'a>(schema: &reflection::Schema<'a>) -> Option<Vec<reflection::Service<'a>>> {
    schema.services().map(|v| v.iter().collect())
}

/// Relies on `reflection::Service::name`.
#[verifier::external_body]
fn service_name(svc: &reflection::Service<'_>) -> String {
    svc.name().to_string()
}

/// Relies on `reflection::Service::calls`: hands the call tables out one by
/// one; `None` when the service records no call list.
#[verifier::external_body]
fn service_calls<'a>(svc: &reflection::Service<'a>) -> Option<Vec<reflection::RPCCall<'a>>> {
    svc.calls().map(|v| v.iter().collect())
}

/// Relies on `reflection::RPCCall::name`.
#[verifier::external_body]
fn call_name(call: &reflection::RPCCall<'_>) -> String {
    call.name().to_string()
}

/// Relies on `reflection::RPCCall::request`.
#[verifier::external_body]
fn call_request<'a>(call: &reflection::RPCCall<'a>) -> reflection::Object<'a> {
    call.request()
}

/// Relies on `reflection::RPCCall::response`.
#[verifier::external_body]
fn call_response<'a>(call: &reflection::RPCCall<'a>) -> reflection::Object<'a> {
    call.response()
}

/// Relies on `reflection::RPCCall::attributes`: hands the attribute tables
/// out one by one; `None` when the call records none.
#[verifier::external_body]
fn call_attributes<'a>(call: &reflection::RPCCall<'a>) -> Option<Vec<reflection::KeyValue<'a>>> {
    call.attributes().map(|v| v.iter().collect())
}

/// Relies on `reflection::Object::name`.
#[verifier::external_body]
fn object_name(obj: &reflection::Object<'_>) -> String {
    obj.name().to_string()
}

/// Relies on `reflection::KeyValue::key`.
#[verifier::external_body]
fn key_value_key(kv: &reflection::KeyValue<'_>) -> String {
    kv.key().to_string()
}

/// Relies on `reflection::KeyValue::value`.
#[verifier::external_body]
fn key_value_value(kv: &reflection::KeyValue<'_>) -> Option<String> {
    kv.value().map(|s| s.to_string())
}

/// One call of a service: its name, the qualified names of its request and
/// response tables, and its streaming directions.
#[derive(Debug)]
pub struct Method {
    pub name: String,
    /// Request type name as recorded, namespace included.
    pub request_name: String,
    /// Response type name as recorded, namespace included.
    pub response_name: String,
    pub server_streaming: bool,
    pub client_streaming: bool,
}

/// One service of a schema: its namespace (when its recorded name is
/// dotted), its local name, and its calls.
#[derive(Debug)]
pub struct Service {
    pub namespace: Option<String>,
    pub name: String,
    pub methods: Vec<Method>,
}

/// A message type referenced by some call, paired with the namespace of the
/// service that first referenced it.
#[derive(Debug, Clone)]
pub struct MessageType {
    /// Type name without its namespace.
    pub fb_type: String,
    pub namespace: Option<String>,
}

impl Method {
    /// Builds a method description from a call's plain fields: the three
    /// names are taken verbatim, and each streaming flag holds exactly when
    /// `attrs` carries a `streaming` attribute with the matching value.
    pub fn from_parts(
        name: String,
        request_name: String,
        response_name: String,
        attrs: &Vec<(String, Option<String>)>,
    ) -> (r: Method)
        ensures
            r.name@ == name@,
            r.request_name@ == request_name@,
            r.response_name@ == response_name@,
            r.server_streaming == spec_has_attr(attrs@, "streaming"@, "server"@),
            r.client_streaming == spec_has_attr(attrs@, "streaming"@, "client"@),
    {
        let server_streaming = has_attr(attrs, "streaming", "server");
        let client_streaming = has_attr(attrs, "streaming", "client");
        Method { name, request_name, response_name, server_streaming, client_streaming }
    }

    /// Reads one call table into a plain [`Method`]: its name and the names
    /// of its request and response tables, plus its attribute pairs, go
    /// through [`Method::from_parts`], which states exactly what is built
    /// from them.  A call without an attribute list streams in neither
    /// direction.
    pub fn new_from_schema(call: &reflection::RPCCall<'_>) -> (r: Method) {
        let name = call_name(call);
        let request_obj = call_request(call);
        let request_name = object_name(&request_obj);
        let response_obj = call_response(call);
        let response_name = object_name(&response_obj);
        let mut attrs: Vec<(String, Option<String>)> = Vec::new();
        match call_attributes(call) {
            Some(kvs) => {
                let mut k: usize = 0;
                while k < kvs.len()
                    decreases kvs@.len() - k,
                {
                    let kv = &kvs[k];
                    attrs.push((key_value_key(kv), key_value_value(kv)));
                    k = k + 1;
                }
            },
            None => {},
        }
        Method::from_parts(name, request_name, response_name, &attrs)
    }

    /// Whether the call streams in neither direction.
    pub fn is_unary(&self) -> (r: bool)
        ensures
            r == (!self.server_streaming && !self.client_streaming),
    {
        !self.server_streaming && !self.client_streaming
    }

    /// The request type name without its namespace.
    pub fn request_type(&self) -> (r: String)
        ensures
            r@ == local_name(self.request_name@),
    {
        last_segment(self.request_name.as_str())
    }

    /// The response type name without its namespace.
    pub fn response_type(&self) -> (r: String)
        ensures
            r@ == local_name(self.response_name@),
    {
        last_segment(self.response_name.as_str())
    }
}

impl Service {
    /// Builds a service description from its recorded, possibly dotted name
    /// and its methods: the name splits at its last dot into namespace and
    /// local name, and the methods are taken as given.
    pub fn from_parts(full_name: &str, methods: Vec<Method>) -> (r: Service)
        ensures
            r.name@ == local_name(full_name@),
            match r.namespace {
                Some(ns) => namespace_of(full_name@) matches Some(v) && ns@ == v,
                None => namespace_of(full_name@) is None,
            },
            r.methods == methods,
    {
        let (namespace, name) = split_namespace(full_name);
        Service { namespace, name, methods }
    }

    /// Reads one service table into a plain [`Service`]: its recorded name
    /// and its calls, read one by one through [`Method::new_from_schema`],
    /// go through [`Service::from_parts`], which states exactly what is
    /// built from them.  A service without a call list has no methods.
    pub fn new_from_schema(svc: &reflection::Service<'_>) -> (r: Service) {
        let full = service_name(svc);
        let mut methods: Vec<Method> = Vec::new();
        match service_calls(svc) {
            Some(calls) => {
                let mut k: usize = 0;
                while k < calls.len()
                    decreases calls@.len() - k,
                {
                    methods.push(Method::new_from_schema(&calls[k]));
                    k = k + 1;
                }
            },
            None => {},
        }
        Service::from_parts(full.as_str(), methods)
    }

    /// The service type name: the segment of the name after its last dot.
    pub fn svc_type(&self) -> (r: String)
        ensures
            r@ == local_name(self.name@),
    {
        last_segment(self.name.as_str())
    }
}

fn get_services_from_schema(schema: &reflection::Schema<'_>) -> Vec<Service> {
    let mut services: Vec<Service> = Vec::new();
    match schema_services(schema) {
        Some(svcs) => {
            let mut k: usize = 0;
            while k < svcs.len()
                decreases svcs@.len() - k,
            {
                services.push(Service::new_from_schema(&svcs[k]));
                k = k + 1;
            }
        },
        None => {},
    }
    services
}

/// View of an optional namespace.
pub open spec fn opt_string_view(n: Option<String>) -> Option<Seq<char>> {
    match n {
        Some(s) => Some(s@),
        None => None,
    }
}

/// View of a collected message type: its local name and its namespace.
pub open spec fn mt_view(m: MessageType) -> (Seq<char>, Option<Seq<char>>) {
    (m.fb_type@, opt_string_view(m.namespace))
}

/// View of a whole collection result.
pub open spec fn types_view(ts: Seq<MessageType>) -> Seq<(Seq<char>, Option<Seq<char>>)> {
    ts.map_values(|m: MessageType| mt_view(m))
}

/// The candidate pairs of one method: its request type then its response
/// type, each with the owning service's namespace.
pub open spec fn method_pairs(m: Method, ns: Option<Seq<char>>) -> Seq<
    (Seq<char>, Option<Seq<char>>),
> {
    seq![(local_name(m.request_name@), ns), (local_name(m.response_name@), ns)]
}

/// The candidate pairs of a method list, in order.
pub open spec fn methods_pairs(methods: Seq<Method>, ns: Option<Seq<char>>) -> Seq<
    (Seq<char>, Option<Seq<char>>),
>
    decreases methods.len(),
{
    if methods.len() == 0 {
        Seq::empty()
    } else {
        methods_pairs(methods.drop_last(), ns) + method_pairs(methods.last(), ns)
    }
}

/// The candidate pairs of a service list, in order.
pub open spec fn services_pairs(services: Seq<Service>) -> Seq<(Seq<char>, Option<Seq<char>>)>
    decreases services.len(),
{
    if services.len() == 0 {
        Seq::empty()
    } else {
        services_pairs(services.drop_last()) + methods_pairs(
            services.last().methods@,
            opt_string_view(services.last().namespace),
        )
    }
}

/// Whether `acc` already holds a pair with type name `name`.
pub open spec fn holds_type(acc: Seq<(Seq<char>, Option<Seq<char>>)>, name: Seq<char>) -> bool {
    exists|i: int| 0 <= i < acc.len() && (#[trigger] acc[i]).0 == name
}

/// One collection step: append the pair unless its type name is already
/// present.
pub open spec fn collect_step(
    acc: Seq<(Seq<char>, Option<Seq<char>>)>,
    p: (Seq<char>, Option<Seq<char>>),
) -> Seq<(Seq<char>, Option<Seq<char>>)> {
    if holds_type(acc, p.0) {
        acc
    } else {
        acc.push(p)
    }
}

/// Left fold of [`collect_step`] over a pair list.
pub open spec fn collect_fold(
    pairs: Seq<(Seq<char>, Option<Seq<char>>)>,
    acc: Seq<(Seq<char>, Option<Seq<char>>)>,
) -> Seq<(Seq<char>, Option<Seq<char>>)>
    decreases pairs.len(),
{
    if pairs.len() == 0 {
        acc
    } else {
        collect_fold(pairs.drop_first(), collect_step(acc, pairs[0]))
    }
}

/// Folding one more pair is one more step on the fold so far.
proof fn lemma_collect_fold_push(
    pairs: Seq<(Seq<char>, Option<Seq<char>>)>,
    p: (Seq<char>, Option<Seq<char>>),
    acc: Seq<(Seq<char>, Option<Seq<char>>)>,
)
    ensures
        collect_fold(pairs.push(p), acc) == collect_step(collect_fold(pairs, acc), p),
    decreases pairs.len(),
{
    if pairs.len() == 0 {
        assert(pairs.push(p)[0] == p);
        assert(pairs.push(p).drop_first() =~= Seq::<(Seq<char>, Option<Seq<char>>)>::empty());
        assert(collect_fold(pairs.push(p).drop_first(), collect_step(acc, p)) == collect_step(
            acc,
            p,
        ));
        assert(collect_fold(pairs.push(p), acc) == collect_step(acc, p));
        assert(collect_fold(pairs, acc) == acc);
    } else {
        assert(pairs.push(p)[0] == pairs[0]);
        assert(pairs.push(p).drop_first() =~= pairs.drop_first().push(p));
        assert(collect_fold(pairs.push(p), acc) == collect_fold(
            pairs.drop_first().push(p),
            collect_step(acc, pairs[0]),
        ));
        lemma_collect_fold_push(pairs.drop_first(), p, collect_step(acc, pairs[0]));
        assert(collect_fold(pairs, acc) == collect_fold(
            pairs.drop_first(),
            collect_step(acc, pairs[0]),
        ));
    }
}

fn clone_opt_string(s: &Option<String>) -> (r: Option<String>)
    ensures
        opt_string_view(r) == opt_string_view(*s),
{
    match s {
        Some(v) => Some(v.clone()),
        None => None,
    }
}

fn holds_fb_type(types: &Vec<MessageType>, name: &String) -> (r: bool)
    ensures
        r == holds_type(types_view(types@), name@),
{
    let mut k: usize = 0;
    while k < types.len()
        invariant
            k <= types@.len(),
            forall|i: int| 0 <= i < k ==> (#[trigger] types_view(types@)[i]).0 != name@,
        decreases types@.len() - k,
    {
        if types[k].fb_type == *name {
            proof {
                assert(types_view(types@)[k as int].0 == name@);
            }
            return true;
        }
        k = k + 1;
    }
    false
}

/// Collects the distinct request and response types of all services, in
/// order of first appearance, each paired with the namespace of the service
/// under which it first appeared.
pub fn collect_in_out_types(services: &[Service]) -> (r: Vec<MessageType>)
    ensures
        types_view(r@) == collect_fold(services_pairs(services@), Seq::empty()),
{
    let mut types: Vec<MessageType> = Vec::new();
    let n = services.len();
    proof {
        assert(services@.take(0) =~= Seq::<Service>::empty());
        assert(types_view(types@) =~= Seq::<(Seq<char>, Option<Seq<char>>)>::empty());
    }
    let mut i: usize = 0;
    while i < n
        invariant
            i <= n,
            n == services@.len(),
            types_view(types@) == collect_fold(services_pairs(services@.take(i as int)), Seq::empty()),
        decreases n - i,
    {
        let svc = &services[i];
        let m = svc.methods.len();
        let ghost ns_v = opt_string_view(services@[i as int].namespace);
        let ghost base = services_pairs(services@.take(i as int));
        proof {
            assert(services@[i as int].methods@.take(0) =~= Seq::<Method>::empty());
            assert(base + methods_pairs(services@[i as int].methods@.take(0), ns_v) =~= base);
        }
        let mut j: usize = 0;
        while j < m
            invariant
                j <= m,
                i < n,
                n == services@.len(),
                *svc == services@[i as int],
                m == services@[i as int].methods@.len(),
                ns_v == opt_string_view(services@[i as int].namespace),
                base == services_pairs(services@.take(i as int)),
                types_view(types@) == collect_fold(
                    base + methods_pairs(services@[i as int].methods@.take(j as int), ns_v),
                    Seq::empty(),
                ),
            decreases m - j,
        {
            let ghost mth = services@[i as int].methods@[j as int];
            let ghost reqp = (local_name(mth.request_name@), ns_v);
            let ghost respp = (local_name(mth.response_name@), ns_v);
            let ghost pre = types_view(types@);
            let ghost folded = base + methods_pairs(
                services@[i as int].methods@.take(j as int),
                ns_v,
            );
            let method = &svc.methods[j];
            let req_t = method.request_type();
            if !holds_fb_type(&types, &req_t) {
                let namespace = clone_opt_string(&svc.namespace);
                types.push(MessageType { fb_type: req_t, namespace });
                proof {
                    assert(types_view(types@) =~= pre.push(reqp));
                }
            }
            proof {
                assert(types_view(types@) == collect_step(pre, reqp));
            }
            let ghost mid = types_view(types@);
            let resp_t = method.response_type();
            if !holds_fb_type(&types, &resp_t) {
                let namespace = clone_opt_string(&svc.namespace);
                types.push(MessageType { fb_type: resp_t, namespace });
                proof {
                    assert(types_view(types@) =~= mid.push(respp));
                }
            }
            proof {
                assert(types_view(types@) == collect_step(mid, respp));
                lemma_collect_fold_push(folded, reqp, Seq::empty());
                lemma_collect_fold_push(folded.push(reqp), respp, Seq::empty());
                assert(services@[i as int].methods@.take(j + 1 as int).drop_last() =~= services@[
                    i as int
                ].methods@.take(j as int));
                assert(services@[i as int].methods@.take(j + 1 as int).last() == mth);
                assert(base + methods_pairs(services@[i as int].methods@.take(j + 1 as int), ns_v)
                    =~= folded.push(reqp).push(respp));
            }
            j = j + 1;
        }
        proof {
            assert(services@[i as int].methods@.take(m as int) =~= services@[i as int].methods@);
            assert(services@.take(i + 1 as int).drop_last() =~= services@.take(i as int));
            assert(services@.take(i + 1 as int).last() == services@[i as int]);
            assert(services_pairs(services@.take(i + 1 as int)) =~= base + methods_pairs(
                services@[i as int].methods@,
                ns_v,
            ));
        }
        i = i + 1;
    }
    proof {
        assert(services@.take(n as int) =~= services@);
    }
    types
}

/// The parsed services of one reflection blob.
pub struct GeneratorContext {
    pub services: Vec<Service>,
}

impl GeneratorContext {
    /// Parses every service of the schema.
    pub fn parse_from_schema(schema: &reflection::Schema<'_>) -> (r: GeneratorContext) {
        let services = get_services_from_schema(schema);
        GeneratorContext { services }
    }

    /// Collects the distinct request and response types of the parsed
    /// services, in order of first appearance.
    pub fn collect_in_out_types(&self) -> (r: Vec<MessageType>)
        ensures
            types_view(r@) == collect_fold(services_pairs(self.services@), Seq::empty()),
    {
        collect_in_out_types(self.services.as_slice())
    }

    /// The parsed services.
    pub fn get_services(&self) -> (r: &[Service])
        ensures
            r@ == self.services@,
    {
        self.services.as_slice()
    }

    /// The namespace in its raw, dotted form, taken from the first service.
    pub fn get_namespace(&self) -> (r: String)
        requires
            self.services@.len() > 0,
            self.services@[0].namespace is Some,
        ensures
            r@ == self.services@[0].namespace->0@,
    {
        match &self.services[0].namespace {
            Some(ns) => ns.clone(),
            None => vstd::pervasive::unreached(),
        }
    }

    /// The namespace as a lowercase Rust module path: dots become double
    /// colons.  This is the path under which generated code for the
    /// namespace is reached.
    pub fn get_namespace_rs(&self) -> (r: String)
        requires
            self.services@.len() > 0,
            self.services@[0].namespace is Some,
        ensures
            r@ == lower_of(dots_to_path(self.services@[0].namespace->0@)),
    {
        let ns = self.get_namespace();
        let path = namespace_to_path(ns.as_str());
        lowercase(path.as_str())
    }
}

} // verus!
