//! Routing the requests of an RPC service: the options of a route table
//! (`service = "..", nats_connection = ".."`), the endpoint each route
//! answers on, and which route a request's subject goes to.

use crate::attr::nats_message::ItemKind;
use crate::attr::{fold_items, key_is, lemma_fold_error_persists, lemma_fold_step, names_key, AttrLit, AttrMeta};
use crate::error::enclosed;
use vstd::prelude::*;

verus! {

/// The options of a route table: the service type that answers, and the
/// expression that gives the NATS connection.
#[derive(Debug, Clone)]
pub struct RpcEndpointRouteArgs {
    pub service: String,
    pub nats_connection: String,
}

/// The options of a route table while its option list is read.
#[derive(Debug, Clone)]
pub struct RouteArgsRead {
    pub service: Option<String>,
    pub nats_connection: Option<String>,
}

/// The request type that one route answers.
#[derive(Debug, Clone)]
pub struct RpcEndpointArgs {
    pub request: String,
}

/// Why a route table was refused.
#[derive(Debug, Clone, PartialEq, Eq)]
pub enum RouteArgsError {
    /// "Expected at least one attribute".
    NoAttribute,
    /// "expected identifier": an item's path is not one identifier.
    ExpectedIdentifier,
    /// "expected literal": a value is not a literal.
    ExpectedLiteral,
    /// "expected name-value attribute": an unknown name, a literal that is
    /// not a string, a flag or a list.
    ExpectedNameValue,
    /// "Expected `service` attribute".
    MissingService,
    /// "Expected `nats_connection` attribute".
    MissingNatsConnection,
    /// The routes are not the variants of an enum.
    NotEnum,
    /// This variant has no `rpc_endpoint(...)` attribute.
    MissingEndpoint(String),
    /// The `rpc_endpoint(...)` attribute of this variant is not one item
    /// `<name> = "<request>"`.
    InvalidEndpoint(String),
}

/// A route table: the service, the connection, and the routes, each a
/// variant of the enum `enum_ident` with the request it answers.
#[derive(Debug, Clone)]
pub struct RouteTableEnumInfo {
    pub service: String,
    pub nats_connection_static: String,
    pub routes: Vec<(String, RpcEndpointArgs)>,
    pub enum_ident: String,
}

/// What a request gets once its route has processed it.
#[derive(Debug, Clone, PartialEq, Eq)]
pub enum RouteAnswer {
    /// Publish the response on the reply subject.
    Publish(String, Vec<u8>),
    /// The request expects no reply: nothing is sent.
    NoReply,
    /// Processing failed: nothing is sent, the error is reported.
    Failed(String),
}

/// The options after one item.
pub open spec fn route_args_item(o: RouteArgsRead, m: AttrMeta) -> Result<RouteArgsRead, RouteArgsError> {
    match m {
        AttrMeta::NameValue(None, _) => Err(RouteArgsError::ExpectedIdentifier),
        AttrMeta::NameValue(Some(_), None) => Err(RouteArgsError::ExpectedLiteral),
        AttrMeta::NameValue(Some(k), Some(AttrLit::Str(s))) => if k@ == "service"@ {
            Ok(RouteArgsRead { service: Some(s), ..o })
        } else if k@ == "nats_connection"@ {
            Ok(RouteArgsRead { nats_connection: Some(s), ..o })
        } else {
            Err(RouteArgsError::ExpectedNameValue)
        },
        _ => Err(RouteArgsError::ExpectedNameValue),
    }
}

/// Reading one item of a route table's option list.
pub open spec fn route_args_step() -> spec_fn(RouteArgsRead, AttrMeta) -> Result<RouteArgsRead, RouteArgsError> {
    |o: RouteArgsRead, m: AttrMeta| route_args_item(o, m)
}

/// Nothing read yet.
pub open spec fn route_args_empty() -> RouteArgsRead {
    RouteArgsRead { service: None, nats_connection: None }
}

/// What an option list of a route table gives: it must not be empty, each
/// item is read in turn (later ones overriding earlier ones), and both the
/// service and the connection are required.
pub open spec fn spec_route_args(items: Seq<AttrMeta>) -> Result<RpcEndpointRouteArgs, RouteArgsError> {
    if items.len() == 0 {
        Err(RouteArgsError::NoAttribute)
    } else {
        match fold_items(route_args_empty(), route_args_step(), items) {
            Err(e) => Err(e),
            Ok(o) => match (o.service, o.nats_connection) {
                (None, _) => Err(RouteArgsError::MissingService),
                (Some(_), None) => Err(RouteArgsError::MissingNatsConnection),
                (Some(service), Some(nats_connection)) => Ok(RpcEndpointRouteArgs { service, nats_connection }),
            },
        }
    }
}

impl RouteArgsRead {
    /// Read one item.
    fn apply_item(self, m: &AttrMeta) -> (r: Result<Self, RouteArgsError>)
        ensures
            r == route_args_item(self, *m),
    {
        let mut o = self;
        match m {
            AttrMeta::NameValue(None, _) => Err(RouteArgsError::ExpectedIdentifier),
            AttrMeta::NameValue(Some(_), None) => Err(RouteArgsError::ExpectedLiteral),
            AttrMeta::NameValue(Some(k), Some(AttrLit::Str(s))) => {
                if key_is(k, "service") {
                    o.service = Some(s.clone());
                } else if key_is(k, "nats_connection") {
                    o.nats_connection = Some(s.clone());
                } else {
                    return Err(RouteArgsError::ExpectedNameValue);
                }
                Ok(o)
            },
            _ => Err(RouteArgsError::ExpectedNameValue),
        }
    }
}

impl RpcEndpointRouteArgs {
    /// Read an option list of a route table: it must not be empty, each
    /// item is `service` or `nats_connection` with a string, and both are
    /// required.
    pub fn parse(items: &[AttrMeta]) -> (r: Result<Self, RouteArgsError>)
        ensures
            r == spec_route_args(items@),
    {
        if items.len() == 0 {
            return Err(RouteArgsError::NoAttribute);
        }
        let mut read = RouteArgsRead { service: None, nats_connection: None };
        let mut i: usize = 0;
        while i < items.len()
            invariant
                i <= items@.len(),
                fold_items(route_args_empty(), route_args_step(), items@.subrange(0, i as int))
                    == Ok::<RouteArgsRead, RouteArgsError>(read),
            decreases items@.len() - i,
        {
            proof {
                lemma_fold_step(route_args_empty(), route_args_step(), items@, i as int);
            }
            match read.apply_item(&items[i]) {
                Ok(o) => read = o,
                Err(e) => {
                    proof {
                        lemma_fold_error_persists(route_args_empty(), route_args_step(), items@, i + 1);
                    }
                    return Err(e);
                },
            }
            i = i + 1;
        }
        proof {
            assert(items@.subrange(0, items@.len() as int) =~= items@);
        }
        match (read.service, read.nats_connection) {
            (None, _) => Err(RouteArgsError::MissingService),
            (Some(_), None) => Err(RouteArgsError::MissingNatsConnection),
            (Some(service), Some(nats_connection)) => Ok(RpcEndpointRouteArgs { service, nats_connection }),
        }
    }
}

/// The route a subject goes to among `mappings` of subjects to variants:
/// the last mapping of that subject, as a map built from them in order
/// keeps it.
pub open spec fn spec_route_of(mappings: Seq<(String, String)>, subject: Seq<char>) -> Option<String>
    decreases mappings.len(),
{
    if mappings.len() == 0 {
        None
    } else if mappings.last().0@ == subject {
        Some(mappings.last().1)
    } else {
        spec_route_of(mappings.drop_last(), subject)
    }
}

/// A subject that some mapping names goes to a route; the others go to
/// none.
pub proof fn lemma_route_found_iff_mapped(mappings: Seq<(String, String)>, subject: Seq<char>)
    ensures
        spec_route_of(mappings, subject) is Some <==> exists|i: int|
            0 <= i < mappings.len() && #[trigger] mappings[i].0@ == subject,
    decreases mappings.len(),
{
    if mappings.len() > 0 {
        let shorter = mappings.drop_last();
        lemma_route_found_iff_mapped(shorter, subject);
        if spec_route_of(shorter, subject) is Some {
            let i = choose|i: int| 0 <= i < shorter.len() && #[trigger] shorter[i].0@ == subject;
            assert(mappings[i] == shorter[i]);
        }
        if exists|i: int| 0 <= i < mappings.len() && #[trigger] mappings[i].0@ == subject {
            let i = choose|i: int| 0 <= i < mappings.len() && #[trigger] mappings[i].0@ == subject;
            if i < mappings.len() - 1 {
                assert(shorter[i] == mappings[i]);
            }
        }
    }
}

/// When no two mappings share a subject, a request on the subject of a
/// mapping goes to that mapping's variant.
pub proof fn lemma_distinct_subjects_route_to_their_variant(mappings: Seq<(String, String)>, i: int)
    requires
        0 <= i < mappings.len(),
        forall|j: int, k: int|
            0 <= j < mappings.len() && 0 <= k < mappings.len() && j != k ==> (#[trigger] mappings[j]).0@
                != (#[trigger] mappings[k]).0@,
    ensures
        spec_route_of(mappings, mappings[i].0@) == Some(mappings[i].1),
    decreases mappings.len(),
{
    if i < mappings.len() - 1 {
        let shorter = mappings.drop_last();
        assert(mappings.last() == mappings[mappings.len() - 1]);
        assert(mappings.last().0@ != mappings[i].0@);
        assert forall|j: int, k: int|
            0 <= j < shorter.len() && 0 <= k < shorter.len() && j != k implies (#[trigger] shorter[j]).0@
                != (#[trigger] shorter[k]).0@ by {
            assert(shorter[j] == mappings[j] && shorter[k] == mappings[k]);
        }
        lemma_distinct_subjects_route_to_their_variant(shorter, i);
        assert(shorter[i] == mappings[i]);
    }
}

/// Which route a request on `subject` goes to: the variant of the last
/// mapping of that subject, or none when no mapping names it (the request
/// is then left unanswered).
pub fn route_of(mappings: &[(String, String)], subject: &String) -> (r: Option<String>)
    ensures
        r == spec_route_of(mappings@, subject@),
{
    let mut i: usize = mappings.len();
    proof {
        assert(mappings@.subrange(0, i as int) =~= mappings@);
    }
    while i > 0
        invariant
            i <= mappings@.len(),
            spec_route_of(mappings@, subject@) == spec_route_of(mappings@.subrange(0, i as int), subject@),
        decreases i,
    {
        let ghost prefix = mappings@.subrange(0, i as int);
        proof {
            assert(prefix.drop_last() =~= mappings@.subrange(0, i - 1));
        }
        if mappings[i - 1].0 == *subject {
            return Some(mappings[i - 1].1.clone());
        }
        i = i - 1;
    }
    None
}

/// What a processed request gets: its response on its reply subject when
/// it has one, nothing when it has none, and a reported error when
/// processing failed.
pub fn route_answer(reply: Option<String>, processed: Result<Vec<u8>, String>) -> (r: RouteAnswer)
    ensures
        r == match processed {
            Err(e) => RouteAnswer::Failed(e),
            Ok(response) => match reply {
                Some(subject) => RouteAnswer::Publish(subject, response),
                None => RouteAnswer::NoReply,
            },
        },
{
    match processed {
        Err(e) => RouteAnswer::Failed(e),
        Ok(response) => match reply {
            Some(subject) => RouteAnswer::Publish(subject, response),
            None => RouteAnswer::NoReply,
        },
    }
}

impl RouteTableEnumInfo {
    /// The subject mappings of the table: the subject of each route's
    /// request (`subjects`, in route order) with the route's variant.
    pub fn generate_subject_mappings(&self, subjects: &[String]) -> (r: Vec<(String, String)>)
        requires
            subjects@.len() == self.routes@.len(),
        ensures
            r@.len() == self.routes@.len(),
            forall|i: int| 0 <= i < r@.len() ==> #[trigger] r@[i] == (subjects@[i], self.routes@[i].0),
    {
        let mut out: Vec<(String, String)> = Vec::new();
        let mut i: usize = 0;
        while i < self.routes.len()
            invariant
                i <= self.routes@.len(),
                subjects@.len() == self.routes@.len(),
                out@.len() == i,
                forall|j: int| 0 <= j < i ==> #[trigger] out@[j] == (subjects@[j], self.routes@[j].0),
            decreases self.routes@.len() - i,
        {
            out.push((subjects[i].clone(), self.routes[i].0.clone()));
            i = i + 1;
        }
        out
    }

    /// The requests whose endpoints the service opens, one per route, in
    /// route order.
    pub fn streaming_endpoints(&self) -> (r: Vec<String>)
        ensures
            r@.len() == self.routes@.len(),
            forall|i: int| 0 <= i < r@.len() ==> #[trigger] r@[i] == self.routes@[i].1.request,
    {
        let mut out: Vec<String> = Vec::new();
        let mut i: usize = 0;
        while i < self.routes.len()
            invariant
                i <= self.routes@.len(),
                out@.len() == i,
                forall|j: int| 0 <= j < i ==> #[trigger] out@[j] == self.routes@[j].1.request,
            decreases self.routes@.len() - i,
        {
            out.push(self.routes[i].1.request.clone());
            i = i + 1;
        }
        out
    }

    /// The request type each variant hands its requests to, in route
    /// order.
    pub fn route_match_arms(&self) -> (r: Vec<(String, String)>)
        ensures
            r@.len() == self.routes@.len(),
            forall|i: int| 0 <= i < r@.len() ==> #[trigger] r@[i] == (self.routes@[i].0, self.routes@[i].1.request),
    {
        let mut out: Vec<(String, String)> = Vec::new();
        let mut i: usize = 0;
        while i < self.routes.len()
            invariant
                i <= self.routes@.len(),
                out@.len() == i,
                forall|j: int| 0 <= j < i ==> #[trigger] out@[j] == (self.routes@[j].0, self.routes@[j].1.request),
            decreases self.routes@.len() - i,
        {
            out.push((self.routes[i].0.clone(), self.routes[i].1.request.clone()));
            i = i + 1;
        }
        out
    }
}

/// The items of the first `rpc_endpoint(...)` attribute among a variant's
/// attributes, if it has one.
pub open spec fn endpoint_list(attrs: Seq<AttrMeta>) -> Option<Seq<AttrMeta>>
    decreases attrs.len(),
{
    if attrs.len() == 0 {
        None
    } else if attrs[0] is List && attrs[0]->List_0 is Some && attrs[0]->List_0->Some_0@ == "rpc_endpoint"@ {
        Some(attrs[0]->List_1@)
    } else {
        endpoint_list(attrs.drop_first())
    }
}

/// The request that the items of an `rpc_endpoint(...)` attribute name:
/// they must be exactly one item `<name> = "<request>"`.
pub open spec fn spec_endpoint_args(items: Seq<AttrMeta>) -> Option<String> {
    if items.len() == 1 {
        match items[0] {
            AttrMeta::NameValue(Some(_), Some(AttrLit::Str(s))) => Some(s),
            _ => None,
        }
    } else {
        None
    }
}

/// The request a variant answers, from its attributes, or why it names
/// none.
pub open spec fn spec_variant_request(variant: (String, Vec<AttrMeta>)) -> Result<String, RouteArgsError> {
    match endpoint_list(variant.1@) {
        None => Err(RouteArgsError::MissingEndpoint(variant.0)),
        Some(inner) => match spec_endpoint_args(inner) {
            Some(request) => Ok(request),
            None => Err(RouteArgsError::InvalidEndpoint(variant.0)),
        },
    }
}

impl RpcEndpointArgs {
    /// Read the items of an `rpc_endpoint(...)` attribute: exactly one item
    /// `<name> = "<request>"`, naming the request type.
    pub fn parse(items: &[AttrMeta]) -> (r: Option<Self>)
        ensures
            match spec_endpoint_args(items@) {
                Some(request) => r is Some && r->Some_0.request == request,
                None => r is None,
            },
    {
        if items.len() != 1 {
            return None;
        }
        match &items[0] {
            AttrMeta::NameValue(Some(_), Some(AttrLit::Str(s))) => Some(RpcEndpointArgs { request: s.clone() }),
            _ => None,
        }
    }
}

/// Find the items of the first `rpc_endpoint(...)` attribute.
fn find_endpoint_list(attrs: &Vec<AttrMeta>) -> (r: Option<&Vec<AttrMeta>>)
    ensures
        match endpoint_list(attrs@) {
            Some(inner) => r is Some && r->Some_0@ == inner,
            None => r is None,
        },
{
    let mut i: usize = 0;
    proof {
        assert(attrs@.subrange(0, attrs@.len() as int) =~= attrs@);
    }
    while i < attrs.len()
        invariant
            i <= attrs@.len(),
            endpoint_list(attrs@) == endpoint_list(attrs@.subrange(i as int, attrs@.len() as int)),
        decreases attrs@.len() - i,
    {
        proof {
            assert(attrs@.subrange(i as int, attrs@.len() as int).drop_first() =~= attrs@.subrange(
                i + 1,
                attrs@.len() as int,
            ));
            assert(attrs@.subrange(i as int, attrs@.len() as int)[0] == attrs@[i as int]);
        }
        match &attrs[i] {
            AttrMeta::List(Some(p), inner) => {
                if key_is(p, "rpc_endpoint") {
                    return Some(inner);
                }
            },
            _ => {},
        }
        i = i + 1;
    }
    None
}

/// The request a variant answers, from its attributes.
fn variant_request(variant: &(String, Vec<AttrMeta>)) -> (r: Result<String, RouteArgsError>)
    ensures
        r == spec_variant_request(*variant),
{
    match find_endpoint_list(&variant.1) {
        None => Err(RouteArgsError::MissingEndpoint(variant.0.clone())),
        Some(inner) => match RpcEndpointArgs::parse(inner.as_slice()) {
            Some(args) => Ok(args.request),
            None => Err(RouteArgsError::InvalidEndpoint(variant.0.clone())),
        },
    }
}

/// The route table that `items` give the enum `enum_ident` of kind
/// `kind` with `variants`, or why they give none.
pub open spec fn spec_rpc_route(items: Seq<AttrMeta>, kind: ItemKind, enum_ident: String, variants: Seq<(String, Vec<AttrMeta>)>, r: Result<RouteTableEnumInfo, RouteArgsError>) -> bool {
    match spec_route_args(items) {
        Err(e) => r == Err::<RouteTableEnumInfo, RouteArgsError>(e),
        Ok(args) => if kind != ItemKind::Enum {
            r == Err::<RouteTableEnumInfo, RouteArgsError>(RouteArgsError::NotEnum)
        } else {
            match r {
                Err(e) => exists|i: int|
                    0 <= i < variants.len() && spec_variant_request(#[trigger] variants[i]) == Err::<
                        String,
                        RouteArgsError,
                    >(e) && forall|j: int| 0 <= j < i ==> (#[trigger] spec_variant_request(variants[j])) is Ok,
                Ok(t) => {
                    &&& t.service == args.service
                    &&& t.nats_connection_static == args.nats_connection
                    &&& t.enum_ident == enum_ident
                    &&& t.routes@.len() == variants.len()
                    &&& forall|i: int| 0 <= i < variants.len() ==> {
                        &&& (#[trigger] t.routes@[i]).0 == variants[i].0
                        &&& spec_variant_request(variants[i]) == Ok::<String, RouteArgsError>(
                            t.routes@[i].1.request,
                        )
                    }
                },
            }
        },
    }
}

/// The route table that the option list `items` gives the enum
/// `enum_ident` of kind `kind`, whose variants are `variants`, each with
/// its attributes. The options are read first; then the item must be an
/// enum, and every variant must name its request with an
/// `rpc_endpoint(request = "...")` attribute; the first variant that does
/// not decides the error.
pub fn rpc_route_impl(
    items: &[AttrMeta],
    kind: ItemKind,
    enum_ident: String,
    variants: Vec<(String, Vec<AttrMeta>)>,
) -> (r: Result<RouteTableEnumInfo, RouteArgsError>)
    ensures
        spec_rpc_route(items@, kind, enum_ident, variants@, r),
{
    let args = match RpcEndpointRouteArgs::parse(items) {
        Ok(a) => a,
        Err(e) => return Err(e),
    };
    match kind {
        ItemKind::Enum => {},
        _ => return Err(RouteArgsError::NotEnum),
    }
    let mut routes: Vec<(String, RpcEndpointArgs)> = Vec::new();
    let mut i: usize = 0;
    while i < variants.len()
        invariant
            spec_route_args(items@) is Ok,
            kind == ItemKind::Enum,
            i <= variants@.len(),
            routes@.len() == i,
            forall|j: int| 0 <= j < i ==> {
                &&& (#[trigger] routes@[j]).0 == variants@[j].0
                &&& spec_variant_request(variants@[j]) == Ok::<String, RouteArgsError>(routes@[j].1.request)
            },
        decreases variants@.len() - i,
    {
        match variant_request(&variants[i]) {
            Ok(request) => {
                routes.push((variants[i].0.clone(), RpcEndpointArgs { request }));
            },
            Err(e) => {
                proof {
                    let k = i as int;
                    assert forall|j: int| 0 <= j < k implies (#[trigger] spec_variant_request(variants@[j])) is Ok by {
                        assert(routes@[j].0 == variants@[j].0);
                    }
                    assert(spec_variant_request(variants@[k]) == Err::<String, RouteArgsError>(e));
                }
                return Err(e);
            },
        }
        i = i + 1;
    }
    Ok(RouteTableEnumInfo {
        service: args.service,
        nats_connection_static: args.nats_connection,
        routes,
        enum_ident,
    })
}

/// Read up to `n` items, the option `k` (`service` or `nats_connection`)
/// is `s` when item `i` is `k = s` and no later item is about `k`.
proof fn lemma_prefix_route_option(items: Seq<AttrMeta>, i: int, n: int, k: String, s: String)
    requires
        0 <= i < n <= items.len(),
        items[i] == AttrMeta::NameValue(Some(k), Some(AttrLit::Str(s))),
        k@ == "service"@ || k@ == "nats_connection"@,
        forall|j: int| i < j < n ==> !names_key(#[trigger] items[j], k@),
        fold_items(route_args_empty(), route_args_step(), items.subrange(0, n)) is Ok,
    ensures
        k@ == "service"@ ==> fold_items(route_args_empty(), route_args_step(), items.subrange(0, n))->Ok_0.service
            == Some(s),
        k@ == "nats_connection"@ ==> fold_items(route_args_empty(), route_args_step(), items.subrange(0, n))->Ok_0.nats_connection
            == Some(s),
    decreases n,
{
    reveal_strlit("service");
    reveal_strlit("nats_connection");
    assert("service"@.len() != "nats_connection"@.len());
    lemma_fold_step(route_args_empty(), route_args_step(), items, n - 1);
    assert(fold_items(route_args_empty(), route_args_step(), items.subrange(0, n - 1)) is Ok);
    if n - 1 != i {
        lemma_prefix_route_option(items, i, n - 1, k, s);
    }
}

/// A route table keeps the service and the connection it was given: when
/// the last item about `service` (or `nats_connection`) of an accepted
/// option list is that key `= s`, the table's service (or connection) is
/// `s`.
pub proof fn lemma_route_options_are_kept(
    items: Seq<AttrMeta>,
    kind: ItemKind,
    enum_ident: String,
    variants: Seq<(String, Vec<AttrMeta>)>,
    r: Result<RouteTableEnumInfo, RouteArgsError>,
    i: int,
    k: String,
    s: String,
)
    requires
        spec_rpc_route(items, kind, enum_ident, variants, r),
        r is Ok,
        0 <= i < items.len(),
        items[i] == AttrMeta::NameValue(Some(k), Some(AttrLit::Str(s))),
        k@ == "service"@ || k@ == "nats_connection"@,
        forall|j: int| i < j < items.len() ==> !names_key(#[trigger] items[j], k@),
    ensures
        k@ == "service"@ ==> r->Ok_0.service == s,
        k@ == "nats_connection"@ ==> r->Ok_0.nats_connection_static == s,
{
    assert(items.subrange(0, items.len() as int) =~= items);
    lemma_prefix_route_option(items, i, items.len() as int, k, s);
}

/// The attribute is `rpc_endpoint(...)`.
pub open spec fn is_endpoint_attr(m: AttrMeta) -> bool {
    m matches AttrMeta::List(Some(p), _) && p@ == "rpc_endpoint"@
}

/// The first `rpc_endpoint(...)` attribute of a list is the one found.
proof fn lemma_first_endpoint_list(attrs: Seq<AttrMeta>, a: int)
    requires
        0 <= a < attrs.len(),
        is_endpoint_attr(attrs[a]),
        forall|b: int| 0 <= b < a ==> !is_endpoint_attr(#[trigger] attrs[b]),
    ensures
        endpoint_list(attrs) == Some(attrs[a]->List_1@),
    decreases a,
{
    if a > 0 {
        assert(!is_endpoint_attr(attrs[0]));
        let rest = attrs.drop_first();
        assert forall|b: int| 0 <= b < a - 1 implies !is_endpoint_attr(#[trigger] rest[b]) by {
            assert(rest[b] == attrs[b + 1]);
        }
        lemma_first_endpoint_list(rest, a - 1);
    }
}

/// Each route answers the request its variant names: when the first
/// `rpc_endpoint(...)` attribute of variant `i` holds the one item
/// `name = "<request>"`, the route of that variant in the table is the
/// variant's name with that request.
pub proof fn lemma_route_answers_named_request(
    items: Seq<AttrMeta>,
    kind: ItemKind,
    enum_ident: String,
    variants: Seq<(String, Vec<AttrMeta>)>,
    r: Result<RouteTableEnumInfo, RouteArgsError>,
    i: int,
    a: int,
    name: String,
    request: String,
)
    requires
        spec_rpc_route(items, kind, enum_ident, variants, r),
        r is Ok,
        0 <= i < variants.len(),
        0 <= a < variants[i].1@.len(),
        is_endpoint_attr(variants[i].1@[a]),
        variants[i].1@[a]->List_1@ == seq![AttrMeta::NameValue(Some(name), Some(AttrLit::Str(request)))],
        forall|b: int| 0 <= b < a ==> !is_endpoint_attr(#[trigger] variants[i].1@[b]),
    ensures
        r->Ok_0.routes@[i].0 == variants[i].0,
        r->Ok_0.routes@[i].1.request == request,
{
    lemma_first_endpoint_list(variants[i].1@, a);
    assert(spec_variant_request(variants[i]) == Ok::<String, RouteArgsError>(request));
}

impl RouteArgsError {
    /// How the error is written out.
    pub open spec fn spec_message(&self) -> Seq<char> {
        match self {
            RouteArgsError::NoAttribute => "Expected at least one attribute"@,
            RouteArgsError::ExpectedIdentifier => "expected identifier"@,
            RouteArgsError::ExpectedLiteral => "expected literal"@,
            RouteArgsError::ExpectedNameValue => "expected name-value attribute"@,
            RouteArgsError::MissingService => "Expected `service` attribute"@,
            RouteArgsError::MissingNatsConnection => "Expected `nats_connection` attribute"@,
            RouteArgsError::NotEnum => "RPC Route Macro can only be used with enum"@,
            RouteArgsError::MissingEndpoint(variant) => "expected an `rpc_endpoint(...)` attribute on variant `"@ + variant@ + "`"@,
            RouteArgsError::InvalidEndpoint(variant) => "expected `request = \"...\"` in the `rpc_endpoint(...)` attribute of variant `"@ + variant@ + "`"@,
        }
    }

    /// How the error is written out.
    pub fn message(&self) -> (r: String)
        ensures
            r@ == self.spec_message(),
    {
        match self {
            RouteArgsError::NoAttribute => "Expected at least one attribute".to_owned(),
            RouteArgsError::ExpectedIdentifier => "expected identifier".to_owned(),
            RouteArgsError::ExpectedLiteral => "expected literal".to_owned(),
            RouteArgsError::ExpectedNameValue => "expected name-value attribute".to_owned(),
            RouteArgsError::MissingService => "Expected `service` attribute".to_owned(),
            RouteArgsError::MissingNatsConnection => "Expected `nats_connection` attribute".to_owned(),
            RouteArgsError::NotEnum => "RPC Route Macro can only be used with enum".to_owned(),
            RouteArgsError::MissingEndpoint(variant) => enclosed("expected an `rpc_endpoint(...)` attribute on variant `", variant.as_str(), "`"),
            RouteArgsError::InvalidEndpoint(variant) => enclosed("expected `request = \"...\"` in the `rpc_endpoint(...)` attribute of variant `", variant.as_str(), "`"),
        }
    }
}

} // verus!
