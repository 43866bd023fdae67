//! Reading an option list from its text, such as
//! `name = "orders", durable, max_batch = 100`.
//!
//! The text is split into items by the Rust attribute grammar, as the
//! `syn` crate reads it, and each literal is read by `syn` as well; what
//! the items mean is decided by the option lists of the other modules.
//! The items of a list such as `rpc_endpoint(request = "Q")` are read one
//! level deep: lists inside them keep their path and no items. A literal
//! that cannot be read as a value is kept as an item, so that the option
//! list refuses it with its own error.

use crate::attr::consumer::{jetstream_consumer, spec_jetstream_consumer, ConsumerOptionError, JetStreamConsumerMeta};
use crate::attr::nats_message::{message, spec_message_subject, ItemKind, MessageOptionError};
use crate::attr::rpc_route::{rpc_route_impl, spec_rpc_route, RouteArgsError, RouteTableEnumInfo};
use crate::attr::rpc_service::{rpc_service_impl, spec_rpc_service, RpcOptionError, RpcServiceConfig, RpcServiceMeta};
use crate::attr::stream_meta::{jetstream_meta, spec_jetstream_meta, JetStreamStreamConfig, StreamOptionError};
use crate::attr::{AttrLit, AttrMeta};
use quote::ToTokens;
use syn::parse::Parser;
use syn::punctuated::Punctuated;
use syn::token::Comma;
use syn::{Expr, Lit, Meta};
use vstd::prelude::*;

verus! {

/// One item of an option list as the attribute grammar splits it, a
/// literal still as its text.
#[derive(Debug)]
pub enum RawAttrItem {
    /// A bare path: its identifier when it is one.
    Path(Option<String>),
    /// `path = value`: the identifier, and the literal's text when the
    /// value is a literal.
    NameValue(Option<String>, Option<String>),
    /// `path(...)`: the identifier.
    List(Option<String>),
}

/// The items that the attribute grammar splits `text` into, or `None`
/// when `text` is not a comma-separated list of attribute items.
pub uninterp spec fn raw_items_of(text: Seq<char>) -> Option<Seq<RawAttrItem>>;

/// `syn::parse::Parser::parse_str` with
/// `Punctuated::<syn::Meta, Comma>::parse_terminated` applied to `text`.
/// Each item is converted to its parts: the path's identifier by
/// `Path::get_ident`, a literal value by its tokens' text; no other token
/// text enters the result. The result is named [raw_items_of].
#[verifier::external_body]
fn split_attr_items(text: &str) -> (r: Option<Vec<RawAttrItem>>)
    ensures
        match r {
            Some(v) => raw_items_of(text@) == Some(v@),
            None => raw_items_of(text@) is None,
        },
{
    Some(Punctuated::<Meta, Comma>::parse_terminated.parse_str(text).ok()?.iter().map(|m| {
        let id = m.path().get_ident().map(|i| i.to_string());
        match m {
            Meta::Path(_) => RawAttrItem::Path(id),
            Meta::List(_) => RawAttrItem::List(id),
            Meta::NameValue(v) => RawAttrItem::NameValue(id, match &v.value {
                Expr::Lit(e) => Some(e.lit.to_token_stream().to_string()),
                _ => None,
            }),
        }
    }).collect())
}

/// The items inside the parentheses of the item at `index` of `text`, when
/// that item is a list and its inside is a comma-separated list of items.
pub uninterp spec fn list_items_of(text: Seq<char>, index: usize) -> Option<Seq<RawAttrItem>>;

/// `syn::MetaList::parse_args_with` with `parse_terminated`, applied to the
/// item at `index` of `text` as [split_attr_items] splits it; the inner
/// items are converted as there. The result is named [list_items_of].
#[verifier::external_body]
fn split_list_items(text: &str, index: usize) -> (r: Option<Vec<RawAttrItem>>)
    ensures
        match r {
            Some(v) => list_items_of(text@, index) == Some(v@),
            None => list_items_of(text@, index) is None,
        },
{
    let p = Punctuated::<Meta, Comma>::parse_terminated;
    let inner = p.parse_str(text).ok()?.iter().nth(index)?.require_list().ok()?.parse_args_with(p).ok()?;
    Some(inner.iter().map(|m| {
        let id = m.path().get_ident().map(|i| i.to_string());
        match m {
            Meta::Path(_) => RawAttrItem::Path(id),
            Meta::List(_) => RawAttrItem::List(id),
            Meta::NameValue(v) => RawAttrItem::NameValue(id, match &v.value {
                Expr::Lit(e) => Some(e.lit.to_token_stream().to_string()),
                _ => None,
            }),
        }
    }).collect())
}

/// The literal that `text` is, as `syn` reads it; `Other` when `text` is
/// not a literal.
pub uninterp spec fn literal_of(text: Seq<char>) -> AttrLit;

/// `syn::parse_str::<syn::Lit>` applied to `text`: a string by its value
/// (`LitStr::value`), an integer by `LitInt::base10_parse` (`None` beyond
/// `u128`), a boolean by its value, any other literal, or a parse error,
/// as `Other`. The result is named [literal_of].
#[verifier::external_body]
fn parse_literal(text: &str) -> (r: AttrLit)
    ensures
        r == literal_of(text@),
{
    match syn::parse_str::<Lit>(text) {
        Ok(Lit::Str(s)) => AttrLit::Str(s.value()),
        Ok(Lit::Int(i)) => AttrLit::Int(i.base10_parse().ok()),
        Ok(Lit::Bool(b)) => AttrLit::Bool(b.value),
        _ => AttrLit::Other,
    }
}

/// `m` is how a raw item inside a list reads: lists there keep no items.
pub open spec fn nested_item_read(raw: RawAttrItem, m: AttrMeta) -> bool {
    match (raw, m) {
        (RawAttrItem::Path(a), AttrMeta::Path(b)) => a == b,
        (RawAttrItem::NameValue(a, None), AttrMeta::NameValue(b, None)) => a == b,
        (RawAttrItem::NameValue(a, Some(t)), AttrMeta::NameValue(b, Some(l))) => a == b && l == literal_of(t@),
        (RawAttrItem::List(a), AttrMeta::List(b, v)) => a == b && v@.len() == 0,
        _ => false,
    }
}

/// `ms` is how the raw items inside a list read, item by item.
pub open spec fn nested_items_read(raws: Seq<RawAttrItem>, ms: Seq<AttrMeta>) -> bool {
    &&& raws.len() == ms.len()
    &&& forall|i: int| 0 <= i < raws.len() ==> nested_item_read(#[trigger] raws[i], ms[i])
}

/// `m` is how the item at `index` of the option list `text`, split as
/// `raw`, reads. A list's inside is read as items when it is a list of
/// items; otherwise the list keeps no items.
pub open spec fn item_read(text: Seq<char>, index: usize, raw: RawAttrItem, m: AttrMeta) -> bool {
    match (raw, m) {
        (RawAttrItem::List(a), AttrMeta::List(b, v)) => a == b && match list_items_of(text, index) {
            Some(rs) => nested_items_read(rs, v@),
            None => v@.len() == 0,
        },
        _ => nested_item_read(raw, m),
    }
}

/// The option list `text` can be read: it splits into attribute items.
pub open spec fn attr_text_readable(text: Seq<char>) -> bool {
    raw_items_of(text) is Some
}

/// The option list `text` reads as `items`.
pub open spec fn text_reads_as(text: Seq<char>, items: Seq<AttrMeta>) -> bool {
    &&& raw_items_of(text) is Some
    &&& raw_items_of(text)->Some_0.len() == items.len()
    &&& forall|i: int|
        0 <= i < items.len() ==> item_read(text, i as usize, #[trigger] raw_items_of(text)->Some_0[i], items[i])
}

/// Read a raw item inside a list.
fn read_nested_item(raw: &RawAttrItem) -> (m: AttrMeta)
    ensures
        nested_item_read(*raw, m),
{
    match raw {
        RawAttrItem::Path(a) => AttrMeta::Path(a.clone()),
        RawAttrItem::NameValue(a, None) => AttrMeta::NameValue(a.clone(), None),
        RawAttrItem::NameValue(a, Some(t)) => AttrMeta::NameValue(a.clone(), Some(parse_literal(t.as_str()))),
        RawAttrItem::List(a) => AttrMeta::List(a.clone(), Vec::new()),
    }
}

/// Read the raw items inside a list.
fn read_inner(raws: &Vec<RawAttrItem>) -> (v: Vec<AttrMeta>)
    ensures
        nested_items_read(raws@, v@),
{
    let mut out: Vec<AttrMeta> = Vec::new();
    let mut i: usize = 0;
    while i < raws.len()
        invariant
            i <= raws@.len(),
            out@.len() == i,
            forall|j: int| 0 <= j < i ==> nested_item_read(#[trigger] raws@[j], out@[j]),
        decreases raws@.len() - i,
    {
        out.push(read_nested_item(&raws[i]));
        i = i + 1;
    }
    out
}

/// Read the item at `index` of the option list `text`, split as `raw`.
fn read_item(text: &str, index: usize, raw: &RawAttrItem) -> (m: AttrMeta)
    ensures
        item_read(text@, index, *raw, m),
{
    match raw {
        RawAttrItem::List(a) => match split_list_items(text, index) {
            Some(inner) => AttrMeta::List(a.clone(), read_inner(&inner)),
            None => AttrMeta::List(a.clone(), Vec::new()),
        },
        _ => read_nested_item(raw),
    }
}

/// Read the option list `text` into its items: `None` exactly when it does
/// not split into attribute items. A literal that cannot be read as a
/// value stays an item, so the option list refuses it with its own error.
pub fn attr_items(text: &str) -> (r: Option<Vec<AttrMeta>>)
    ensures
        r is Some <==> attr_text_readable(text@),
        r matches Some(v) ==> text_reads_as(text@, v@),
{
    let raws = match split_attr_items(text) {
        Some(raws) => raws,
        None => return None,
    };
    let mut out: Vec<AttrMeta> = Vec::new();
    let mut i: usize = 0;
    while i < raws.len()
        invariant
            raw_items_of(text@) == Some(raws@),
            i <= raws@.len(),
            out@.len() == i,
            forall|j: int| 0 <= j < i ==> item_read(text@, j as usize, #[trigger] raws@[j], out@[j]),
        decreases raws@.len() - i,
    {
        out.push(read_item(text, i, &raws[i]));
        i = i + 1;
    }
    Some(out)
}

/// Why an option list given as text was refused.
#[derive(Debug, PartialEq, Eq)]
pub enum AttrTextError<E> {
    /// The text is not a list of attribute items.
    Unreadable,
    /// The items were read and the option list refused them.
    Refused(E),
}

/// A result of the option lists, with a refusal marked as such.
pub open spec fn refused<T, E>(r: Result<T, E>) -> Result<T, AttrTextError<E>> {
    match r {
        Ok(t) => Ok(t),
        Err(e) => Err(AttrTextError::Refused(e)),
    }
}

fn lift<T, E>(r: Result<T, E>) -> (out: Result<T, AttrTextError<E>>)
    ensures
        out == refused(r),
{
    match r {
        Ok(t) => Ok(t),
        Err(e) => Err(AttrTextError::Refused(e)),
    }
}

/// The consumer that the option list text `attr` describes on the type
/// `ident`: unreadable text is refused as such; otherwise the result is
/// what [jetstream_consumer] gives for the items the text reads as.
pub fn jetstream_consumer_text(attr: &str, ident: &str) -> (r: Result<
    JetStreamConsumerMeta,
    AttrTextError<ConsumerOptionError>,
>)
    ensures
        !attr_text_readable(attr@) ==> r == Err::<JetStreamConsumerMeta, AttrTextError<ConsumerOptionError>>(
            AttrTextError::Unreadable,
        ),
        attr_text_readable(attr@) ==> exists|items: Seq<AttrMeta>, res: Result<JetStreamConsumerMeta, ConsumerOptionError>|
            #![trigger text_reads_as(attr@, items), spec_jetstream_consumer(items, ident@, res)]
            text_reads_as(attr@, items) && spec_jetstream_consumer(items, ident@, res) && r == refused(res),
{
    match attr_items(attr) {
        None => Err(AttrTextError::Unreadable),
        Some(items) => {
            let res = jetstream_consumer(items.as_slice(), ident);
            proof {
                assert(text_reads_as(attr@, items@) && spec_jetstream_consumer(items@, ident@, res));
            }
            lift(res)
        },
    }
}

/// The stream that the option list text `attr` describes: unreadable text
/// is refused as such; otherwise the result is what [jetstream_meta] gives
/// for the items the text reads as.
pub fn jetstream_meta_text(attr: &str) -> (r: Result<JetStreamStreamConfig, AttrTextError<StreamOptionError>>)
    ensures
        !attr_text_readable(attr@) ==> r == Err::<JetStreamStreamConfig, AttrTextError<StreamOptionError>>(
            AttrTextError::Unreadable,
        ),
        attr_text_readable(attr@) ==> exists|items: Seq<AttrMeta>, res: Result<JetStreamStreamConfig, StreamOptionError>|
            #![trigger text_reads_as(attr@, items), spec_jetstream_meta(items, res)]
            text_reads_as(attr@, items) && spec_jetstream_meta(items, res) && r == refused(res),
{
    match attr_items(attr) {
        None => Err(AttrTextError::Unreadable),
        Some(items) => {
            let res = jetstream_meta(items.as_slice());
            proof {
                assert(text_reads_as(attr@, items@) && spec_jetstream_meta(items@, res));
            }
            lift(res)
        },
    }
}

/// The service that the option list text `attr` describes: unreadable
/// text is refused as such; otherwise the result is what
/// [rpc_service_impl] gives for the items the text reads as.
pub fn rpc_service_text(attr: &str) -> (r: Result<(RpcServiceMeta, RpcServiceConfig), AttrTextError<RpcOptionError>>)
    ensures
        !attr_text_readable(attr@) ==> r == Err::<(RpcServiceMeta, RpcServiceConfig), AttrTextError<RpcOptionError>>(
            AttrTextError::Unreadable,
        ),
        attr_text_readable(attr@) ==> exists|
            items: Seq<AttrMeta>,
            res: Result<(RpcServiceMeta, RpcServiceConfig), RpcOptionError>,
        |
            #![trigger text_reads_as(attr@, items), spec_rpc_service(items, res)]
            text_reads_as(attr@, items) && spec_rpc_service(items, res) && r == refused(res),
{
    match attr_items(attr) {
        None => Err(AttrTextError::Unreadable),
        Some(items) => {
            let res = rpc_service_impl(items.as_slice());
            proof {
                assert(text_reads_as(attr@, items@) && spec_rpc_service(items@, res));
            }
            lift(res)
        },
    }
}

/// The fixed subject that the option list text `attr` gives an item of
/// kind `kind`: unreadable text is refused as such; otherwise the result
/// is what [message] gives for the items the text reads as.
pub fn message_text(attr: &str, kind: ItemKind) -> (r: Result<String, AttrTextError<MessageOptionError>>)
    ensures
        !attr_text_readable(attr@) ==> r == Err::<String, AttrTextError<MessageOptionError>>(AttrTextError::Unreadable),
        attr_text_readable(attr@) ==> exists|items: Seq<AttrMeta>, res: Result<String, MessageOptionError>|
            #![trigger text_reads_as(attr@, items), spec_message_subject(items, kind, res)]
            text_reads_as(attr@, items) && spec_message_subject(items, kind, res) && r == refused(res),
{
    match attr_items(attr) {
        None => Err(AttrTextError::Unreadable),
        Some(items) => {
            let res = message(items.as_slice(), kind);
            proof {
                assert(text_reads_as(attr@, items@) && spec_message_subject(items@, kind, res));
            }
            lift(res)
        },
    }
}

/// The route table that the option list text `attr` gives the enum
/// `enum_ident` of kind `kind` with `variants`: unreadable text is refused
/// as such; otherwise the result is what [rpc_route_impl] gives for the
/// items the text reads as.
pub fn rpc_route_text(
    attr: &str,
    kind: ItemKind,
    enum_ident: String,
    variants: Vec<(String, Vec<AttrMeta>)>,
) -> (r: Result<RouteTableEnumInfo, AttrTextError<RouteArgsError>>)
    ensures
        !attr_text_readable(attr@) ==> r == Err::<RouteTableEnumInfo, AttrTextError<RouteArgsError>>(
            AttrTextError::Unreadable,
        ),
        attr_text_readable(attr@) ==> exists|items: Seq<AttrMeta>, res: Result<RouteTableEnumInfo, RouteArgsError>|
            #![trigger text_reads_as(attr@, items), spec_rpc_route(items, kind, enum_ident, variants@, res)]
            text_reads_as(attr@, items) && spec_rpc_route(items, kind, enum_ident, variants@, res) && r == refused(res),
{
    match attr_items(attr) {
        None => Err(AttrTextError::Unreadable),
        Some(items) => {
            let ghost vs = variants@;
            let ghost name = enum_ident;
            let res = rpc_route_impl(items.as_slice(), kind, enum_ident, variants);
            proof {
                assert(text_reads_as(attr@, items@) && spec_rpc_route(items@, kind, name, vs, res));
            }
            lift(res)
        },
    }
}

} // verus!
