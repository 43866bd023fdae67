//! Declarative options of streams, consumers, services and messages.
//!
//! Each option list is written as a comma-separated list of items, such as
//! `name = "orders", durable, max_batch = 100`. The functions of the
//! submodules take such a list, item by item, check it, and resolve it into
//! the configuration that the option list stands for; the caller turns that
//! configuration into the client library's own configuration values.

use vstd::prelude::*;

pub mod consumer;
pub mod nats_message;
pub mod rpc_route;
pub mod rpc_service;
pub mod stream_meta;
pub mod text;

verus! {

/// A literal as it stands on the right of `=` in an option item.
#[derive(Debug, Clone, PartialEq, Eq)]
pub enum AttrLit {
    /// A string literal, by its value.
    Str(String),
    /// An integer literal, by its value; `None` when the value is beyond
    /// `u128`.
    Int(Option<u128>),
    /// `true` or `false`.
    Bool(bool),
    /// Any other literal (a character, a float, a byte string).
    Other,
}

/// One item of an option list.
#[derive(Debug, PartialEq, Eq)]
pub enum AttrMeta {
    /// A bare path such as `durable`: the identifier when the path is a
    /// single identifier, `None` when it is not (`a::b`).
    Path(Option<String>),
    /// `path = value`: the identifier of the path as above, and the literal
    /// when the value is a literal (`None` for any other expression).
    NameValue(Option<String>, Option<AttrLit>),
    /// `path(items)`: the identifier of the path as above, and the
    /// comma-separated items inside the parentheses.
    List(Option<String>, Vec<AttrMeta>),
}

/// The item is about the option `key`: its path is the identifier `key`,
/// whatever follows it.
pub open spec fn names_key(m: AttrMeta, key: Seq<char>) -> bool {
    match m {
        AttrMeta::Path(Some(k)) => k@ == key,
        AttrMeta::NameValue(Some(k), _) => k@ == key,
        AttrMeta::List(Some(k), _) => k@ == key,
        _ => false,
    }
}

/// The result of reading `items` in order with `step`, from `init`: the
/// first item that `step` refuses ends the reading with its error.
pub open spec fn fold_items<O, E>(
    init: O,
    step: spec_fn(O, AttrMeta) -> Result<O, E>,
    items: Seq<AttrMeta>,
) -> Result<O, E>
    decreases items.len(),
{
    if items.len() == 0 {
        Ok(init)
    } else {
        match fold_items(init, step, items.drop_last()) {
            Ok(o) => step(o, items.last()),
            Err(e) => Err(e),
        }
    }
}

/// Reading one more item after `prefix` of `items` was read.
pub proof fn lemma_fold_step<O, E>(init: O, step: spec_fn(O, AttrMeta) -> Result<O, E>, items: Seq<AttrMeta>, i: int)
    requires
        0 <= i < items.len(),
    ensures
        fold_items(init, step, items.subrange(0, i + 1)) == match fold_items(init, step, items.subrange(0, i)) {
            Ok(o) => step(o, items[i]),
            Err(e) => Err(e),
        },
{
    assert(items.subrange(0, i + 1).drop_last() =~= items.subrange(0, i));
}

/// Once a prefix of `items` is refused, so are `items`, with the same
/// error.
pub proof fn lemma_fold_error_persists<O, E>(
    init: O,
    step: spec_fn(O, AttrMeta) -> Result<O, E>,
    items: Seq<AttrMeta>,
    k: int,
)
    requires
        0 <= k <= items.len(),
        fold_items(init, step, items.subrange(0, k)) is Err,
    ensures
        fold_items(init, step, items) == fold_items(init, step, items.subrange(0, k)),
    decreases items.len() - k,
{
    if items.len() == k {
        assert(items.subrange(0, k) =~= items);
    } else {
        let shorter = items.drop_last();
        assert(shorter.subrange(0, k) =~= items.subrange(0, k));
        lemma_fold_error_persists(init, step, shorter, k);
    }
}

/// The integer literal's value fits in an `i64`.
pub open spec fn fits_i64(v: Option<u128>) -> bool {
    v is Some && v->Some_0 <= i64::MAX
}

/// The value of an integer literal that fits in an `i64`.
pub open spec fn int_value(v: Option<u128>) -> i64 {
    v->Some_0 as i64
}

/// Read an integer literal as an `i64`: `None` when its value does not fit.
pub fn int_literal_i64(v: Option<u128>) -> (r: Option<i64>)
    ensures
        match r {
            Some(x) => fits_i64(v) && x == v->Some_0,
            None => !fits_i64(v),
        },
{
    match v {
        Some(x) => if x <= 9223372036854775807u128 {
            Some(x as i64)
        } else {
            None
        },
        None => None,
    }
}

/// Whether `key` spells `word`.
pub(crate) fn key_is(key: &String, word: &str) -> (b: bool)
    ensures
        b == (key@ == word@),
{
    let w: String = word.to_owned();
    *key == w
}

} // verus!
