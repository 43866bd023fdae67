//! Options of a JetStream stream: `name = "..", max_bytes = .., no_ack, ..`.

use crate::attr::{
    fits_i64, fold_items, int_literal_i64, int_value, key_is, lemma_fold_error_persists, lemma_fold_step,
    names_key, AttrLit, AttrMeta,
};
use crate::error::enclosed;
use vstd::prelude::*;

verus! {

/// The options of a stream; its name is required.
#[derive(Debug, Clone)]
pub struct JetStreamMetaOptions {
    pub stream_name: String,
    pub max_bytes: Option<i64>,
    pub max_messages: Option<i64>,
    pub no_ack: Option<bool>,
    pub description: Option<String>,
}

/// The options of a stream while its option list is read.
#[derive(Debug, Clone)]
pub struct StreamOptionsRead {
    pub stream_name: Option<String>,
    pub max_bytes: Option<i64>,
    pub max_messages: Option<i64>,
    pub no_ack: Option<bool>,
    pub description: Option<String>,
}

/// Why an option list of a stream was refused.
#[derive(Debug, Clone, PartialEq, Eq)]
pub enum StreamOptionError {
    /// "expected jetstream options": the list is empty.
    MissingOptions,
    /// "expected identifier": an item's path is not one identifier.
    ExpectedIdentifier,
    /// "expected literal": a value is not a literal.
    ExpectedLiteral,
    /// An integer does not fit in an `i64`.
    NumberTooLarge,
    /// "unexpected attribute": an unknown name or flag, or a known name
    /// with a literal of the wrong kind.
    UnexpectedAttribute(String),
    /// "expected name-value pair or flag": a list item.
    ExpectedNameValueOrFlag,
    /// "expected `name` attribute".
    MissingName,
}

/// The configuration a stream is created with: its name and the fields the
/// options set, every other field keeping the client's default.
#[derive(Debug, Clone)]
pub struct JetStreamStreamConfig {
    pub name: String,
    pub max_bytes: Option<i64>,
    pub max_messages: Option<i64>,
    pub no_ack: Option<bool>,
    pub description: Option<String>,
}

impl StreamOptionsRead {
    /// Nothing read yet.
    pub open spec fn spec_empty() -> Self {
        StreamOptionsRead {
            stream_name: None,
            max_bytes: None,
            max_messages: None,
            no_ack: None,
            description: None,
        }
    }
}

/// The options after the item `key = lit`.
pub open spec fn stream_name_value(o: StreamOptionsRead, key: String, lit: AttrLit) -> Result<
    StreamOptionsRead,
    StreamOptionError,
> {
    let k = key@;
    match lit {
        AttrLit::Str(s) => if k == "name"@ {
            Ok(StreamOptionsRead { stream_name: Some(s), ..o })
        } else if k == "description"@ {
            Ok(StreamOptionsRead { description: Some(s), ..o })
        } else {
            Err(StreamOptionError::UnexpectedAttribute(key))
        },
        AttrLit::Int(v) => if k == "max_bytes"@ {
            if fits_i64(v) {
                Ok(StreamOptionsRead { max_bytes: Some(int_value(v)), ..o })
            } else {
                Err(StreamOptionError::NumberTooLarge)
            }
        } else if k == "max_messages"@ {
            if fits_i64(v) {
                Ok(StreamOptionsRead { max_messages: Some(int_value(v)), ..o })
            } else {
                Err(StreamOptionError::NumberTooLarge)
            }
        } else {
            Err(StreamOptionError::UnexpectedAttribute(key))
        },
        AttrLit::Bool(b) => if k == "no_ack"@ {
            Ok(StreamOptionsRead { no_ack: Some(b), ..o })
        } else {
            Err(StreamOptionError::UnexpectedAttribute(key))
        },
        AttrLit::Other => Err(StreamOptionError::UnexpectedAttribute(key)),
    }
}

/// The options after one item.
pub open spec fn stream_item(o: StreamOptionsRead, m: AttrMeta) -> Result<
    StreamOptionsRead,
    StreamOptionError,
> {
    match m {
        AttrMeta::NameValue(None, _) => Err(StreamOptionError::ExpectedIdentifier),
        AttrMeta::NameValue(Some(_), None) => Err(StreamOptionError::ExpectedLiteral),
        AttrMeta::NameValue(Some(k), Some(l)) => stream_name_value(o, k, l),
        AttrMeta::Path(None) => Err(StreamOptionError::ExpectedIdentifier),
        AttrMeta::Path(Some(k)) => if k@ == "no_ack"@ {
            Ok(StreamOptionsRead { no_ack: Some(true), ..o })
        } else {
            Err(StreamOptionError::UnexpectedAttribute(k))
        },
        AttrMeta::List(..) => Err(StreamOptionError::ExpectedNameValueOrFlag),
    }
}

/// Reading one item of a stream's option list.
pub open spec fn stream_step() -> spec_fn(StreamOptionsRead, AttrMeta) -> Result<
    StreamOptionsRead,
    StreamOptionError,
> {
    |o: StreamOptionsRead, m: AttrMeta| stream_item(o, m)
}

/// What an option list of a stream gives: it must not be empty, each item
/// is read in turn (later ones overriding earlier ones), and a name must
/// have been given.
pub open spec fn spec_stream_options(items: Seq<AttrMeta>) -> Result<
    JetStreamMetaOptions,
    StreamOptionError,
> {
    if items.len() == 0 {
        Err(StreamOptionError::MissingOptions)
    } else {
        match fold_items(StreamOptionsRead::spec_empty(), stream_step(), items) {
            Err(e) => Err(e),
            Ok(o) => match o.stream_name {
                None => Err(StreamOptionError::MissingName),
                Some(n) => Ok(
                    JetStreamMetaOptions {
                        stream_name: n,
                        max_bytes: o.max_bytes,
                        max_messages: o.max_messages,
                        no_ack: o.no_ack,
                        description: o.description,
                    },
                ),
            },
        }
    }
}

impl StreamOptionsRead {
    /// Read the item `key = lit`.
    fn apply_name_value(self, key: &String, lit: &AttrLit) -> (r: Result<Self, StreamOptionError>)
        ensures
            r == stream_name_value(self, *key, *lit),
    {
        let mut o = self;
        match lit {
            AttrLit::Str(s) => {
                if key_is(key, "name") {
                    o.stream_name = Some(s.clone());
                } else if key_is(key, "description") {
                    o.description = Some(s.clone());
                } else {
                    return Err(StreamOptionError::UnexpectedAttribute(key.clone()));
                }
            },
            AttrLit::Int(v) => {
                if key_is(key, "max_bytes") {
                    match int_literal_i64(*v) {
                        Some(x) => o.max_bytes = Some(x),
                        None => return Err(StreamOptionError::NumberTooLarge),
                    }
                } else if key_is(key, "max_messages") {
                    match int_literal_i64(*v) {
                        Some(x) => o.max_messages = Some(x),
                        None => return Err(StreamOptionError::NumberTooLarge),
                    }
                } else {
                    return Err(StreamOptionError::UnexpectedAttribute(key.clone()));
                }
            },
            AttrLit::Bool(b) => {
                if key_is(key, "no_ack") {
                    o.no_ack = Some(*b);
                } else {
                    return Err(StreamOptionError::UnexpectedAttribute(key.clone()));
                }
            },
            AttrLit::Other => {
                return Err(StreamOptionError::UnexpectedAttribute(key.clone()));
            },
        }
        Ok(o)
    }

    /// Read one item.
    fn apply_item(self, m: &AttrMeta) -> (r: Result<Self, StreamOptionError>)
        ensures
            r == stream_item(self, *m),
    {
        match m {
            AttrMeta::NameValue(None, _) => Err(StreamOptionError::ExpectedIdentifier),
            AttrMeta::NameValue(Some(_), None) => Err(StreamOptionError::ExpectedLiteral),
            AttrMeta::NameValue(Some(k), Some(l)) => self.apply_name_value(k, l),
            AttrMeta::Path(None) => Err(StreamOptionError::ExpectedIdentifier),
            AttrMeta::Path(Some(k)) => {
                if key_is(k, "no_ack") {
                    let mut o = self;
                    o.no_ack = Some(true);
                    Ok(o)
                } else {
                    Err(StreamOptionError::UnexpectedAttribute(k.clone()))
                }
            },
            AttrMeta::List(..) => Err(StreamOptionError::ExpectedNameValueOrFlag),
        }
    }
}

impl JetStreamMetaOptions {
    /// Read an option list of a stream: it must not be empty, each item is
    /// read in turn (later ones overriding earlier ones), and `name` is
    /// required.
    pub fn parse(items: &[AttrMeta]) -> (r: Result<Self, StreamOptionError>)
        ensures
            r == spec_stream_options(items@),
    {
        if items.len() == 0 {
            return Err(StreamOptionError::MissingOptions);
        }
        let mut read = StreamOptionsRead {
            stream_name: None,
            max_bytes: None,
            max_messages: None,
            no_ack: None,
            description: None,
        };
        let mut i: usize = 0;
        while i < items.len()
            invariant
                i <= items@.len(),
                fold_items(StreamOptionsRead::spec_empty(), stream_step(), items@.subrange(0, i as int))
                    == Ok::<StreamOptionsRead, StreamOptionError>(read),
            decreases items@.len() - i,
        {
            proof {
                lemma_fold_step(StreamOptionsRead::spec_empty(), stream_step(), items@, i as int);
            }
            match read.apply_item(&items[i]) {
                Ok(o) => read = o,
                Err(e) => {
                    proof {
                        lemma_fold_error_persists(
                            StreamOptionsRead::spec_empty(),
                            stream_step(),
                            items@,
                            i + 1,
                        );
                    }
                    return Err(e);
                },
            }
            i = i + 1;
        }
        proof {
            assert(items@.subrange(0, items@.len() as int) =~= items@);
        }
        match read.stream_name {
            None => Err(StreamOptionError::MissingName),
            Some(stream_name) => Ok(
                JetStreamMetaOptions {
                    stream_name,
                    max_bytes: read.max_bytes,
                    max_messages: read.max_messages,
                    no_ack: read.no_ack,
                    description: read.description,
                },
            ),
        }
    }

    /// The configuration the stream is created with: its name, and the
    /// limits, acknowledgement setting and description that were given.
    pub fn implement(self) -> (r: JetStreamStreamConfig)
        ensures
            r.name == self.stream_name,
            r.max_bytes == self.max_bytes,
            r.max_messages == self.max_messages,
            r.no_ack == self.no_ack,
            r.description == self.description,
    {
        JetStreamStreamConfig {
            name: self.stream_name,
            max_bytes: self.max_bytes,
            max_messages: self.max_messages,
            no_ack: self.no_ack,
            description: self.description,
        }
    }
}

/// What the stream described by `items` is: refused exactly when the
/// option list is; otherwise configured as the options say.
pub open spec fn spec_jetstream_meta(items: Seq<AttrMeta>, r: Result<JetStreamStreamConfig, StreamOptionError>) -> bool {
    match spec_stream_options(items) {
        Err(e) => r == Err::<JetStreamStreamConfig, StreamOptionError>(e),
        Ok(o) => r is Ok && {
            let c = r->Ok_0;
            &&& c.name == o.stream_name
            &&& c.max_bytes == o.max_bytes
            &&& c.max_messages == o.max_messages
            &&& c.no_ack == o.no_ack
            &&& c.description == o.description
        },
    }
}

/// The stream that the option list `items` describes; refused exactly when
/// the option list is.
pub fn jetstream_meta(items: &[AttrMeta]) -> (r: Result<JetStreamStreamConfig, StreamOptionError>)
    ensures
        spec_jetstream_meta(items@, r),
{
    match JetStreamMetaOptions::parse(items) {
        Ok(o) => Ok(o.implement()),
        Err(e) => Err(e),
    }
}

/// The keys of a stream's options.
pub open spec fn is_stream_key(key: Seq<char>) -> bool {
    key == "name"@ || key == "description"@ || key == "max_bytes"@ || key == "max_messages"@ || key == "no_ack"@
}

/// `a` and `b` agree on the option that `key` sets.
pub open spec fn same_stream_option(a: StreamOptionsRead, b: StreamOptionsRead, key: Seq<char>) -> bool {
    &&& key == "name"@ ==> a.stream_name == b.stream_name
    &&& key == "description"@ ==> a.description == b.description
    &&& key == "max_bytes"@ ==> a.max_bytes == b.max_bytes
    &&& key == "max_messages"@ ==> a.max_messages == b.max_messages
    &&& key == "no_ack"@ ==> a.no_ack == b.no_ack
}

/// The keys of a stream's options are five different words.
proof fn lemma_stream_keys_differ()
    ensures
        "name"@.len() == 4,
        "description"@.len() == 11,
        "max_bytes"@.len() == 9,
        "max_messages"@.len() == 12,
        "no_ack"@.len() == 6,
{
    reveal_strlit("name");
    reveal_strlit("description");
    reveal_strlit("max_bytes");
    reveal_strlit("max_messages");
    reveal_strlit("no_ack");
}

/// Read up to `n` items, the option `key` is what item `i` set, when item
/// `i` is about `key` and no later item is.
proof fn lemma_last_stream_item_decides(items: Seq<AttrMeta>, i: int, n: int, key: Seq<char>)
    requires
        0 <= i < n <= items.len(),
        is_stream_key(key),
        names_key(items[i], key),
        forall|j: int| i < j < n ==> !names_key(#[trigger] items[j], key),
        fold_items(StreamOptionsRead::spec_empty(), stream_step(), items.subrange(0, n)) is Ok,
    ensures
        fold_items(StreamOptionsRead::spec_empty(), stream_step(), items.subrange(0, i)) is Ok,
        stream_item(fold_items(StreamOptionsRead::spec_empty(), stream_step(), items.subrange(0, i))->Ok_0, items[i])
            is Ok,
        same_stream_option(
            fold_items(StreamOptionsRead::spec_empty(), stream_step(), items.subrange(0, n))->Ok_0,
            stream_item(fold_items(StreamOptionsRead::spec_empty(), stream_step(), items.subrange(0, i))->Ok_0, items[i])->Ok_0,
            key,
        ),
    decreases n,
{
    lemma_stream_keys_differ();
    lemma_fold_step(StreamOptionsRead::spec_empty(), stream_step(), items, n - 1);
    assert(fold_items(StreamOptionsRead::spec_empty(), stream_step(), items.subrange(0, n - 1)) is Ok);
    if n - 1 != i {
        lemma_last_stream_item_decides(items, i, n - 1, key);
    }
}

/// A stream is configured with the options it was given, the last item
/// about an option deciding it: `name = s` names it `s`, `description = s`
/// describes it as `s`, `max_bytes = v` and `max_messages = v` limit it to
/// `v`, and `no_ack = b` sets `b`, the flag `no_ack` alone setting `true`.
pub proof fn lemma_stream_options_are_kept(
    items: Seq<AttrMeta>,
    r: Result<JetStreamStreamConfig, StreamOptionError>,
    i: int,
    key: Seq<char>,
)
    requires
        spec_jetstream_meta(items, r),
        r is Ok,
        0 <= i < items.len(),
        is_stream_key(key),
        names_key(items[i], key),
        forall|j: int| i < j < items.len() ==> !names_key(#[trigger] items[j], key),
    ensures
        items[i] matches AttrMeta::NameValue(_, Some(AttrLit::Str(s))) ==> (key == "name"@ ==> r->Ok_0.name == s),
        items[i] matches AttrMeta::NameValue(_, Some(AttrLit::Str(s))) ==> (key == "description"@
            ==> r->Ok_0.description == Some(s)),
        items[i] matches AttrMeta::NameValue(_, Some(AttrLit::Int(v))) ==> (key == "max_bytes"@
            ==> r->Ok_0.max_bytes == Some(v->Some_0 as i64) && v->Some_0 <= i64::MAX),
        items[i] matches AttrMeta::NameValue(_, Some(AttrLit::Int(v))) ==> (key == "max_messages"@
            ==> r->Ok_0.max_messages == Some(v->Some_0 as i64) && v->Some_0 <= i64::MAX),
        items[i] matches AttrMeta::NameValue(_, Some(AttrLit::Bool(b))) ==> (key == "no_ack"@
            ==> r->Ok_0.no_ack == Some(b)),
        items[i] is Path && key == "no_ack"@ ==> r->Ok_0.no_ack == Some(true),
{
    lemma_stream_keys_differ();
    assert(items.subrange(0, items.len() as int) =~= items);
    lemma_last_stream_item_decides(items, i, items.len() as int, key);
}

impl StreamOptionError {
    /// How the error is written out.
    pub open spec fn spec_message(&self) -> Seq<char> {
        match self {
            StreamOptionError::MissingOptions => "expected jetstream options"@,
            StreamOptionError::ExpectedIdentifier => "expected identifier"@,
            StreamOptionError::ExpectedLiteral => "expected literal"@,
            StreamOptionError::NumberTooLarge => "number too large to fit in target type"@,
            StreamOptionError::UnexpectedAttribute(name) => "unexpected attribute: `"@ + name@ + "`"@,
            StreamOptionError::ExpectedNameValueOrFlag => "expected name-value pair or flag"@,
            StreamOptionError::MissingName => "expected `name` attribute"@,
        }
    }

    /// How the error is written out.
    pub fn message(&self) -> (r: String)
        ensures
            r@ == self.spec_message(),
    {
        match self {
            StreamOptionError::MissingOptions => "expected jetstream options".to_owned(),
            StreamOptionError::ExpectedIdentifier => "expected identifier".to_owned(),
            StreamOptionError::ExpectedLiteral => "expected literal".to_owned(),
            StreamOptionError::NumberTooLarge => "number too large to fit in target type".to_owned(),
            StreamOptionError::UnexpectedAttribute(name) => enclosed("unexpected attribute: `", name.as_str(), "`"),
            StreamOptionError::ExpectedNameValueOrFlag => "expected name-value pair or flag".to_owned(),
            StreamOptionError::MissingName => "expected `name` attribute".to_owned(),
        }
    }
}

} // verus!
