//! Options of a message with a fixed subject: `subject = ".."`.

use crate::attr::{fold_items, key_is, lemma_fold_error_persists, lemma_fold_step, AttrLit, AttrMeta};
use vstd::prelude::*;

verus! {

/// The options of a message with a fixed subject.
#[derive(Debug, Clone)]
pub struct StaticMessageDeriveOptions {
    pub subject: Option<String>,
}

/// What the options are given to.
#[derive(Debug, Clone, Copy, PartialEq, Eq)]
pub enum ItemKind {
    Struct,
    Enum,
    /// A function, a trait, or any other item.
    Other,
}

/// Why the options of a message were refused.
#[derive(Debug, Clone, PartialEq, Eq)]
pub enum MessageOptionError {
    /// "Expected at least one option".
    NoOption,
    /// "Expected an identifier": an item's path is not one identifier.
    ExpectedIdentifier,
    /// "Unknown option": a name other than `subject`, a flag or a list.
    UnknownOption,
    /// "Expected a literal": the value is not a literal.
    ExpectedLiteral,
    /// "Expected a string literal": the value is a literal of another kind.
    ExpectedStringLiteral,
    /// "Missing subject option".
    MissingSubject,
    /// "Expected a struct or an enum".
    NotStructOrEnum,
}

/// The options after one item.
pub open spec fn message_item(o: StaticMessageDeriveOptions, m: AttrMeta) -> Result<
    StaticMessageDeriveOptions,
    MessageOptionError,
> {
    match m {
        AttrMeta::NameValue(None, _) => Err(MessageOptionError::ExpectedIdentifier),
        AttrMeta::NameValue(Some(k), v) => if k@ != "subject"@ {
            Err(MessageOptionError::UnknownOption)
        } else {
            match v {
                None => Err(MessageOptionError::ExpectedLiteral),
                Some(AttrLit::Str(s)) => Ok(StaticMessageDeriveOptions { subject: Some(s) }),
                Some(_) => Err(MessageOptionError::ExpectedStringLiteral),
            }
        },
        _ => Err(MessageOptionError::UnknownOption),
    }
}

/// Reading one item of a message's option list.
pub open spec fn message_step() -> spec_fn(StaticMessageDeriveOptions, AttrMeta) -> Result<
    StaticMessageDeriveOptions,
    MessageOptionError,
> {
    |o: StaticMessageDeriveOptions, m: AttrMeta| message_item(o, m)
}

/// What an option list of a message gives: it must not be empty, every
/// item must be `subject = "<string>"`, and the last one counts.
pub open spec fn spec_message_options(items: Seq<AttrMeta>) -> Result<
    StaticMessageDeriveOptions,
    MessageOptionError,
> {
    if items.len() == 0 {
        Err(MessageOptionError::NoOption)
    } else {
        match fold_items(StaticMessageDeriveOptions { subject: None }, message_step(), items) {
            Err(e) => Err(e),
            Ok(o) => if o.subject is None {
                Err(MessageOptionError::MissingSubject)
            } else {
                Ok(o)
            },
        }
    }
}

impl StaticMessageDeriveOptions {
    /// Read one item.
    fn apply_item(self, m: &AttrMeta) -> (r: Result<Self, MessageOptionError>)
        ensures
            r == message_item(self, *m),
    {
        match m {
            AttrMeta::NameValue(None, _) => Err(MessageOptionError::ExpectedIdentifier),
            AttrMeta::NameValue(Some(k), v) => {
                if !key_is(k, "subject") {
                    return Err(MessageOptionError::UnknownOption);
                }
                match v {
                    None => Err(MessageOptionError::ExpectedLiteral),
                    Some(AttrLit::Str(s)) => Ok(StaticMessageDeriveOptions { subject: Some(s.clone()) }),
                    Some(_) => Err(MessageOptionError::ExpectedStringLiteral),
                }
            },
            _ => Err(MessageOptionError::UnknownOption),
        }
    }

    /// Read an option list of a message: it must not be empty and each item
    /// must be `subject = "<string>"`.
    pub fn parse(items: &[AttrMeta]) -> (r: Result<Self, MessageOptionError>)
        ensures
            r == spec_message_options(items@),
    {
        if items.len() == 0 {
            return Err(MessageOptionError::NoOption);
        }
        let mut options = StaticMessageDeriveOptions { subject: None };
        let mut i: usize = 0;
        while i < items.len()
            invariant
                i <= items@.len(),
                fold_items(StaticMessageDeriveOptions { subject: None }, message_step(), items@.subrange(0, i as int))
                    == Ok::<StaticMessageDeriveOptions, MessageOptionError>(options),
            decreases items@.len() - i,
        {
            proof {
                lemma_fold_step(StaticMessageDeriveOptions { subject: None }, message_step(), items@, i as int);
            }
            match options.apply_item(&items[i]) {
                Ok(o) => options = o,
                Err(e) => {
                    proof {
                        lemma_fold_error_persists(
                            StaticMessageDeriveOptions { subject: None },
                            message_step(),
                            items@,
                            i + 1,
                        );
                    }
                    return Err(e);
                },
            }
            i = i + 1;
        }
        proof {
            assert(items@.subrange(0, items@.len() as int) =~= items@);
        }
        if options.subject.is_none() {
            return Err(MessageOptionError::MissingSubject);
        }
        Ok(options)
    }

    /// The subject that the message is sent on.
    pub fn implement(self) -> (r: String)
        requires
            self.subject is Some,
        ensures
            r == self.subject->Some_0,
    {
        match self.subject {
            Some(s) => s,
            None => String::new(),
        }
    }
}

/// The fixed subject that `items` give an item of kind `kind`, or why
/// they give none.
pub open spec fn spec_message_subject(items: Seq<AttrMeta>, kind: ItemKind, r: Result<String, MessageOptionError>) -> bool {
    match spec_message_options(items) {
        Err(e) => r == Err::<String, MessageOptionError>(e),
        Ok(o) => if kind == ItemKind::Other {
            r == Err::<String, MessageOptionError>(MessageOptionError::NotStructOrEnum)
        } else {
            r == Ok::<String, MessageOptionError>(o.subject->Some_0)
        },
    }
}

/// The fixed subject that the option list `items` gives a message of kind
/// `kind`: the options are read first, and only a struct or an enum can
/// have them.
pub fn message(items: &[AttrMeta], kind: ItemKind) -> (r: Result<String, MessageOptionError>)
    ensures
        spec_message_subject(items@, kind, r),
{
    let options = match StaticMessageDeriveOptions::parse(items) {
        Ok(o) => o,
        Err(e) => return Err(e),
    };
    match kind {
        ItemKind::Other => Err(MessageOptionError::NotStructOrEnum),
        _ => Ok(options.implement()),
    }
}

/// The item is `subject = "<string>"`.
pub open spec fn is_subject_item(m: AttrMeta) -> bool {
    m matches AttrMeta::NameValue(Some(k), Some(AttrLit::Str(_))) && k@ == "subject"@
}

/// Read up to `n` items without refusal, every one of them is
/// `subject = "<string>"`, and the subject is the string of the last one.
proof fn lemma_prefix_subject(items: Seq<AttrMeta>, n: int)
    requires
        0 < n <= items.len(),
        fold_items(StaticMessageDeriveOptions { subject: None }, message_step(), items.subrange(0, n)) is Ok,
    ensures
        forall|j: int| 0 <= j < n ==> is_subject_item(#[trigger] items[j]),
        items[n - 1] matches AttrMeta::NameValue(_, Some(AttrLit::Str(s)))
            && fold_items(StaticMessageDeriveOptions { subject: None }, message_step(), items.subrange(0, n))->Ok_0.subject
            == Some(s),
    decreases n,
{
    lemma_fold_step(StaticMessageDeriveOptions { subject: None }, message_step(), items, n - 1);
    assert(fold_items(StaticMessageDeriveOptions { subject: None }, message_step(), items.subrange(0, n - 1)) is Ok);
    if n > 1 {
        lemma_prefix_subject(items, n - 1);
    }
}

/// A message is sent on the subject of the last item: when its options are
/// accepted for a struct or an enum, every item is `subject = "<string>"`
/// and the subject is the string of the last one.
pub proof fn lemma_last_subject_counts(items: Seq<AttrMeta>, kind: ItemKind, r: Result<String, MessageOptionError>)
    requires
        spec_message_subject(items, kind, r),
        r is Ok,
    ensures
        items.len() > 0,
        kind != ItemKind::Other,
        forall|j: int| 0 <= j < items.len() ==> is_subject_item(#[trigger] items[j]),
        items.last() == AttrMeta::NameValue(items.last()->NameValue_0, Some(AttrLit::Str(r->Ok_0))),
{
    assert(items.subrange(0, items.len() as int) =~= items);
    lemma_prefix_subject(items, items.len() as int);
}

impl MessageOptionError {
    /// How the error is written out.
    pub open spec fn spec_message(&self) -> Seq<char> {
        match self {
            MessageOptionError::NoOption => "Expected at least one option"@,
            MessageOptionError::ExpectedIdentifier => "Expected an identifier"@,
            MessageOptionError::UnknownOption => "Unknown option"@,
            MessageOptionError::ExpectedLiteral => "Expected a literal"@,
            MessageOptionError::ExpectedStringLiteral => "Expected a string literal"@,
            MessageOptionError::MissingSubject => "Missing subject option"@,
            MessageOptionError::NotStructOrEnum => "Expected a struct or an enum"@,
        }
    }

    /// How the error is written out.
    pub fn message(&self) -> (r: String)
        ensures
            r@ == self.spec_message(),
    {
        match self {
            MessageOptionError::NoOption => "Expected at least one option".to_owned(),
            MessageOptionError::ExpectedIdentifier => "Expected an identifier".to_owned(),
            MessageOptionError::UnknownOption => "Unknown option".to_owned(),
            MessageOptionError::ExpectedLiteral => "Expected a literal".to_owned(),
            MessageOptionError::ExpectedStringLiteral => "Expected a string literal".to_owned(),
            MessageOptionError::MissingSubject => "Missing subject option".to_owned(),
            MessageOptionError::NotStructOrEnum => "Expected a struct or an enum".to_owned(),
        }
    }
}

} // verus!
