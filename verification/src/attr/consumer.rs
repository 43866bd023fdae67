//! Options of a JetStream consumer: `name = "..", durable, pull, ..`.
//!
//! An option list is read item by item into [JetStreamConsumerOptions]
//! (later items override earlier ones), checked as a whole, resolved into a
//! [ParsedJetStreamConsumerConfig], named after the type it describes when
//! it names nothing itself, and turned into the consumer configuration.

use crate::attr::{
    fits_i64, fold_items, int_literal_i64, int_value, key_is, lemma_fold_error_persists, lemma_fold_step,
    names_key, AttrLit, AttrMeta,
};
use convert_case::{Case, Casing};
use crate::error::enclosed;
use vstd::prelude::*;

verus! {

/// Where a consumer starts in its stream.
#[derive(Debug, Clone, Copy, PartialEq, Eq)]
pub enum DeliverPolicy {
    /// From the first message.
    All,
    /// From the last message.
    Last,
    /// From the messages published after it was created.
    New,
    /// From the last message of each subject.
    LastPerSubject,
}

/// How a consumer acknowledges messages.
#[derive(Debug, Clone, Copy, PartialEq, Eq)]
pub enum AckPolicy {
    /// One acknowledgement covers all earlier messages.
    All,
    /// Each message is acknowledged on its own.
    Explicit,
    /// No acknowledgement (written `none`).
    NoAck,
}

/// The options of a consumer as the option list gave them.
#[derive(Debug, Clone)]
pub struct JetStreamConsumerOptions {
    pub consumer_name: Option<String>,
    /// Set by the flag `push`.
    pub is_push: Option<bool>,
    /// Set by the flag `pull`.
    pub is_pull: Option<bool>,
    /// Set by the flag `durable`; unset, a consumer is not durable unless it
    /// has a `durable_name`.
    pub is_durable: Option<bool>,
    /// The durable name; setting it makes the consumer durable.
    pub durable_name: Option<String>,
    pub description: Option<String>,
    pub deliver_policy: DeliverPolicy,
    pub ack_policy: AckPolicy,
    pub ack_wait_secs: Option<i64>,
    pub filter_subject: Option<String>,
    pub headers_only: Option<bool>,
    /// Pull consumers only.
    pub pull_max_batch: Option<i64>,
    /// Push consumers only, and required for them.
    pub push_deliver_subject: Option<String>,
    /// Push consumers only.
    pub push_deliver_group: Option<String>,
}

/// Why an option list of a consumer was refused.
#[derive(Debug, Clone, PartialEq, Eq)]
pub enum ConsumerOptionError {
    /// "expected identifier": an item's path is not one identifier.
    ExpectedIdentifier,
    /// "expected literal": a value is not a literal.
    ExpectedLiteral,
    /// `deliver_policy` is none of all, last, new, last_per_subject.
    InvalidDeliverPolicy,
    /// `ack_policy` is none of all, explicit, none.
    InvalidAckPolicy,
    /// An integer does not fit in an `i64`.
    NumberTooLarge,
    /// "unexpected attribute": an unknown name, or a known one with a
    /// literal of the wrong kind.
    UnexpectedAttribute(String),
    /// "expected name-value pair or flag": an unknown flag, or a list.
    ExpectedNameValueOrFlag,
    /// Both `push` and `pull` are set.
    PushAndPull,
    /// A push consumer has no `deliver_subject`.
    MissingDeliverSubject,
    /// `deliver_group` on a pull consumer.
    DeliverGroupWithoutPush,
    /// `deliver_subject` on a pull consumer.
    DeliverSubjectWithoutPush,
    /// `max_batch` on a push consumer.
    MaxBatchWithoutPull,
}

/// How a consumer is kept.
#[derive(Debug, Clone, PartialEq, Eq)]
pub enum DurableSetting {
    /// Removed when unused.
    Ephemeral,
    /// Durable under this name.
    Durable(String),
    /// Durable under the name of the type it describes.
    DurableDefaultName,
}

/// Push or pull, with the options of each.
#[derive(Debug, Clone, PartialEq, Eq)]
pub enum ConsumerType {
    Push { deliver_subject: String, deliver_group: Option<String> },
    Pull { max_batch: Option<i64> },
}

/// A consumer's options once resolved.
#[derive(Debug, Clone)]
pub struct ParsedJetStreamConsumerConfig {
    pub consumer_name: Option<String>,
    pub durable: DurableSetting,
    pub consumer_type: ConsumerType,
    pub deliver_policy: DeliverPolicy,
    pub ack_policy: AckPolicy,
    pub ack_wait_secs: Option<i64>,
    pub filter_subject: Option<String>,
    pub headers_only: bool,
}

/// The configuration a consumer is created with: the fields it sets, every
/// other field keeping the client's default.
#[derive(Debug, Clone)]
pub struct JetStreamConsumerConfig {
    pub consumer_type: ConsumerType,
    pub durable_name: Option<String>,
    pub deliver_policy: DeliverPolicy,
    pub ack_policy: AckPolicy,
    pub ack_wait_secs: Option<i64>,
    pub filter_subject: Option<String>,
    pub headers_only: bool,
}

/// A consumer as a type describes it: its name and its configuration.
#[derive(Debug, Clone)]
pub struct JetStreamConsumerMeta {
    pub consumer_name: String,
    pub config: JetStreamConsumerConfig,
}

/// The lowercase form of a string, as `str::to_lowercase` gives it.
pub uninterp spec fn lowercase_of(s: Seq<char>) -> Seq<char>;

/// `str::to_lowercase`: its result is named [lowercase_of] of the input.
#[verifier::external_body]
fn to_lowercase(s: &str) -> (r: String)
    ensures
        r@ == lowercase_of(s@),
{
    s.to_lowercase()
}

/// The snake_case form of an identifier, as the `convert_case` crate gives
/// it.
pub uninterp spec fn snake_case_of(s: Seq<char>) -> Seq<char>;

/// `convert_case::Casing::to_case` with `Case::Snake`: its result is named
/// [snake_case_of] of the input.
#[verifier::external_body]
fn to_snake_case(s: &str) -> (r: String)
    ensures
        r@ == snake_case_of(s@),
{
    s.to_case(Case::Snake)
}

/// The deliver policy a lowercased name stands for.
pub open spec fn deliver_policy_named(v: Seq<char>) -> Option<DeliverPolicy> {
    if v == "all"@ {
        Some(DeliverPolicy::All)
    } else if v == "last"@ {
        Some(DeliverPolicy::Last)
    } else if v == "new"@ {
        Some(DeliverPolicy::New)
    } else if v == "last_per_subject"@ {
        Some(DeliverPolicy::LastPerSubject)
    } else {
        None
    }
}

/// The ack policy a lowercased name stands for.
pub open spec fn ack_policy_named(v: Seq<char>) -> Option<AckPolicy> {
    if v == "all"@ {
        Some(AckPolicy::All)
    } else if v == "explicit"@ {
        Some(AckPolicy::Explicit)
    } else if v == "none"@ {
        Some(AckPolicy::NoAck)
    } else {
        None
    }
}

impl JetStreamConsumerOptions {
    /// No option set: a pull consumer delivering all messages, acknowledged
    /// one by one.
    pub open spec fn spec_default() -> Self {
        JetStreamConsumerOptions {
            consumer_name: None,
            is_push: None,
            is_pull: None,
            is_durable: None,
            durable_name: None,
            description: None,
            deliver_policy: DeliverPolicy::All,
            ack_policy: AckPolicy::Explicit,
            ack_wait_secs: None,
            filter_subject: None,
            headers_only: None,
            pull_max_batch: None,
            push_deliver_subject: None,
            push_deliver_group: None,
        }
    }

    /// The flags that the option list sets are only ever set to `true`.
    pub open spec fn flags_only_set(self) -> bool {
        &&& (self.is_push is None || self.is_push == Some(true))
        &&& (self.is_pull is None || self.is_pull == Some(true))
        &&& (self.is_durable is None || self.is_durable == Some(true))
    }

    /// The options can be resolved: no contradicting durability, push and
    /// pull not both set, and a push consumer has its deliver subject.
    pub open spec fn resolvable(self) -> bool {
        &&& !(self.is_durable == Some(false) && self.durable_name is Some)
        &&& (self.is_push is None || self.is_push == Some(true))
        &&& (self.is_pull is None || self.is_pull == Some(true))
        &&& !(self.is_push is Some && self.is_pull is Some)
        &&& (self.is_push is Some ==> self.push_deliver_subject is Some)
    }
}

impl Default for JetStreamConsumerOptions {
    fn default() -> (r: Self)
        ensures
            r == Self::spec_default(),
    {
        JetStreamConsumerOptions {
            consumer_name: None,
            is_push: None,
            is_pull: None,
            is_durable: None,
            durable_name: None,
            description: None,
            deliver_policy: DeliverPolicy::All,
            ack_policy: AckPolicy::Explicit,
            ack_wait_secs: None,
            filter_subject: None,
            headers_only: None,
            pull_max_batch: None,
            push_deliver_subject: None,
            push_deliver_group: None,
        }
    }
}

/// The options after the item `key = lit`.
pub open spec fn consumer_name_value(
    o: JetStreamConsumerOptions,
    key: String,
    lit: AttrLit,
) -> Result<JetStreamConsumerOptions, ConsumerOptionError> {
    let k = key@;
    match lit {
        AttrLit::Str(s) => if k == "name"@ {
            Ok(JetStreamConsumerOptions { consumer_name: Some(s), ..o })
        } else if k == "durable_name"@ {
            Ok(JetStreamConsumerOptions { durable_name: Some(s), ..o })
        } else if k == "description"@ {
            Ok(JetStreamConsumerOptions { description: Some(s), ..o })
        } else if k == "deliver_policy"@ {
            match deliver_policy_named(lowercase_of(s@)) {
                Some(p) => Ok(JetStreamConsumerOptions { deliver_policy: p, ..o }),
                None => Err(ConsumerOptionError::InvalidDeliverPolicy),
            }
        } else if k == "ack_policy"@ {
            match ack_policy_named(lowercase_of(s@)) {
                Some(p) => Ok(JetStreamConsumerOptions { ack_policy: p, ..o }),
                None => Err(ConsumerOptionError::InvalidAckPolicy),
            }
        } else if k == "filter_subject"@ {
            Ok(JetStreamConsumerOptions { filter_subject: Some(s), ..o })
        } else if k == "deliver_subject"@ {
            Ok(JetStreamConsumerOptions { push_deliver_subject: Some(s), ..o })
        } else if k == "deliver_group"@ {
            Ok(JetStreamConsumerOptions { push_deliver_group: Some(s), ..o })
        } else {
            Err(ConsumerOptionError::UnexpectedAttribute(key))
        },
        AttrLit::Int(v) => if k == "ack_wait_secs"@ {
            if fits_i64(v) {
                Ok(JetStreamConsumerOptions { ack_wait_secs: Some(int_value(v)), ..o })
            } else {
                Err(ConsumerOptionError::NumberTooLarge)
            }
        } else if k == "max_batch"@ {
            if fits_i64(v) {
                Ok(JetStreamConsumerOptions { pull_max_batch: Some(int_value(v)), ..o })
            } else {
                Err(ConsumerOptionError::NumberTooLarge)
            }
        } else {
            Err(ConsumerOptionError::UnexpectedAttribute(key))
        },
        AttrLit::Bool(b) => if k == "headers_only"@ {
            Ok(JetStreamConsumerOptions { headers_only: Some(b), ..o })
        } else {
            Err(ConsumerOptionError::UnexpectedAttribute(key))
        },
        AttrLit::Other => Err(ConsumerOptionError::UnexpectedAttribute(key)),
    }
}

/// The options after the flag `key`.
pub open spec fn consumer_flag(o: JetStreamConsumerOptions, key: String) -> Result<
    JetStreamConsumerOptions,
    ConsumerOptionError,
> {
    let k = key@;
    if k == "push"@ {
        Ok(JetStreamConsumerOptions { is_push: Some(true), ..o })
    } else if k == "pull"@ {
        Ok(JetStreamConsumerOptions { is_pull: Some(true), ..o })
    } else if k == "durable"@ {
        Ok(JetStreamConsumerOptions { is_durable: Some(true), ..o })
    } else if k == "headers_only"@ {
        Ok(JetStreamConsumerOptions { headers_only: Some(true), ..o })
    } else {
        Err(ConsumerOptionError::ExpectedNameValueOrFlag)
    }
}

/// The options after one item.
pub open spec fn consumer_item(o: JetStreamConsumerOptions, m: AttrMeta) -> Result<
    JetStreamConsumerOptions,
    ConsumerOptionError,
> {
    match m {
        AttrMeta::NameValue(None, _) => Err(ConsumerOptionError::ExpectedIdentifier),
        AttrMeta::NameValue(Some(_), None) => Err(ConsumerOptionError::ExpectedLiteral),
        AttrMeta::NameValue(Some(k), Some(l)) => consumer_name_value(o, k, l),
        AttrMeta::Path(None) => Err(ConsumerOptionError::ExpectedIdentifier),
        AttrMeta::Path(Some(k)) => consumer_flag(o, k),
        AttrMeta::List(..) => Err(ConsumerOptionError::ExpectedNameValueOrFlag),
    }
}

/// Reading one item of a consumer's option list.
pub open spec fn consumer_step() -> spec_fn(JetStreamConsumerOptions, AttrMeta) -> Result<
    JetStreamConsumerOptions,
    ConsumerOptionError,
> {
    |o: JetStreamConsumerOptions, m: AttrMeta| consumer_item(o, m)
}

/// The options after all the items, in order, from no option set; the
/// first refused item ends the reading.
pub open spec fn consumer_items(items: Seq<AttrMeta>) -> Result<
    JetStreamConsumerOptions,
    ConsumerOptionError,
> {
    fold_items(JetStreamConsumerOptions::spec_default(), consumer_step(), items)
}

/// The checks on the options as a whole. A consumer is a pull consumer
/// unless `push` is set.
pub open spec fn consumer_validated(o: JetStreamConsumerOptions) -> Result<
    JetStreamConsumerOptions,
    ConsumerOptionError,
> {
    if o.is_push is Some && o.is_pull is Some {
        Err(ConsumerOptionError::PushAndPull)
    } else if o.is_push is Some && o.push_deliver_subject is None {
        Err(ConsumerOptionError::MissingDeliverSubject)
    } else if o.is_push is None {
        if o.push_deliver_group is Some {
            Err(ConsumerOptionError::DeliverGroupWithoutPush)
        } else if o.push_deliver_subject is Some {
            Err(ConsumerOptionError::DeliverSubjectWithoutPush)
        } else {
            Ok(o)
        }
    } else if o.pull_max_batch is Some {
        Err(ConsumerOptionError::MaxBatchWithoutPull)
    } else {
        Ok(o)
    }
}

/// What an option list of a consumer gives: no item at all gives the
/// defaults; otherwise the items are read and the result is checked.
pub open spec fn spec_consumer_options(items: Seq<AttrMeta>) -> Result<
    JetStreamConsumerOptions,
    ConsumerOptionError,
> {
    if items.len() == 0 {
        Ok(JetStreamConsumerOptions::spec_default())
    } else {
        match consumer_items(items) {
            Ok(o) => consumer_validated(o),
            Err(e) => Err(e),
        }
    }
}

/// How resolved options keep the consumer.
pub open spec fn spec_durable(o: JetStreamConsumerOptions) -> DurableSetting {
    match (o.consumer_name, o.is_durable, o.durable_name) {
        (_, Some(true), Some(d)) => DurableSetting::Durable(d),
        (Some(n), Some(true), None) => DurableSetting::Durable(n),
        (None, Some(true), None) => DurableSetting::DurableDefaultName,
        (_, None, Some(d)) => DurableSetting::Durable(d),
        _ => DurableSetting::Ephemeral,
    }
}

/// Push or pull, as resolved options give it.
pub open spec fn spec_consumer_type(o: JetStreamConsumerOptions) -> ConsumerType {
    if o.is_push == Some(true) {
        ConsumerType::Push {
            deliver_subject: o.push_deliver_subject.unwrap(),
            deliver_group: o.push_deliver_group,
        }
    } else {
        ConsumerType::Pull { max_batch: o.pull_max_batch }
    }
}

/// The resolution of options that are resolvable.
pub open spec fn spec_parsed(o: JetStreamConsumerOptions) -> ParsedJetStreamConsumerConfig {
    ParsedJetStreamConsumerConfig {
        consumer_name: o.consumer_name,
        durable: spec_durable(o),
        consumer_type: spec_consumer_type(o),
        deliver_policy: o.deliver_policy,
        ack_policy: o.ack_policy,
        ack_wait_secs: o.ack_wait_secs,
        filter_subject: o.filter_subject,
        headers_only: o.headers_only == Some(true),
    }
}

impl JetStreamConsumerOptions {
    /// Read the item `key = lit` into the options.
    fn apply_name_value(self, key: &String, lit: &AttrLit) -> (r: Result<Self, ConsumerOptionError>)
        ensures
            r == consumer_name_value(self, *key, *lit),
    {
        let mut o = self;
        match lit {
            AttrLit::Str(s) => {
                if key_is(key, "name") {
                    o.consumer_name = Some(s.clone());
                } else if key_is(key, "durable_name") {
                    o.durable_name = Some(s.clone());
                } else if key_is(key, "description") {
                    o.description = Some(s.clone());
                } else if key_is(key, "deliver_policy") {
                    let v = to_lowercase(s.as_str());
                    let all = "all".to_owned();
                    let last = "last".to_owned();
                    let new = "new".to_owned();
                    let last_per_subject = "last_per_subject".to_owned();
                    o.deliver_policy = if v == all {
                        DeliverPolicy::All
                    } else if v == last {
                        DeliverPolicy::Last
                    } else if v == new {
                        DeliverPolicy::New
                    } else if v == last_per_subject {
                        DeliverPolicy::LastPerSubject
                    } else {
                        return Err(ConsumerOptionError::InvalidDeliverPolicy);
                    };
                } else if key_is(key, "ack_policy") {
                    let v = to_lowercase(s.as_str());
                    let all = "all".to_owned();
                    let explicit = "explicit".to_owned();
                    let none = "none".to_owned();
                    o.ack_policy = if v == all {
                        AckPolicy::All
                    } else if v == explicit {
                        AckPolicy::Explicit
                    } else if v == none {
                        AckPolicy::NoAck
                    } else {
                        return Err(ConsumerOptionError::InvalidAckPolicy);
                    };
                } else if key_is(key, "filter_subject") {
                    o.filter_subject = Some(s.clone());
                } else if key_is(key, "deliver_subject") {
                    o.push_deliver_subject = Some(s.clone());
                } else if key_is(key, "deliver_group") {
                    o.push_deliver_group = Some(s.clone());
                } else {
                    return Err(ConsumerOptionError::UnexpectedAttribute(key.clone()));
                }
            },
            AttrLit::Int(v) => {
                if key_is(key, "ack_wait_secs") {
                    match int_literal_i64(*v) {
                        Some(x) => o.ack_wait_secs = Some(x),
                        None => return Err(ConsumerOptionError::NumberTooLarge),
                    }
                } else if key_is(key, "max_batch") {
                    match int_literal_i64(*v) {
                        Some(x) => o.pull_max_batch = Some(x),
                        None => return Err(ConsumerOptionError::NumberTooLarge),
                    }
                } else {
                    return Err(ConsumerOptionError::UnexpectedAttribute(key.clone()));
                }
            },
            AttrLit::Bool(b) => {
                if key_is(key, "headers_only") {
                    o.headers_only = Some(*b);
                } else {
                    return Err(ConsumerOptionError::UnexpectedAttribute(key.clone()));
                }
            },
            AttrLit::Other => {
                return Err(ConsumerOptionError::UnexpectedAttribute(key.clone()));
            },
        }
        Ok(o)
    }

    /// Read the flag `key` into the options.
    fn apply_flag(self, key: &String) -> (r: Result<Self, ConsumerOptionError>)
        ensures
            r == consumer_flag(self, *key),
    {
        let mut o = self;
        if key_is(key, "push") {
            o.is_push = Some(true);
        } else if key_is(key, "pull") {
            o.is_pull = Some(true);
        } else if key_is(key, "durable") {
            o.is_durable = Some(true);
        } else if key_is(key, "headers_only") {
            o.headers_only = Some(true);
        } else {
            return Err(ConsumerOptionError::ExpectedNameValueOrFlag);
        }
        Ok(o)
    }

    /// Read one item into the options.
    fn apply_item(self, m: &AttrMeta) -> (r: Result<Self, ConsumerOptionError>)
        ensures
            r == consumer_item(self, *m),
    {
        match m {
            AttrMeta::NameValue(None, _) => Err(ConsumerOptionError::ExpectedIdentifier),
            AttrMeta::NameValue(Some(_), None) => Err(ConsumerOptionError::ExpectedLiteral),
            AttrMeta::NameValue(Some(k), Some(l)) => self.apply_name_value(k, l),
            AttrMeta::Path(None) => Err(ConsumerOptionError::ExpectedIdentifier),
            AttrMeta::Path(Some(k)) => self.apply_flag(k),
            AttrMeta::List(..) => Err(ConsumerOptionError::ExpectedNameValueOrFlag),
        }
    }

    /// Read an option list of a consumer: each item in turn, later ones
    /// overriding earlier ones, then the checks on the whole (push and pull
    /// exclude each other, a push consumer needs `deliver_subject`, and the
    /// options of one kind are refused on the other). No item at all gives
    /// the defaults.
    pub fn parse(items: &[AttrMeta]) -> (r: Result<Self, ConsumerOptionError>)
        ensures
            r == spec_consumer_options(items@),
    {
        let mut options = JetStreamConsumerOptions::default();
        if items.len() == 0 {
            return Ok(options);
        }
        let mut i: usize = 0;
        while i < items.len()
            invariant
                0 < items@.len(),
                i <= items@.len(),
                consumer_items(items@.subrange(0, i as int)) == Ok::<
                    JetStreamConsumerOptions,
                    ConsumerOptionError,
                >(options),
            decreases items@.len() - i,
        {
            proof {
                lemma_fold_step(JetStreamConsumerOptions::spec_default(), consumer_step(), items@, i as int);
            }
            match options.apply_item(&items[i]) {
                Ok(o) => options = o,
                Err(e) => {
                    proof {
                        lemma_fold_error_persists(
                            JetStreamConsumerOptions::spec_default(),
                            consumer_step(),
                            items@,
                            i + 1,
                        );
                    }
                    return Err(e);
                },
            }
            i = i + 1;
        }
        proof {
            assert(items@.subrange(0, items@.len() as int) =~= items@);
        }
        if options.is_push.is_some() && options.is_pull.is_some() {
            return Err(ConsumerOptionError::PushAndPull);
        }
        if options.is_push.is_some() && options.push_deliver_subject.is_none() {
            return Err(ConsumerOptionError::MissingDeliverSubject);
        }
        if options.is_push.is_none() {
            if options.push_deliver_group.is_some() {
                return Err(ConsumerOptionError::DeliverGroupWithoutPush);
            }
            if options.push_deliver_subject.is_some() {
                return Err(ConsumerOptionError::DeliverSubjectWithoutPush);
            }
        } else {
            if options.pull_max_batch.is_some() {
                return Err(ConsumerOptionError::MaxBatchWithoutPull);
            }
        }
        Ok(options)
    }

    /// Resolve the options: how the consumer is kept (durable under
    /// `durable_name`, else under its own name when `durable` is set, else
    /// under the name of its type; not durable when neither `durable` nor
    /// `durable_name` is given), push or pull with the options of that
    /// kind, and whether it delivers headers only.
    pub fn into_parsed(self) -> (r: ParsedJetStreamConsumerConfig)
        requires
            self.resolvable(),
        ensures
            r == spec_parsed(self),
    {
        let durable = match (&self.consumer_name, self.is_durable, &self.durable_name) {
            (_, Some(true), Some(d)) => DurableSetting::Durable(d.clone()),
            (Some(n), Some(true), None) => DurableSetting::Durable(n.clone()),
            (None, Some(true), None) => DurableSetting::DurableDefaultName,
            (_, None, Some(d)) => DurableSetting::Durable(d.clone()),
            _ => DurableSetting::Ephemeral,
        };
        let consumer_type = match (self.is_push, self.push_deliver_subject) {
            (Some(true), Some(deliver_subject)) => ConsumerType::Push {
                deliver_subject,
                deliver_group: self.push_deliver_group,
            },
            _ => ConsumerType::Pull { max_batch: self.pull_max_batch },
        };
        let headers_only = match self.headers_only {
            Some(b) => b,
            None => false,
        };
        ParsedJetStreamConsumerConfig {
            consumer_name: self.consumer_name,
            durable,
            consumer_type,
            deliver_policy: self.deliver_policy,
            ack_policy: self.ack_policy,
            ack_wait_secs: self.ack_wait_secs,
            filter_subject: self.filter_subject,
            headers_only,
        }
    }
}

/// Every item the reading accepts sets a flag to `true` only.
pub proof fn lemma_items_set_flags_only(items: Seq<AttrMeta>)
    requires
        consumer_items(items) is Ok,
    ensures
        consumer_items(items)->Ok_0.flags_only_set(),
    decreases items.len(),
{
    if items.len() > 0 {
        lemma_items_set_flags_only(items.drop_last());
    }
}

/// An option list that is accepted can always be resolved.
pub proof fn lemma_accepted_options_resolve(items: Seq<AttrMeta>)
    requires
        spec_consumer_options(items) is Ok,
    ensures
        spec_consumer_options(items)->Ok_0.resolvable(),
{
    if items.len() > 0 {
        lemma_items_set_flags_only(items);
    }
}

/// An accepted option list describes one kind of consumer with its own
/// options only: a push consumer has its deliver subject and no batch
/// size; a pull consumer has neither deliver subject nor deliver group.
pub proof fn lemma_accepted_options_are_consistent(items: Seq<AttrMeta>)
    requires
        spec_consumer_options(items) is Ok,
    ensures
        ({
            let o = spec_consumer_options(items)->Ok_0;
            match spec_consumer_type(o) {
                ConsumerType::Push { .. } => o.push_deliver_subject is Some && o.pull_max_batch is None,
                ConsumerType::Pull { .. } => o.push_deliver_subject is None && o.push_deliver_group is None,
            }
        }),
{
    if items.len() > 0 {
        lemma_items_set_flags_only(items);
    }
}

/// How a consumer is kept: a durable name makes it durable under that name
/// unless `durable` is explicitly false; `durable` without a durable name
/// keeps it under its own name, or under its type's name when it has none;
/// with neither, it is not durable.
pub proof fn lemma_durable_naming(o: JetStreamConsumerOptions)
    requires
        o.resolvable(),
    ensures
        o.durable_name is Some && o.is_durable != Some(false) ==> spec_durable(o) == DurableSetting::Durable(
            o.durable_name->Some_0,
        ),
        o.durable_name is None && o.is_durable == Some(true) ==> spec_durable(o) == match o.consumer_name {
            Some(n) => DurableSetting::Durable(n),
            None => DurableSetting::DurableDefaultName,
        },
        o.durable_name is None && o.is_durable != Some(true) ==> spec_durable(o) == DurableSetting::Ephemeral,
{
}

/// An item that is not about `deliver_policy` leaves the deliver policy as
/// it was.
proof fn lemma_item_keeps_deliver_policy(o: JetStreamConsumerOptions, m: AttrMeta)
    requires
        consumer_item(o, m) is Ok,
        !names_key(m, "deliver_policy"@),
    ensures
        consumer_item(o, m)->Ok_0.deliver_policy == o.deliver_policy,
{
}

/// An accepted `deliver_policy = s` item sets the policy that the
/// lowercased `s` names.
proof fn lemma_item_sets_deliver_policy(o: JetStreamConsumerOptions, k: String, s: String)
    requires
        k@ == "deliver_policy"@,
        consumer_item(o, AttrMeta::NameValue(Some(k), Some(AttrLit::Str(s)))) is Ok,
    ensures
        deliver_policy_named(lowercase_of(s@)) is Some,
        consumer_item(o, AttrMeta::NameValue(Some(k), Some(AttrLit::Str(s))))->Ok_0.deliver_policy
            == deliver_policy_named(lowercase_of(s@))->Some_0,
{
    reveal_strlit("deliver_policy");
    reveal_strlit("name");
    reveal_strlit("durable_name");
    reveal_strlit("description");
    assert(k@.len() != "name"@.len());
    assert(k@.len() != "durable_name"@.len());
    assert(k@.len() != "description"@.len());
}

/// Read up to `n` items, the deliver policy is the one named by item `i`
/// when no later item is about `deliver_policy`.
proof fn lemma_prefix_deliver_policy(items: Seq<AttrMeta>, i: int, n: int, k: String, s: String)
    requires
        0 <= i < n <= items.len(),
        items[i] == AttrMeta::NameValue(Some(k), Some(AttrLit::Str(s))),
        k@ == "deliver_policy"@,
        forall|j: int| i < j < n ==> !names_key(#[trigger] items[j], "deliver_policy"@),
        consumer_items(items.subrange(0, n)) is Ok,
    ensures
        consumer_items(items.subrange(0, n))->Ok_0.deliver_policy == deliver_policy_named(lowercase_of(s@))->Some_0,
    decreases n,
{
    lemma_fold_step(JetStreamConsumerOptions::spec_default(), consumer_step(), items, n - 1);
    let before = consumer_items(items.subrange(0, n - 1));
    assert(before is Ok);
    if n - 1 == i {
        lemma_item_sets_deliver_policy(before->Ok_0, k, s);
    } else {
        lemma_prefix_deliver_policy(items, i, n - 1, k, s);
        lemma_item_keeps_deliver_policy(before->Ok_0, items[n - 1]);
    }
}

/// Read up to `n` items none of which is about `deliver_policy`, the
/// deliver policy is the default one.
proof fn lemma_prefix_default_deliver_policy(items: Seq<AttrMeta>, n: int)
    requires
        0 <= n <= items.len(),
        forall|j: int| 0 <= j < n ==> !names_key(#[trigger] items[j], "deliver_policy"@),
        consumer_items(items.subrange(0, n)) is Ok,
    ensures
        consumer_items(items.subrange(0, n))->Ok_0.deliver_policy == DeliverPolicy::All,
    decreases n,
{
    if n > 0 {
        lemma_fold_step(JetStreamConsumerOptions::spec_default(), consumer_step(), items, n - 1);
        let before = consumer_items(items.subrange(0, n - 1));
        assert(before is Ok);
        lemma_prefix_default_deliver_policy(items, n - 1);
        lemma_item_keeps_deliver_policy(before->Ok_0, items[n - 1]);
    } else {
        assert(items.subrange(0, 0) =~= Seq::<AttrMeta>::empty());
    }
}

/// Each deliver policy is chosen by its own name: when the last item of an
/// accepted option list that is about `deliver_policy` is
/// `deliver_policy = s`, the consumer starts from the first message,
/// the last message, the new messages or the last message of each subject
/// as `s`, lowercased, is `all`, `last`, `new` or `last_per_subject`.
/// Without such an item it starts from the first message.
pub proof fn lemma_deliver_policy_by_name(
    items: Seq<AttrMeta>,
    ident: Seq<char>,
    r: Result<JetStreamConsumerMeta, ConsumerOptionError>,
    i: int,
    k: String,
    s: String,
)
    requires
        spec_jetstream_consumer(items, ident, r),
        r is Ok,
        0 <= i < items.len(),
        items[i] == AttrMeta::NameValue(Some(k), Some(AttrLit::Str(s))),
        k@ == "deliver_policy"@,
        forall|j: int| i < j < items.len() ==> !names_key(#[trigger] items[j], "deliver_policy"@),
    ensures
        lowercase_of(s@) == "all"@ ==> r->Ok_0.config.deliver_policy == DeliverPolicy::All,
        lowercase_of(s@) == "last"@ ==> r->Ok_0.config.deliver_policy == DeliverPolicy::Last,
        lowercase_of(s@) == "new"@ ==> r->Ok_0.config.deliver_policy == DeliverPolicy::New,
        lowercase_of(s@) == "last_per_subject"@ ==> r->Ok_0.config.deliver_policy == DeliverPolicy::LastPerSubject,
{
    assert(items.subrange(0, items.len() as int) =~= items);
    lemma_prefix_deliver_policy(items, i, items.len() as int, k, s);
    reveal_strlit("all");
    reveal_strlit("last");
    reveal_strlit("new");
    reveal_strlit("last_per_subject");
    assert("last"@.len() != "all"@.len());
    assert("new"@[0] != "all"@[0]);
    assert("new"@.len() != "last"@.len());
    assert("last_per_subject"@.len() != "all"@.len());
    assert("last_per_subject"@.len() != "last"@.len());
    assert("last_per_subject"@.len() != "new"@.len());
}

/// An accepted option list with no item about `deliver_policy` gives a
/// consumer that starts from the first message.
pub proof fn lemma_default_deliver_policy(
    items: Seq<AttrMeta>,
    ident: Seq<char>,
    r: Result<JetStreamConsumerMeta, ConsumerOptionError>,
)
    requires
        spec_jetstream_consumer(items, ident, r),
        r is Ok,
        forall|j: int| 0 <= j < items.len() ==> !names_key(#[trigger] items[j], "deliver_policy"@),
    ensures
        r->Ok_0.config.deliver_policy == DeliverPolicy::All,
{
    if items.len() > 0 {
        assert(items.subrange(0, items.len() as int) =~= items);
        lemma_prefix_default_deliver_policy(items, items.len() as int);
    }
}

/// The lengths of the keys a consumer's option list can give a string to,
/// and the first letters of the two of equal length: the keys are
/// different words.
proof fn lemma_consumer_keys_differ()
    ensures
        "name"@.len() == 4,
        "durable_name"@.len() == 12,
        "description"@.len() == 11,
        "deliver_policy"@.len() == 14,
        "ack_policy"@.len() == 10,
        "filter_subject"@.len() == 14,
        "deliver_subject"@.len() == 15,
        "deliver_group"@.len() == 13,
        "deliver_policy"@[0] != "filter_subject"@[0],
{
    reveal_strlit("name");
    reveal_strlit("durable_name");
    reveal_strlit("description");
    reveal_strlit("deliver_policy");
    reveal_strlit("ack_policy");
    reveal_strlit("filter_subject");
    reveal_strlit("deliver_subject");
    reveal_strlit("deliver_group");
}

/// An item that is not about `ack_policy` leaves the ack policy as it was.
proof fn lemma_item_keeps_ack_policy(o: JetStreamConsumerOptions, m: AttrMeta)
    requires
        consumer_item(o, m) is Ok,
        !names_key(m, "ack_policy"@),
    ensures
        consumer_item(o, m)->Ok_0.ack_policy == o.ack_policy,
{
}

/// Read up to `n` items, the ack policy is the one named by item `i` when
/// it is `ack_policy = s` and no later item is about `ack_policy`.
proof fn lemma_prefix_ack_policy(items: Seq<AttrMeta>, i: int, n: int, k: String, s: String)
    requires
        0 <= i < n <= items.len(),
        items[i] == AttrMeta::NameValue(Some(k), Some(AttrLit::Str(s))),
        k@ == "ack_policy"@,
        forall|j: int| i < j < n ==> !names_key(#[trigger] items[j], "ack_policy"@),
        consumer_items(items.subrange(0, n)) is Ok,
    ensures
        consumer_items(items.subrange(0, n))->Ok_0.ack_policy == ack_policy_named(lowercase_of(s@))->Some_0,
    decreases n,
{
    lemma_fold_step(JetStreamConsumerOptions::spec_default(), consumer_step(), items, n - 1);
    let before = consumer_items(items.subrange(0, n - 1));
    assert(before is Ok);
    if n - 1 == i {
        lemma_consumer_keys_differ();
    } else {
        lemma_prefix_ack_policy(items, i, n - 1, k, s);
        lemma_item_keeps_ack_policy(before->Ok_0, items[n - 1]);
    }
}

/// Each ack policy is chosen by its own name: when the last item of an
/// accepted option list that is about `ack_policy` is `ack_policy = s`,
/// one acknowledgement covers all earlier messages, each message is
/// acknowledged on its own, or no message is acknowledged as `s`,
/// lowercased, is `all`, `explicit` or `none`.
pub proof fn lemma_ack_policy_by_name(
    items: Seq<AttrMeta>,
    ident: Seq<char>,
    r: Result<JetStreamConsumerMeta, ConsumerOptionError>,
    i: int,
    k: String,
    s: String,
)
    requires
        spec_jetstream_consumer(items, ident, r),
        r is Ok,
        0 <= i < items.len(),
        items[i] == AttrMeta::NameValue(Some(k), Some(AttrLit::Str(s))),
        k@ == "ack_policy"@,
        forall|j: int| i < j < items.len() ==> !names_key(#[trigger] items[j], "ack_policy"@),
    ensures
        lowercase_of(s@) == "all"@ ==> r->Ok_0.config.ack_policy == AckPolicy::All,
        lowercase_of(s@) == "explicit"@ ==> r->Ok_0.config.ack_policy == AckPolicy::Explicit,
        lowercase_of(s@) == "none"@ ==> r->Ok_0.config.ack_policy == AckPolicy::NoAck,
{
    assert(items.subrange(0, items.len() as int) =~= items);
    lemma_prefix_ack_policy(items, i, items.len() as int, k, s);
    reveal_strlit("all");
    reveal_strlit("explicit");
    reveal_strlit("none");
    assert("explicit"@.len() != "all"@.len());
    assert("none"@.len() != "all"@.len());
    assert("none"@.len() != "explicit"@.len());
}

/// The option of `o` that the string item `key = ..` sets, for the keys
/// that take any string; `None` for any other key.
pub open spec fn consumer_text_option(o: JetStreamConsumerOptions, key: Seq<char>) -> Option<String> {
    if key == "name"@ {
        o.consumer_name
    } else if key == "durable_name"@ {
        o.durable_name
    } else if key == "description"@ {
        o.description
    } else if key == "filter_subject"@ {
        o.filter_subject
    } else if key == "deliver_subject"@ {
        o.push_deliver_subject
    } else if key == "deliver_group"@ {
        o.push_deliver_group
    } else {
        None
    }
}

/// The keys that take any string.
pub open spec fn is_consumer_text_key(key: Seq<char>) -> bool {
    ||| key == "name"@
    ||| key == "durable_name"@
    ||| key == "description"@
    ||| key == "filter_subject"@
    ||| key == "deliver_subject"@
    ||| key == "deliver_group"@
}

/// Read up to `n` items, the option `k` is `s` when item `i` is `k = s`
/// and no later item is about `k`.
proof fn lemma_prefix_text_option(items: Seq<AttrMeta>, i: int, n: int, k: String, s: String)
    requires
        0 <= i < n <= items.len(),
        items[i] == AttrMeta::NameValue(Some(k), Some(AttrLit::Str(s))),
        is_consumer_text_key(k@),
        forall|j: int| i < j < n ==> !names_key(#[trigger] items[j], k@),
        consumer_items(items.subrange(0, n)) is Ok,
    ensures
        consumer_text_option(consumer_items(items.subrange(0, n))->Ok_0, k@) == Some(s),
    decreases n,
{
    lemma_consumer_keys_differ();
    lemma_fold_step(JetStreamConsumerOptions::spec_default(), consumer_step(), items, n - 1);
    assert(consumer_items(items.subrange(0, n - 1)) is Ok);
    if n - 1 != i {
        lemma_prefix_text_option(items, i, n - 1, k, s);
    }
}

/// An accepted option list keeps the strings it gives: when its last item
/// about `name`, `durable_name`, `description`, `filter_subject`,
/// `deliver_subject` or `deliver_group` is that key `= s`, the options read
/// have `s` for it; the consumer is named `s` by `name = s`, and filters on
/// `s` by `filter_subject = s`.
pub proof fn lemma_text_options_are_kept(
    items: Seq<AttrMeta>,
    ident: Seq<char>,
    r: Result<JetStreamConsumerMeta, ConsumerOptionError>,
    i: int,
    k: String,
    s: String,
)
    requires
        spec_jetstream_consumer(items, ident, r),
        r is Ok,
        0 <= i < items.len(),
        items[i] == AttrMeta::NameValue(Some(k), Some(AttrLit::Str(s))),
        is_consumer_text_key(k@),
        forall|j: int| i < j < items.len() ==> !names_key(#[trigger] items[j], k@),
    ensures
        consumer_text_option(spec_consumer_options(items)->Ok_0, k@) == Some(s),
        k@ == "name"@ ==> r->Ok_0.consumer_name@ == s@,
        k@ == "filter_subject"@ ==> r->Ok_0.config.filter_subject == Some(s),
{
    lemma_consumer_keys_differ();
    assert(items.subrange(0, items.len() as int) =~= items);
    lemma_prefix_text_option(items, i, items.len() as int, k, s);
}

impl ParsedJetStreamConsumerConfig {
    /// Name the consumer after the type `ident` it describes: its name, when
    /// it has none, and its durable name, when it is durable under the
    /// type's name, become the snake_case form of `ident`.
    pub fn with_ident(self, ident: &str) -> (r: Self)
        ensures
            match self.consumer_name {
                Some(n) => r.consumer_name == Some(n),
                None => r.consumer_name is Some && r.consumer_name->Some_0@ == snake_case_of(ident@),
            },
            match self.durable {
                DurableSetting::DurableDefaultName => r.durable is Durable && r.durable->Durable_0@
                    == snake_case_of(ident@),
                _ => r.durable == self.durable,
            },
            r.consumer_type == self.consumer_type,
            r.deliver_policy == self.deliver_policy,
            r.ack_policy == self.ack_policy,
            r.ack_wait_secs == self.ack_wait_secs,
            r.filter_subject == self.filter_subject,
            r.headers_only == self.headers_only,
    {
        let mut this = self;
        let ident_string = to_snake_case(ident);
        if this.consumer_name.is_none() {
            this.consumer_name = Some(ident_string.clone());
        }
        if let DurableSetting::DurableDefaultName = this.durable {
            this.durable = DurableSetting::Durable(ident_string);
        }
        this
    }

    /// The configuration the consumer is created with: push or pull with
    /// the options of that kind, the durable name when it is durable, and
    /// the policies, wait, filter and headers setting.
    pub fn gen_config(self) -> (r: JetStreamConsumerConfig)
        requires
            !(self.durable is DurableDefaultName),
        ensures
            r.consumer_type == self.consumer_type,
            r.durable_name == match self.durable {
                DurableSetting::Durable(n) => Some(n),
                _ => None,
            },
            r.deliver_policy == self.deliver_policy,
            r.ack_policy == self.ack_policy,
            r.ack_wait_secs == self.ack_wait_secs,
            r.filter_subject == self.filter_subject,
            r.headers_only == self.headers_only,
    {
        let durable_name = match self.durable {
            DurableSetting::Durable(n) => Some(n),
            _ => None,
        };
        JetStreamConsumerConfig {
            consumer_type: self.consumer_type,
            durable_name,
            deliver_policy: self.deliver_policy,
            ack_policy: self.ack_policy,
            ack_wait_secs: self.ack_wait_secs,
            filter_subject: self.filter_subject,
            headers_only: self.headers_only,
        }
    }

    /// The consumer as its type describes it: its name and configuration.
    pub fn implement(self) -> (r: JetStreamConsumerMeta)
        requires
            self.consumer_name is Some,
            !(self.durable is DurableDefaultName),
        ensures
            r.consumer_name == self.consumer_name->Some_0,
            r.config.consumer_type == self.consumer_type,
            r.config.durable_name == match self.durable {
                DurableSetting::Durable(n) => Some(n),
                _ => None,
            },
            r.config.deliver_policy == self.deliver_policy,
            r.config.ack_policy == self.ack_policy,
            r.config.ack_wait_secs == self.ack_wait_secs,
            r.config.filter_subject == self.filter_subject,
            r.config.headers_only == self.headers_only,
    {
        let consumer_name = match &self.consumer_name {
            Some(n) => n.clone(),
            None => String::new(),
        };
        let config = self.gen_config();
        JetStreamConsumerMeta { consumer_name, config }
    }
}

/// What the consumer described by `items` on the type named `ident` is:
/// refused exactly when the option list is; otherwise named, kept and
/// configured as the resolved options say.
pub open spec fn spec_jetstream_consumer(items: Seq<AttrMeta>, ident: Seq<char>, r: Result<JetStreamConsumerMeta, ConsumerOptionError>) -> bool {
    match spec_consumer_options(items) {
        Err(e) => r == Err::<JetStreamConsumerMeta, ConsumerOptionError>(e),
        Ok(o) => r is Ok && {
            let m = r->Ok_0;
            let p = spec_parsed(o);
            &&& m.consumer_name@ == match p.consumer_name {
                Some(n) => n@,
                None => snake_case_of(ident),
            }
            &&& match p.durable {
                DurableSetting::DurableDefaultName => m.config.durable_name is Some
                    && m.config.durable_name->Some_0@ == snake_case_of(ident),
                DurableSetting::Durable(n) => m.config.durable_name == Some(n),
                DurableSetting::Ephemeral => m.config.durable_name is None,
            }
            &&& m.config.consumer_type == p.consumer_type
            &&& m.config.deliver_policy == p.deliver_policy
            &&& m.config.ack_policy == p.ack_policy
            &&& m.config.ack_wait_secs == p.ack_wait_secs
            &&& m.config.filter_subject == p.filter_subject
            &&& m.config.headers_only == p.headers_only
        },
    }
}

/// The consumer that the option list `items` describes on the type
/// `ident`: the options are read and resolved, and what they leave unnamed
/// is named after the type. Refused exactly when the option list is.
pub fn jetstream_consumer(items: &[AttrMeta], ident: &str) -> (r: Result<
    JetStreamConsumerMeta,
    ConsumerOptionError,
>)
    ensures
        spec_jetstream_consumer(items@, ident@, r),
{
    let options = match JetStreamConsumerOptions::parse(items) {
        Ok(o) => o,
        Err(e) => return Err(e),
    };
    proof {
        lemma_accepted_options_resolve(items@);
    }
    let parsed = options.into_parsed();
    let named = parsed.with_ident(ident);
    Ok(named.implement())
}

impl ConsumerOptionError {
    /// How the error is written out.
    pub open spec fn spec_message(&self) -> Seq<char> {
        match self {
            ConsumerOptionError::ExpectedIdentifier => "expected identifier"@,
            ConsumerOptionError::ExpectedLiteral => "expected literal"@,
            ConsumerOptionError::InvalidDeliverPolicy => "expected one of: all, last, new, last_per_subject"@,
            ConsumerOptionError::InvalidAckPolicy => "expected one of: all, explicit, none"@,
            ConsumerOptionError::NumberTooLarge => "number too large to fit in target type"@,
            ConsumerOptionError::UnexpectedAttribute(name) => "unexpected attribute: `"@ + name@ + "`"@,
            ConsumerOptionError::ExpectedNameValueOrFlag => "expected name-value pair or flag"@,
            ConsumerOptionError::PushAndPull => "can't set both `push` and `pull`"@,
            ConsumerOptionError::MissingDeliverSubject => "expected `deliver_subject` attribute"@,
            ConsumerOptionError::DeliverGroupWithoutPush => "`deliver_group` can't be set when `push` is not set"@,
            ConsumerOptionError::DeliverSubjectWithoutPush => "`deliver_subject` can't be set when `push` is not set"@,
            ConsumerOptionError::MaxBatchWithoutPull => "`max_batch` can't be set when `pull` is not set"@,
        }
    }

    /// How the error is written out.
    pub fn message(&self) -> (r: String)
        ensures
            r@ == self.spec_message(),
    {
        match self {
            ConsumerOptionError::ExpectedIdentifier => "expected identifier".to_owned(),
            ConsumerOptionError::ExpectedLiteral => "expected literal".to_owned(),
            ConsumerOptionError::InvalidDeliverPolicy => "expected one of: all, last, new, last_per_subject".to_owned(),
            ConsumerOptionError::InvalidAckPolicy => "expected one of: all, explicit, none".to_owned(),
            ConsumerOptionError::NumberTooLarge => "number too large to fit in target type".to_owned(),
            ConsumerOptionError::UnexpectedAttribute(name) => enclosed("unexpected attribute: `", name.as_str(), "`"),
            ConsumerOptionError::ExpectedNameValueOrFlag => "expected name-value pair or flag".to_owned(),
            ConsumerOptionError::PushAndPull => "can't set both `push` and `pull`".to_owned(),
            ConsumerOptionError::MissingDeliverSubject => "expected `deliver_subject` attribute".to_owned(),
            ConsumerOptionError::DeliverGroupWithoutPush => "`deliver_group` can't be set when `push` is not set".to_owned(),
            ConsumerOptionError::DeliverSubjectWithoutPush => "`deliver_subject` can't be set when `push` is not set".to_owned(),
            ConsumerOptionError::MaxBatchWithoutPull => "`max_batch` can't be set when `pull` is not set".to_owned(),
        }
    }
}

} // verus!
