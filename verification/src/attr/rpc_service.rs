//! Options of an RPC service: `name = "..", version = "..", ..`.

use crate::attr::{fold_items, key_is, lemma_fold_error_persists, lemma_fold_step, names_key, AttrLit, AttrMeta};
use vstd::prelude::*;

verus! {

/// The options of a service as the option list gave them.
#[derive(Debug, Clone)]
pub struct RpcOptions {
    pub name: Option<String>,
    pub description: Option<String>,
    pub version: Option<String>,
    pub queue_group: Option<String>,
}

/// Why an option list of a service was refused.
#[derive(Debug, Clone, PartialEq, Eq)]
pub enum RpcOptionError {
    /// "Expected at least one attribute".
    NoAttribute,
    /// "expected identifier": an item's path is not one identifier.
    ExpectedIdentifier,
    /// "expected literal": a value is not a literal.
    ExpectedLiteral,
    /// "expected name-value pair or flag": an unknown name, a literal that
    /// is not a string, a flag or a list.
    ExpectedNameValueOrFlag,
    /// "Expected `name` attribute".
    MissingName,
}

/// A service's options once checked: its name is known.
#[derive(Debug, Clone)]
pub struct ParsedRpcOptions {
    pub service_name: String,
    pub service_description: Option<String>,
    pub service_version: Option<String>,
    pub queue_group: Option<String>,
}

/// What a service states of itself: its name, version, description and
/// queue group.
#[derive(Debug, Clone)]
pub struct RpcServiceMeta {
    pub service_name: String,
    pub service_version: String,
    pub service_description: Option<String>,
    pub queue_group: Option<String>,
}

/// The configuration a service is added with: its name and version, and
/// its description and queue group when given, every other field keeping
/// the client's default.
#[derive(Debug, Clone)]
pub struct RpcServiceConfig {
    pub name: String,
    pub version: String,
    pub description: Option<String>,
    pub queue_group: Option<String>,
}

/// The options after one item.
pub open spec fn rpc_item(o: RpcOptions, m: AttrMeta) -> Result<RpcOptions, RpcOptionError> {
    match m {
        AttrMeta::NameValue(None, _) => Err(RpcOptionError::ExpectedIdentifier),
        AttrMeta::NameValue(Some(_), None) => Err(RpcOptionError::ExpectedLiteral),
        AttrMeta::NameValue(Some(k), Some(AttrLit::Str(s))) => if k@ == "name"@ {
            Ok(RpcOptions { name: Some(s), ..o })
        } else if k@ == "description"@ {
            Ok(RpcOptions { description: Some(s), ..o })
        } else if k@ == "version"@ {
            Ok(RpcOptions { version: Some(s), ..o })
        } else if k@ == "queue_group"@ {
            Ok(RpcOptions { queue_group: Some(s), ..o })
        } else {
            Err(RpcOptionError::ExpectedNameValueOrFlag)
        },
        _ => Err(RpcOptionError::ExpectedNameValueOrFlag),
    }
}

/// Reading one item of a service's option list.
pub open spec fn rpc_step() -> spec_fn(RpcOptions, AttrMeta) -> Result<RpcOptions, RpcOptionError> {
    |o: RpcOptions, m: AttrMeta| rpc_item(o, m)
}

/// No option set.
pub open spec fn rpc_options_empty() -> RpcOptions {
    RpcOptions { name: None, description: None, version: None, queue_group: None }
}

/// What an option list of a service gives: it must not be empty, each item
/// is read in turn (later ones overriding earlier ones), and `name` is
/// required.
pub open spec fn spec_rpc_options(items: Seq<AttrMeta>) -> Result<RpcOptions, RpcOptionError> {
    if items.len() == 0 {
        Err(RpcOptionError::NoAttribute)
    } else {
        match fold_items(rpc_options_empty(), rpc_step(), items) {
            Err(e) => Err(e),
            Ok(o) => if o.name is None {
                Err(RpcOptionError::MissingName)
            } else {
                Ok(o)
            },
        }
    }
}

/// The version a service states when none was given.
pub open spec fn default_version() -> Seq<char> {
    "0.1.0"@
}

impl RpcOptions {
    /// Read one item.
    fn apply_item(self, m: &AttrMeta) -> (r: Result<Self, RpcOptionError>)
        ensures
            r == rpc_item(self, *m),
    {
        let mut o = self;
        match m {
            AttrMeta::NameValue(None, _) => Err(RpcOptionError::ExpectedIdentifier),
            AttrMeta::NameValue(Some(_), None) => Err(RpcOptionError::ExpectedLiteral),
            AttrMeta::NameValue(Some(k), Some(AttrLit::Str(s))) => {
                if key_is(k, "name") {
                    o.name = Some(s.clone());
                } else if key_is(k, "description") {
                    o.description = Some(s.clone());
                } else if key_is(k, "version") {
                    o.version = Some(s.clone());
                } else if key_is(k, "queue_group") {
                    o.queue_group = Some(s.clone());
                } else {
                    return Err(RpcOptionError::ExpectedNameValueOrFlag);
                }
                Ok(o)
            },
            _ => Err(RpcOptionError::ExpectedNameValueOrFlag),
        }
    }

    /// Read an option list of a service: it must not be empty, each item is
    /// `name`, `description`, `version` or `queue_group` with a string, and
    /// `name` is required.
    pub fn parse(items: &[AttrMeta]) -> (r: Result<Self, RpcOptionError>)
        ensures
            r == spec_rpc_options(items@),
    {
        if items.len() == 0 {
            return Err(RpcOptionError::NoAttribute);
        }
        let mut options = RpcOptions { name: None, description: None, version: None, queue_group: None };
        let mut i: usize = 0;
        while i < items.len()
            invariant
                i <= items@.len(),
                fold_items(rpc_options_empty(), rpc_step(), items@.subrange(0, i as int))
                    == Ok::<RpcOptions, RpcOptionError>(options),
            decreases items@.len() - i,
        {
            proof {
                lemma_fold_step(rpc_options_empty(), rpc_step(), items@, i as int);
            }
            match options.apply_item(&items[i]) {
                Ok(o) => options = o,
                Err(e) => {
                    proof {
                        lemma_fold_error_persists(rpc_options_empty(), rpc_step(), items@, i + 1);
                    }
                    return Err(e);
                },
            }
            i = i + 1;
        }
        proof {
            assert(items@.subrange(0, items@.len() as int) =~= items@);
        }
        if options.name.is_none() {
            return Err(RpcOptionError::MissingName);
        }
        Ok(options)
    }

    /// The checked options: the service is named by `name`.
    pub fn into_parsed(self) -> (r: ParsedRpcOptions)
        requires
            self.name is Some,
        ensures
            r.service_name == self.name->Some_0,
            r.service_description == self.description,
            r.service_version == self.version,
            r.queue_group == self.queue_group,
    {
        let service_name = match self.name {
            Some(n) => n,
            None => String::new(),
        };
        ParsedRpcOptions {
            service_name,
            service_description: self.description,
            service_version: self.version,
            queue_group: self.queue_group,
        }
    }
}

/// A copy of an optional text.
fn clone_text(t: &Option<String>) -> (r: Option<String>)
    ensures
        r == *t,
{
    match t {
        Some(s) => Some(s.clone()),
        None => None,
    }
}

/// The version given, or the default one.
fn version_or_default(version: Option<String>) -> (r: String)
    ensures
        match version {
            Some(v) => r == v,
            None => r@ == default_version(),
        },
{
    match version {
        Some(v) => v,
        None => "0.1.0".to_owned(),
    }
}

impl ParsedRpcOptions {
    /// What the service states of itself; its version is `0.1.0` when none
    /// was given.
    pub fn impl_nats_service_meta_trait(self) -> (r: RpcServiceMeta)
        ensures
            r.service_name == self.service_name,
            match self.service_version {
                Some(v) => r.service_version == v,
                None => r.service_version@ == default_version(),
            },
            r.service_description == self.service_description,
            r.queue_group == self.queue_group,
    {
        RpcServiceMeta {
            service_name: self.service_name,
            service_version: version_or_default(self.service_version),
            service_description: self.service_description,
            queue_group: self.queue_group,
        }
    }

    /// The configuration the service is added with; its version is `0.1.0`
    /// when none was given.
    pub fn to_config_tokens(self) -> (r: RpcServiceConfig)
        ensures
            r.name == self.service_name,
            match self.service_version {
                Some(v) => r.version == v,
                None => r.version@ == default_version(),
            },
            r.description == self.service_description,
            r.queue_group == self.queue_group,
    {
        RpcServiceConfig {
            name: self.service_name,
            version: version_or_default(self.service_version),
            description: self.service_description,
            queue_group: self.queue_group,
        }
    }
}

/// What the service described by `items` is: refused exactly when the
/// option list is; otherwise what it states of itself and its
/// configuration.
pub open spec fn spec_rpc_service(items: Seq<AttrMeta>, r: Result<(RpcServiceMeta, RpcServiceConfig), RpcOptionError>) -> bool {
    match spec_rpc_options(items) {
        Err(e) => r == Err::<(RpcServiceMeta, RpcServiceConfig), RpcOptionError>(e),
        Ok(o) => r is Ok && {
            let (meta, config) = r->Ok_0;
            &&& meta.service_name == o.name->Some_0
            &&& config.name == o.name->Some_0
            &&& match o.version {
                Some(v) => meta.service_version == v && config.version == v,
                None => meta.service_version@ == default_version() && config.version@ == default_version(),
            }
            &&& meta.service_description == o.description
            &&& config.description == o.description
            &&& meta.queue_group == o.queue_group
            &&& config.queue_group == o.queue_group
        },
    }
}

/// The service that the option list `items` describes: what it states of
/// itself and the configuration it is added with, which agree. Refused
/// exactly when the option list is.
pub fn rpc_service_impl(items: &[AttrMeta]) -> (r: Result<(RpcServiceMeta, RpcServiceConfig), RpcOptionError>)
    ensures
        spec_rpc_service(items@, r),
{
    let options = match RpcOptions::parse(items) {
        Ok(o) => o,
        Err(e) => return Err(e),
    };
    let parsed = options.into_parsed();
    let copy = ParsedRpcOptions {
        service_name: parsed.service_name.clone(),
        service_description: clone_text(&parsed.service_description),
        service_version: clone_text(&parsed.service_version),
        queue_group: clone_text(&parsed.queue_group),
    };
    let meta = copy.impl_nats_service_meta_trait();
    let config = parsed.to_config_tokens();
    Ok((meta, config))
}

/// The option of `o` that the key `key` sets; `None` for any other key.
pub open spec fn rpc_option(o: RpcOptions, key: Seq<char>) -> Option<String> {
    if key == "name"@ {
        o.name
    } else if key == "description"@ {
        o.description
    } else if key == "version"@ {
        o.version
    } else if key == "queue_group"@ {
        o.queue_group
    } else {
        None
    }
}

/// The keys of a service's options.
pub open spec fn is_rpc_key(key: Seq<char>) -> bool {
    key == "name"@ || key == "description"@ || key == "version"@ || key == "queue_group"@
}

/// The four keys are four different words.
proof fn lemma_rpc_keys_differ()
    ensures
        "name"@ != "description"@,
        "name"@ != "version"@,
        "name"@ != "queue_group"@,
        "description"@ != "version"@,
        "description"@ != "queue_group"@,
        "version"@ != "queue_group"@,
{
    reveal_strlit("name");
    reveal_strlit("description");
    reveal_strlit("version");
    reveal_strlit("queue_group");
    assert("name"@.len() != "description"@.len());
    assert("name"@.len() != "version"@.len());
    assert("name"@.len() != "queue_group"@.len());
    assert("description"@.len() != "version"@.len());
    assert("description"@[0] != "queue_group"@[0]);
    assert("version"@.len() != "queue_group"@.len());
}

/// Read up to `n` items, the option `k` is `s` when item `i` is `k = s`
/// and no later item is about `k`.
proof fn lemma_prefix_option(items: Seq<AttrMeta>, i: int, n: int, k: String, s: String)
    requires
        0 <= i < n <= items.len(),
        items[i] == AttrMeta::NameValue(Some(k), Some(AttrLit::Str(s))),
        is_rpc_key(k@),
        forall|j: int| i < j < n ==> !names_key(#[trigger] items[j], k@),
        fold_items(rpc_options_empty(), rpc_step(), items.subrange(0, n)) is Ok,
    ensures
        rpc_option(fold_items(rpc_options_empty(), rpc_step(), items.subrange(0, n))->Ok_0, k@) == Some(s),
    decreases n,
{
    lemma_rpc_keys_differ();
    lemma_fold_step(rpc_options_empty(), rpc_step(), items, n - 1);
    assert(fold_items(rpc_options_empty(), rpc_step(), items.subrange(0, n - 1)) is Ok);
    if n - 1 != i {
        lemma_prefix_option(items, i, n - 1, k, s);
    }
}

/// Read up to `n` items none of which is about `version`, no version is
/// set.
proof fn lemma_prefix_no_version(items: Seq<AttrMeta>, n: int)
    requires
        0 <= n <= items.len(),
        forall|j: int| 0 <= j < n ==> !names_key(#[trigger] items[j], "version"@),
        fold_items(rpc_options_empty(), rpc_step(), items.subrange(0, n)) is Ok,
    ensures
        fold_items(rpc_options_empty(), rpc_step(), items.subrange(0, n))->Ok_0.version is None,
    decreases n,
{
    if n > 0 {
        lemma_fold_step(rpc_options_empty(), rpc_step(), items, n - 1);
        assert(fold_items(rpc_options_empty(), rpc_step(), items.subrange(0, n - 1)) is Ok);
        lemma_prefix_no_version(items, n - 1);
    } else {
        assert(items.subrange(0, 0) =~= Seq::<AttrMeta>::empty());
    }
}

/// A service states the options it was given: when the last item of an
/// accepted option list that is about `name`, `description`, `version` or
/// `queue_group` is that key `= s`, what the service states of itself and
/// its configuration both have `s` for that option.
pub proof fn lemma_given_options_are_kept(
    items: Seq<AttrMeta>,
    r: Result<(RpcServiceMeta, RpcServiceConfig), RpcOptionError>,
    i: int,
    k: String,
    s: String,
)
    requires
        spec_rpc_service(items, r),
        r is Ok,
        0 <= i < items.len(),
        items[i] == AttrMeta::NameValue(Some(k), Some(AttrLit::Str(s))),
        is_rpc_key(k@),
        forall|j: int| i < j < items.len() ==> !names_key(#[trigger] items[j], k@),
    ensures
        k@ == "name"@ ==> r->Ok_0.0.service_name == s && r->Ok_0.1.name == s,
        k@ == "description"@ ==> r->Ok_0.0.service_description == Some(s) && r->Ok_0.1.description == Some(s),
        k@ == "version"@ ==> r->Ok_0.0.service_version == s && r->Ok_0.1.version == s,
        k@ == "queue_group"@ ==> r->Ok_0.0.queue_group == Some(s) && r->Ok_0.1.queue_group == Some(s),
{
    lemma_rpc_keys_differ();
    assert(items.subrange(0, items.len() as int) =~= items);
    lemma_prefix_option(items, i, items.len() as int, k, s);
}

/// A service states the version it was given: when the last item of an
/// accepted option list that is about `version` is `version = s`, both what
/// the service states of itself and its configuration have version `s`.
/// Only when no item is about `version` do both have the default `0.1.0`.
pub proof fn lemma_given_version_is_kept(
    items: Seq<AttrMeta>,
    r: Result<(RpcServiceMeta, RpcServiceConfig), RpcOptionError>,
    i: int,
    k: String,
    s: String,
)
    requires
        spec_rpc_service(items, r),
        r is Ok,
        0 <= i < items.len(),
        items[i] == AttrMeta::NameValue(Some(k), Some(AttrLit::Str(s))),
        k@ == "version"@,
        forall|j: int| i < j < items.len() ==> !names_key(#[trigger] items[j], "version"@),
    ensures
        r->Ok_0.0.service_version == s,
        r->Ok_0.1.version == s,
{
    reveal_strlit("version");
    lemma_given_options_are_kept(items, r, i, k, s);
}

/// An accepted option list with no item about `version` gives a service
/// whose stated and configured versions are both `0.1.0`.
pub proof fn lemma_default_version(items: Seq<AttrMeta>, r: Result<(RpcServiceMeta, RpcServiceConfig), RpcOptionError>)
    requires
        spec_rpc_service(items, r),
        r is Ok,
        forall|j: int| 0 <= j < items.len() ==> !names_key(#[trigger] items[j], "version"@),
    ensures
        r->Ok_0.0.service_version@ == "0.1.0"@,
        r->Ok_0.1.version@ == "0.1.0"@,
{
    assert(items.subrange(0, items.len() as int) =~= items);
    lemma_prefix_no_version(items, items.len() as int);
}

impl RpcOptionError {
    /// How the error is written out.
    pub open spec fn spec_message(&self) -> Seq<char> {
        match self {
            RpcOptionError::NoAttribute => "Expected at least one attribute"@,
            RpcOptionError::ExpectedIdentifier => "expected identifier"@,
            RpcOptionError::ExpectedLiteral => "expected literal"@,
            RpcOptionError::ExpectedNameValueOrFlag => "expected name-value pair or flag"@,
            RpcOptionError::MissingName => "Expected `name` attribute"@,
        }
    }

    /// How the error is written out.
    pub fn message(&self) -> (r: String)
        ensures
            r@ == self.spec_message(),
    {
        match self {
            RpcOptionError::NoAttribute => "Expected at least one attribute".to_owned(),
            RpcOptionError::ExpectedIdentifier => "expected identifier".to_owned(),
            RpcOptionError::ExpectedLiteral => "expected literal".to_owned(),
            RpcOptionError::ExpectedNameValueOrFlag => "expected name-value pair or flag".to_owned(),
            RpcOptionError::MissingName => "Expected `name` attribute".to_owned(),
        }
    }
}

} // verus!
