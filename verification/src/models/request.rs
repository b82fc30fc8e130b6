use vstd::prelude::*;
use crate::text::{owned, starts_with, str_eq, str_starts_with};

verus! {

/// The cloud providers that can be scanned.
#[derive(Clone, Copy, Debug, PartialEq, Eq, Structural)]
pub enum CloudProvider {
    Aws,
    Azure,
}

/// The lowercase name of a provider.
pub open spec fn provider_name_spec(p: CloudProvider) -> Seq<char> {
    match p {
        CloudProvider::Aws => "aws"@,
        CloudProvider::Azure => "azure"@,
    }
}

impl CloudProvider {
    /// The provider's lowercase name: `aws` or `azure`.
    pub fn to_string(&self) -> (r: String)
        ensures
            r@ == provider_name_spec(*self),
    {
        match self {
            CloudProvider::Aws => owned("aws"),
            CloudProvider::Azure => owned("azure"),
        }
    }
}

/// Settings that only one provider reads.
#[derive(Debug)]
pub enum ProviderConfig {
    Aws(AwsProviderConfig),
    Azure(AzureProviderConfig),
}

/// Settings of an AWS scan.
#[derive(Debug)]
pub struct AwsProviderConfig {
    pub account_id: Option<String>,
    pub profile: Option<String>,
    pub assume_role_arn: Option<String>,
    pub assume_role_session_name: Option<String>,
}

/// Settings of an Azure scan.
#[derive(Debug)]
pub struct AzureProviderConfig {
    pub subscription_id: Option<String>,
    pub tenant_id: Option<String>,
    pub auth_method: Option<String>,
    pub service_principal_config: Option<Vec<(String, String)>>,
    pub scope_type: Option<String>,
    pub scope_value: Option<String>,
}

/// What a scan is asked to do. The two maps of the request are held as
/// lists of entries, looked up by the first entry with the key.
#[derive(Debug)]
pub struct ScanConfig {
    pub provider: String,
    pub account_id: Option<String>,
    pub profile: Option<String>,
    pub assume_role_arn: Option<String>,
    pub assume_role_session_name: Option<String>,
    pub subscription_id: Option<String>,
    pub tenant_id: Option<String>,
    pub auth_method: Option<String>,
    pub service_principal_config: Option<Vec<(String, String)>>,
    pub scope_type: Option<String>,
    pub scope_value: Option<String>,
    pub scan_targets: Vec<(String, bool)>,
    pub filters: Vec<(String, String)>,
    pub include_tags: bool,
}

/// The value of the first entry with key `k`.
pub open spec fn lookup<V>(entries: Seq<(String, V)>, k: Seq<char>) -> Option<V>
    decreases entries.len(),
{
    if entries.len() == 0 {
        None
    } else if entries[0].0@ == k {
        Some(entries[0].1)
    } else {
        lookup(entries.drop_first(), k)
    }
}

/// The provider named by a request's `provider` text.
pub open spec fn cloud_provider_spec(name: Seq<char>) -> Option<CloudProvider> {
    if name == "aws"@ {
        Some(CloudProvider::Aws)
    } else if name == "azure"@ {
        Some(CloudProvider::Azure)
    } else {
        None
    }
}

/// A copy of an optional string.
pub fn clone_opt(o: &Option<String>) -> (r: Option<String>)
    ensures
        r == *o,
{
    match o {
        Some(s) => Some(s.clone()),
        None => None,
    }
}

/// A copy of a list of text pairs.
pub fn clone_pairs(v: &Vec<(String, String)>) -> (r: Vec<(String, String)>)
    ensures
        r@ == v@,
{
    let mut out: Vec<(String, String)> = Vec::new();
    let mut i: usize = 0;
    while i < v.len()
        invariant
            i <= v.len(),
            out@ == v@.take(i as int),
        decreases v.len() - i,
    {
        let a = v[i].0.clone();
        let b = v[i].1.clone();
        out.push((a, b));
        assert(out@ =~= v@.take(i + 1));
        i = i + 1;
    }
    assert(v@.take(v.len() as int) =~= v@);
    out
}

/// A copy of an optional list of text pairs.
pub fn clone_opt_pairs(o: &Option<Vec<(String, String)>>) -> (r: Option<Vec<(String, String)>>)
    ensures
        match (r, *o) {
            (Some(a), Some(b)) => a@ == b@,
            (None, None) => true,
            _ => false,
        },
{
    match o {
        Some(v) => Some(clone_pairs(v)),
        None => None,
    }
}

impl ScanConfig {
    /// The provider named by `provider`: `aws`, `azure`, or none for any
    /// other text.
    pub fn cloud_provider(&self) -> (r: Option<CloudProvider>)
        ensures
            r == cloud_provider_spec(self.provider@),
    {
        if str_eq(self.provider.as_str(), "aws") {
            Some(CloudProvider::Aws)
        } else if str_eq(self.provider.as_str(), "azure") {
            Some(CloudProvider::Azure)
        } else {
            None
        }
    }

    /// The settings of the named provider, copied out of the request; none
    /// when the provider is neither `aws` nor `azure`.
    pub fn provider_config(&self) -> (r: Option<ProviderConfig>)
        ensures
            match r {
                Some(ProviderConfig::Aws(a)) => {
                    &&& self.provider@ == "aws"@
                    &&& a.account_id == self.account_id
                    &&& a.profile == self.profile
                    &&& a.assume_role_arn == self.assume_role_arn
                    &&& a.assume_role_session_name == self.assume_role_session_name
                },
                Some(ProviderConfig::Azure(z)) => {
                    &&& self.provider@ == "azure"@
                    &&& z.subscription_id == self.subscription_id
                    &&& z.tenant_id == self.tenant_id
                    &&& z.auth_method == self.auth_method
                    &&& z.scope_type == self.scope_type
                    &&& z.scope_value == self.scope_value
                    &&& match (z.service_principal_config, self.service_principal_config) {
                        (Some(a), Some(b)) => a@ == b@,
                        (None, None) => true,
                        _ => false,
                    }
                },
                None => self.provider@ != "aws"@ && self.provider@ != "azure"@,
            },
    {
        if str_eq(self.provider.as_str(), "aws") {
            Some(
                ProviderConfig::Aws(
                    AwsProviderConfig {
                        account_id: clone_opt(&self.account_id),
                        profile: clone_opt(&self.profile),
                        assume_role_arn: clone_opt(&self.assume_role_arn),
                        assume_role_session_name: clone_opt(&self.assume_role_session_name),
                    },
                ),
            )
        } else if str_eq(self.provider.as_str(), "azure") {
            Some(
                ProviderConfig::Azure(
                    AzureProviderConfig {
                        subscription_id: clone_opt(&self.subscription_id),
                        tenant_id: clone_opt(&self.tenant_id),
                        auth_method: clone_opt(&self.auth_method),
                        service_principal_config: clone_opt_pairs(&self.service_principal_config),
                        scope_type: clone_opt(&self.scope_type),
                        scope_value: clone_opt(&self.scope_value),
                    },
                ),
            )
        } else {
            None
        }
    }

    /// Whether the provider is `aws`.
    pub fn is_aws(&self) -> (r: bool)
        ensures
            r == (self.provider@ == "aws"@),
    {
        str_eq(self.provider.as_str(), "aws")
    }

    /// Whether the provider is `azure`.
    pub fn is_azure(&self) -> (r: bool)
        ensures
            r == (self.provider@ == "azure"@),
    {
        str_eq(self.provider.as_str(), "azure")
    }
}

/// A provider name maps to a provider exactly when `is_aws` or `is_azure`
/// holds of it, and then to the matching one.
pub proof fn law_provider_name_agrees(name: Seq<char>)
    ensures
        cloud_provider_spec(name) == Some(CloudProvider::Aws) <==> name == "aws"@,
        cloud_provider_spec(name) == Some(CloudProvider::Azure) <==> name == "azure"@,
        cloud_provider_spec(name) is None <==> (name != "aws"@ && name != "azure"@),
{
    assert("aws"@ != "azure"@) by {
        reveal_strlit("aws");
        reveal_strlit("azure");
        assert("aws"@.len() != "azure"@.len());
    }
}

/// The name a provider prints is the name that selects it.
pub proof fn law_provider_name_roundtrip(p: CloudProvider)
    ensures
        cloud_provider_spec(provider_name_spec(p)) == Some(p),
{
    assert("aws"@ != "azure"@) by {
        reveal_strlit("aws");
        reveal_strlit("azure");
        assert("aws"@.len() != "azure"@.len());
    }
}

/// How generated code is laid out and named.
#[derive(Debug)]
pub struct GenerationConfig {
    pub output_path: String,
    pub file_split_rule: String,
    pub naming_convention: String,
    pub import_script_format: String,
    pub generate_readme: bool,
    pub selected_resources: Vec<(String, Vec<crate::json::Json>)>,
}

/// The file split rule when the request names none: `single`.
pub fn default_file_split_rule() -> (r: String)
    ensures
        r@ == "single"@,
{
    owned("single")
}

/// The naming convention when the request names none: `snake_case`.
pub fn default_naming_convention() -> (r: String)
    ensures
        r@ == "snake_case"@,
{
    owned("snake_case")
}

/// The import script format when the request names none: `sh`.
pub fn default_import_script_format() -> (r: String)
    ensures
        r@ == "sh"@,
{
    owned("sh")
}

/// A flag that is on unless the request turns it off.
pub fn default_true() -> (r: bool)
    ensures
        r,
{
    true
}

/// The text under the first entry with key `k`.
pub fn lookup_text<'a>(entries: &'a Vec<(String, String)>, k: &str) -> (r: Option<&'a String>)
    ensures
        match r {
            Some(v) => lookup(entries@, k@) == Some(*v),
            None => lookup(entries@, k@) is None,
        },
{
    let mut i: usize = 0;
    assert(entries@.skip(0) =~= entries@);
    while i < entries.len()
        invariant
            i <= entries.len(),
            lookup(entries@, k@) == lookup(entries@.skip(i as int), k@),
        decreases entries.len() - i,
    {
        assert(entries@.skip(i as int)[0] == entries@[i as int]);
        if str_eq(entries[i].0.as_str(), k) {
            return Some(&entries[i].1);
        }
        assert(entries@.skip(i as int).drop_first() =~= entries@.skip(i + 1));
        i = i + 1;
    }
    None
}

/// The flag under the first entry with key `k`.
pub fn lookup_flag(entries: &Vec<(String, bool)>, k: &str) -> (r: Option<bool>)
    ensures
        r == lookup(entries@, k@),
{
    let mut i: usize = 0;
    assert(entries@.skip(0) =~= entries@);
    while i < entries.len()
        invariant
            i <= entries.len(),
            lookup(entries@, k@) == lookup(entries@.skip(i as int), k@),
        decreases entries.len() - i,
    {
        assert(entries@.skip(i as int)[0] == entries@[i as int]);
        if str_eq(entries[i].0.as_str(), k) {
            return Some(entries[i].1);
        }
        assert(entries@.skip(i as int).drop_first() =~= entries@.skip(i + 1));
        i = i + 1;
    }
    None
}

/// Whether a scan target is switched on: its flag, off when it is missing.
pub open spec fn target_on(targets: Seq<(String, bool)>, k: Seq<char>) -> bool {
    match lookup(targets, k) {
        Some(b) => b,
        None => false,
    }
}

/// Whether a name passes the `name_prefix` filter: it starts with the
/// prefix, or there is no such filter.
pub open spec fn name_prefix_ok(filters: Seq<(String, String)>, name: Seq<char>) -> bool {
    match lookup(filters, "name_prefix"@) {
        Some(p) => starts_with(name, p@),
        None => true,
    }
}

impl ScanConfig {
    /// Whether the named scan target is switched on.
    pub fn target_enabled(&self, k: &str) -> (r: bool)
        ensures
            r == target_on(self.scan_targets@, k@),
    {
        match lookup_flag(&self.scan_targets, k) {
            Some(b) => b,
            None => false,
        }
    }

    /// Whether a name passes the `name_prefix` filter.
    pub fn name_passes(&self, name: &str) -> (r: bool)
        ensures
            r == name_prefix_ok(self.filters@, name@),
    {
        match lookup_text(&self.filters, "name_prefix") {
            Some(p) => str_starts_with(name, p.as_str()),
            None => true,
        }
    }
}

/// The `name_prefix` filter keeps exactly the names that begin with the
/// prefix: a name passes when it is the prefix followed by any rest, and only
/// then (a name that holds the prefix elsewhere does not pass); with no such
/// filter every name passes.
pub proof fn law_name_prefix_keeps_prefixed(filters: Seq<(String, String)>, name: Seq<char>)
    ensures
        lookup(filters, "name_prefix"@) is None ==> name_prefix_ok(filters, name),
        lookup(filters, "name_prefix"@) matches Some(p) ==> (name_prefix_ok(filters, name) <==> (
        p@.len() <= name.len() && forall|i: int| 0 <= i < p@.len() ==> name[i] == p@[i])),
        lookup(filters, "name_prefix"@) matches Some(p) ==> (name_prefix_ok(filters, name) <==> (
        exists|rest: Seq<char>| name == p@ + rest)),
{
    if let Some(p) = lookup(filters, "name_prefix"@) {
        let pre = p@;
        if name_prefix_ok(filters, name) {
            let rest = name.skip(pre.len() as int);
            assert(name == pre + rest) by {
                assert(name.take(pre.len() as int) == pre);
                assert(name =~= name.take(pre.len() as int) + rest);
            }
        }
        if exists|rest: Seq<char>| name == pre + rest {
            let rest = choose|rest: Seq<char>| name == pre + rest;
            assert(name.take(pre.len() as int) =~= pre);
        }
        if pre.len() <= name.len() && forall|i: int| 0 <= i < pre.len() ==> name[i] == pre[i] {
            assert(name.take(pre.len() as int) =~= pre);
        }
    }
}

/// How many scan targets are switched on.
pub open spec fn count_on(targets: Seq<(String, bool)>) -> nat
    decreases targets.len(),
{
    if targets.len() == 0 {
        0
    } else {
        count_on(targets.drop_last()) + if targets.last().1 {
            1nat
        } else {
            0nat
        }
    }
}

/// How many scan targets are switched on.
pub fn count_enabled(targets: &Vec<(String, bool)>) -> (r: usize)
    ensures
        r == count_on(targets@),
{
    let mut n: usize = 0;
    let mut i: usize = 0;
    while i < targets.len()
        invariant
            i <= targets.len(),
            n == count_on(targets@.take(i as int)),
            n <= i,
        decreases targets.len() - i,
    {
        assert(targets@.take(i + 1).drop_last() =~= targets@.take(i as int));
        if targets[i].1 {
            n = n + 1;
        }
        i = i + 1;
    }
    assert(targets@.take(targets.len() as int) =~= targets@);
    n
}

} // verus!
