use vstd::prelude::*;
use crate::aws::policy::{json_parsed, parse_json};
use crate::json::{jv, jv_list, lemma_jv_list, Json, JsonV};
use crate::text::{concat2, owned};

verus! {

/// An Azure subscription the signed-in account can use.
#[derive(Debug)]
pub struct AzureSubscription {
    pub subscription_id: String,
    pub display_name: String,
    pub state: String,
}

/// A resource group of a subscription.
#[derive(Debug)]
pub struct AzureResourceGroup {
    pub name: String,
    pub location: String,
}

/// The outcome of a connection test.
#[derive(Debug)]
pub struct ConnectionTestResponse {
    pub success: bool,
    pub message: Option<String>,
    pub account_id: Option<String>,
    pub user_arn: Option<String>,
    pub subscription_name: Option<String>,
}

/// Reads what the Azure CLI prints about accounts.
pub struct AzureClientFactory;

/// What an `az` command gives: an error when it failed; the JSON it printed
/// otherwise, or an error when that is not JSON.
pub open spec fn az_output_spec(success: bool, stdout: Seq<char>, stderr: Seq<char>) -> Result<JsonV, Seq<char>> {
    if !success {
        Err("Azure CLIコマンドが失敗しました: "@ + stderr)
    } else {
        match json_parsed(stdout) {
            Some(v) => Ok(v),
            None => Err("Azure CLIの出力をJSONとして解析できませんでした"@),
        }
    }
}

/// The string under `k`, or `Unknown`.
pub open spec fn or_unknown(v: JsonV, k: Seq<char>) -> Seq<char> {
    match v.str_field(k) {
        Some(s) => s,
        None => "Unknown"@,
    }
}

/// A subscription, by its values, when the entry has a string id and name.
pub open spec fn subscription_of(v: JsonV) -> Option<(Seq<char>, Seq<char>, Seq<char>)> {
    match (v.str_field("id"@), v.str_field("name"@)) {
        (Some(id), Some(name)) => Some((id, name, or_unknown(v, "state"@))),
        _ => None,
    }
}

/// The subscriptions of a listing, entries without an id or name left out.
pub open spec fn subscriptions_of(a: Seq<JsonV>) -> Seq<(Seq<char>, Seq<char>, Seq<char>)>
    decreases a.len(),
{
    if a.len() == 0 {
        Seq::empty()
    } else {
        let rest = subscriptions_of(a.drop_last());
        match subscription_of(a.last()) {
            Some(s) => rest.push(s),
            None => rest,
        }
    }
}

/// The resource groups of a listing, entries without a name left out.
pub open spec fn groups_of(a: Seq<JsonV>) -> Seq<(Seq<char>, Seq<char>)>
    decreases a.len(),
{
    if a.len() == 0 {
        Seq::empty()
    } else {
        let rest = groups_of(a.drop_last());
        match a.last().str_field("name"@) {
            Some(n) => rest.push((n, or_unknown(a.last(), "location"@))),
            None => rest,
        }
    }
}

fn or_unknown_of(v: &Json, k: &str) -> (r: String)
    ensures
        r@ == or_unknown(v@, k@),
{
    match v.str_field(k) {
        Some(s) => s.clone(),
        None => owned("Unknown"),
    }
}

impl AzureClientFactory {
    /// What an `az` command gives, from whether it succeeded and what it
    /// printed.
    pub fn az_output(success: bool, stdout: &str, stderr: &str) -> (r: Result<Json, String>)
        ensures
            match r {
                Ok(j) => az_output_spec(success, stdout@, stderr@) == Ok::<JsonV, Seq<char>>(j@),
                Err(e) => az_output_spec(success, stdout@, stderr@) == Err::<JsonV, Seq<char>>(e@),
            },
    {
        if !success {
            return Err(concat2("Azure CLIコマンドが失敗しました: ", stderr));
        }
        match parse_json(stdout) {
            Some(v) => Ok(v),
            None => Err(owned("Azure CLIの出力をJSONとして解析できませんでした")),
        }
    }

    /// The connection reported by `az account show`.
    pub fn test_connection(account: &Json) -> (r: ConnectionTestResponse)
        ensures
            r.success,
            r.message is Some && r.message.unwrap()@ == "Connection successful"@,
            r.user_arn is None,
            match r.account_id {
                Some(a) => account@.str_field("id"@) == Some(a@),
                None => account@.str_field("id"@) is None,
            },
            match r.subscription_name {
                Some(a) => account@.str_field("name"@) == Some(a@),
                None => account@.str_field("name"@) is None,
            },
    {
        let account_id = match account.str_field("id") {
            Some(s) => Some(s.clone()),
            None => None,
        };
        let subscription_name = match account.str_field("name") {
            Some(s) => Some(s.clone()),
            None => None,
        };
        ConnectionTestResponse {
            success: true,
            message: Some(owned("Connection successful")),
            account_id,
            user_arn: None,
            subscription_name,
        }
    }

    /// The subscriptions of `az account list`: an error when the output is
    /// not a list.
    pub fn list_subscriptions(listed: &Json) -> (r: Result<Vec<AzureSubscription>, String>)
        ensures
            match listed@ {
                JsonV::Array(a) => r is Ok && r.unwrap()@.map_values(
                    |s: AzureSubscription| (s.subscription_id@, s.display_name@, s.state@),
                ) == subscriptions_of(a),
                _ => r is Err && r->Err_0@ == "サブスクリプション一覧が配列形式ではありません"@,
            },
    {
        match listed {
            Json::Array(items) => {
                let ghost av = jv_list(items@);
                proof {
                    lemma_jv_list(items@);
                }
                let mut out: Vec<AzureSubscription> = Vec::new();
                let mut i: usize = 0;
                while i < items.len()
                    invariant
                        i <= items.len(),
                        av == jv_list(items@),
                        av.len() == items@.len(),
                        forall|k: int| 0 <= k < items@.len() ==> #[trigger] av[k] == jv(items@[k]),
                        out@.map_values(
                            |s: AzureSubscription| (s.subscription_id@, s.display_name@, s.state@),
                        ) == subscriptions_of(av.take(i as int)),
                    decreases items.len() - i,
                {
                    assert(av.take(i + 1).drop_last() =~= av.take(i as int));
                    assert(av.take(i + 1).last() == items@[i as int]@);
                    let item = &items[i];
                    match (item.str_field("id"), item.str_field("name")) {
                        (Some(id), Some(name)) => {
                            let s = AzureSubscription {
                                subscription_id: id.clone(),
                                display_name: name.clone(),
                                state: or_unknown_of(item, "state"),
                            };
                            let ghost prev = out@;
                            out.push(s);
                            assert(out@.map_values(
                                |s: AzureSubscription| (s.subscription_id@, s.display_name@, s.state@),
                            ) =~= prev.map_values(
                                |s: AzureSubscription| (s.subscription_id@, s.display_name@, s.state@),
                            ).push((s.subscription_id@, s.display_name@, s.state@)));
                        },
                        _ => {},
                    }
                    i = i + 1;
                }
                assert(av.take(items.len() as int) =~= av);
                Ok(out)
            },
            _ => Err(owned("サブスクリプション一覧が配列形式ではありません")),
        }
    }

    /// The resource groups of `az group list`: an error when the output is
    /// not a list.
    pub fn list_resource_groups(listed: &Json) -> (r: Result<Vec<AzureResourceGroup>, String>)
        ensures
            match listed@ {
                JsonV::Array(a) => r is Ok && r.unwrap()@.map_values(
                    |g: AzureResourceGroup| (g.name@, g.location@),
                ) == groups_of(a),
                _ => r is Err && r->Err_0@ == "リソースグループ一覧が配列形式ではありません"@,
            },
    {
        match listed {
            Json::Array(items) => {
                let ghost av = jv_list(items@);
                proof {
                    lemma_jv_list(items@);
                }
                let mut out: Vec<AzureResourceGroup> = Vec::new();
                let mut i: usize = 0;
                while i < items.len()
                    invariant
                        i <= items.len(),
                        av == jv_list(items@),
                        av.len() == items@.len(),
                        forall|k: int| 0 <= k < items@.len() ==> #[trigger] av[k] == jv(items@[k]),
                        out@.map_values(|g: AzureResourceGroup| (g.name@, g.location@)) == groups_of(
                            av.take(i as int),
                        ),
                    decreases items.len() - i,
                {
                    assert(av.take(i + 1).drop_last() =~= av.take(i as int));
                    assert(av.take(i + 1).last() == items@[i as int]@);
                    let item = &items[i];
                    match item.str_field("name") {
                        Some(n) => {
                            let g = AzureResourceGroup { name: n.clone(), location: or_unknown_of(item, "location") };
                            let ghost prev = out@;
                            out.push(g);
                            assert(out@.map_values(|g: AzureResourceGroup| (g.name@, g.location@)) =~= prev.map_values(
                                |g: AzureResourceGroup| (g.name@, g.location@),
                            ).push((g.name@, g.location@)));
                        },
                        None => {},
                    }
                    i = i + 1;
                }
                assert(av.take(items.len() as int) =~= av);
                Ok(out)
            },
            _ => Err(owned("リソースグループ一覧が配列形式ではありません")),
        }
    }
}

} // verus!
