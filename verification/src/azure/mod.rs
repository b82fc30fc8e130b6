pub mod factory;
use vstd::prelude::*;
use vstd::string::*;
use crate::json::{jv, jv_entries, jv_list, lemma_jv_entries, lemma_jv_list, push_entry, push_item, text, Json, JsonV};
use crate::models::request::{clone_opt, name_prefix_ok, target_on, lookup, ScanConfig};
use crate::text::{after_last_slash, chars_of, concat2, contains_exec, contains_text, has_char, last_path_segment, owned, rfind_exec, rfind_spec, str_eq, str_has_char, string_of};

verus! {

/// One entry of an object.
pub type Entry = (Seq<char>, JsonV);

/// The entries of a value that is an object; none for any other value.
pub open spec fn entries_of(v: JsonV) -> Seq<Entry> {
    match v {
        JsonV::Object(e) => e,
        _ => Seq::empty(),
    }
}

/// Whether some entry has key `k`.
pub open spec fn has_key(e: Seq<Entry>, k: Seq<char>) -> bool {
    exists|i: int| 0 <= i < e.len() && e[i].0 == k
}

/// The entries with the entries of `rest` appended whose key is not yet
/// present, in order.
pub open spec fn keep_rest(acc: Seq<Entry>, rest: Seq<Entry>) -> Seq<Entry>
    decreases rest.len(),
{
    if rest.len() == 0 {
        acc
    } else {
        let a = keep_rest(acc, rest.drop_last());
        if has_key(a, rest.last().0) {
            a
        } else {
            a.push(rest.last())
        }
    }
}

/// One entry when the value is present.
pub open spec fn opt_entry(k: Seq<char>, o: Option<JsonV>) -> Seq<Entry> {
    match o {
        Some(v) => seq![(k, v)],
        None => Seq::empty(),
    }
}

/// The value under `a`, else the value under `b`.
pub open spec fn first_of(r: JsonV, a: Seq<char>, b: Seq<char>) -> Option<JsonV> {
    match r.get(a) {
        Some(v) => Some(v),
        None => r.get(b),
    }
}

/// The marker after which an Azure role definition id names the role.
pub open spec fn role_definitions_marker() -> Seq<char> {
    "/providers/Microsoft.Authorization/roleDefinitions"@
}

/// The scope of a role definition, taken from its id: the text before the
/// last occurrence of the role-definitions marker.
pub open spec fn id_scope(r: JsonV) -> Seq<Entry> {
    match r.get("id"@) {
        Some(JsonV::Str(s)) => match rfind_spec(s, role_definitions_marker()) {
            Some(p) => seq![("scope"@, JsonV::Str(s.take(p)))],
            None => Seq::empty(),
        },
        _ => Seq::empty(),
    }
}

/// A role definition as the application shows it, without display names:
/// id, name, description, type and scope under their new keys, then every
/// original entry whose key is not taken yet.
pub open spec fn basic_role_definition_spec(rd: JsonV) -> JsonV {
    JsonV::Object(
        keep_rest(
            opt_entry("role_definition_id"@, rd.get("id"@)) + opt_entry(
                "role_name"@,
                first_of(rd, "name"@, "roleName"@),
            ) + opt_entry("description"@, rd.get("description"@)) + opt_entry(
                "role_type"@,
                rd.get("type"@),
            ) + id_scope(rd),
            entries_of(rd),
        ),
    )
}

/// The first of two optional values that is present.
pub open spec fn or_else(a: Option<JsonV>, b: Option<JsonV>) -> Option<JsonV> {
    match a {
        Some(v) => Some(v),
        None => b,
    }
}

/// The scope arguments by scope type: a resource group scope is
/// `--scope /subscriptions/<sub>/resourceGroups/<rg>` (without the
/// subscription part when there is none), a management group scope is
/// `--scope /providers/Microsoft.Management/managementGroups/<mg>`, either
/// without a scope value gives nothing, and any other scope type, or none,
/// gives `--subscription <sub>` when there is a subscription and nothing
/// otherwise.
pub proof fn law_scope_args(c: ScanConfig)
    ensures
        ({
            let by_sub = match c.subscription_id {
                Some(s) => seq!["--subscription"@, s@],
                None => Seq::<Seq<char>>::empty(),
            };
            let t = match c.scope_type {
                Some(t) => t@,
                None => Seq::<char>::empty(),
            };
            &&& (c.scope_type is Some && t == "resource_group"@) ==> scope_args_spec(c) == match (
                c.scope_value,
                c.subscription_id,
            ) {
                (Some(v), Some(s)) => seq!["--scope"@, "/subscriptions/"@ + s@ + "/resourceGroups/"@ + v@],
                (Some(v), None) => seq!["--scope"@, "/resourceGroups/"@ + v@],
                (None, _) => Seq::<Seq<char>>::empty(),
            }
            &&& (c.scope_type is Some && t == "management_group"@) ==> scope_args_spec(c) == match c.scope_value {
                Some(v) => seq!["--scope"@, "/providers/Microsoft.Management/managementGroups/"@ + v@],
                None => Seq::<Seq<char>>::empty(),
            }
            &&& (c.scope_type is None || (t != "resource_group"@ && t != "management_group"@)) ==> scope_args_spec(c)
                == by_sub
        }),
{
    reveal_strlit("subscription");
    reveal_strlit("resource_group");
    reveal_strlit("management_group");
    assert("subscription"@.len() != "resource_group"@.len());
    assert("subscription"@.len() != "management_group"@.len());
    assert("resource_group"@[0] != "management_group"@[0]);
}

/// The scope a role definition's id gives: the text before the last
/// occurrence of the role-definitions marker, when the id is a string that
/// holds it.
pub open spec fn id_scope_value(rd: JsonV) -> Option<JsonV> {
    match rd.get("id"@) {
        Some(JsonV::Str(s)) => match rfind_spec(s, role_definitions_marker()) {
            Some(p) => Some(JsonV::Str(s.take(p))),
            None => None,
        },
        _ => None,
    }
}

proof fn lemma_get_none_iff(e: Seq<Entry>, k: Seq<char>)
    ensures
        crate::json::entries_get(e, k) is None <==> !has_key(e, k),
    decreases e.len(),
{
    if e.len() > 0 {
        lemma_get_none_iff(e.drop_first(), k);
        if e[0].0 != k {
            if has_key(e, k) {
                let i = choose|i: int| 0 <= i < e.len() && e[i].0 == k;
                assert(e.drop_first()[i - 1].0 == k);
            }
            if has_key(e.drop_first(), k) {
                let i = choose|i: int| 0 <= i < e.drop_first().len() && e.drop_first()[i].0 == k;
                assert(e[i + 1].0 == k);
            }
        }
    }
}

proof fn lemma_get_opt_entry(key: Seq<char>, o: Option<JsonV>, q: Seq<char>)
    ensures
        crate::json::entries_get(opt_entry(key, o), q) == if q == key {
            o
        } else {
            None::<JsonV>
        },
{
    assert(crate::json::entries_get(Seq::<Entry>::empty(), q) is None);
    if o is Some {
        assert(opt_entry(key, o).drop_first() =~= Seq::<Entry>::empty());
    }
}

proof fn lemma_get_concat(a: Seq<Entry>, b: Seq<Entry>, k: Seq<char>)
    ensures
        crate::json::entries_get(a + b, k) == or_else(crate::json::entries_get(a, k), crate::json::entries_get(b, k)),
    decreases a.len(),
{
    if a.len() > 0 {
        assert((a + b).drop_first() =~= a.drop_first() + b);
        lemma_get_concat(a.drop_first(), b, k);
    } else {
        assert(a + b =~= b);
    }
}

proof fn lemma_get_keep_rest(acc: Seq<Entry>, rest: Seq<Entry>, k: Seq<char>)
    ensures
        crate::json::entries_get(keep_rest(acc, rest), k) == or_else(
            crate::json::entries_get(acc, k),
            crate::json::entries_get(rest, k),
        ),
    decreases rest.len(),
{
    if rest.len() > 0 {
        let a = keep_rest(acc, rest.drop_last());
        let x = rest.last();
        lemma_get_keep_rest(acc, rest.drop_last(), k);
        assert(rest =~= rest.drop_last() + seq![x]);
        lemma_get_concat(rest.drop_last(), seq![x], k);
        lemma_get_concat(a, seq![x], k);
        lemma_get_none_iff(a, x.0);
        assert(seq![x].drop_first() =~= Seq::<Entry>::empty());
        assert(crate::json::entries_get(Seq::<Entry>::empty(), k) is None);
        assert(crate::json::entries_get(seq![x], k) == if x.0 == k {
            Some(x.1)
        } else {
            None::<JsonV>
        });
        if has_key(a, x.0) {
            assert(keep_rest(acc, rest) == a);
        } else {
            assert(keep_rest(acc, rest) == a.push(x));
            assert(a.push(x) =~= a + seq![x]);
        }
    }
}

/// The basic role definition keeps what the original held: its id, name
/// (else `roleName`), type and the scope taken from its id under their new
/// keys, each where present, and the description; any key that none of
/// these take keeps its original value.
pub proof fn law_basic_role_definition(rd: JsonV, k: Seq<char>)
    ensures
        ({
            let r = basic_role_definition_spec(rd);
            &&& r.get("role_definition_id"@) == or_else(rd.get("id"@), rd.get("role_definition_id"@))
            &&& r.get("role_name"@) == or_else(first_of(rd, "name"@, "roleName"@), rd.get("role_name"@))
            &&& r.get("description"@) == rd.get("description"@)
            &&& r.get("role_type"@) == or_else(rd.get("type"@), rd.get("role_type"@))
            &&& r.get("scope"@) == or_else(id_scope_value(rd), rd.get("scope"@))
            &&& (k != "role_definition_id"@ && k != "role_name"@ && k != "description"@ && k != "role_type"@
                && k != "scope"@) ==> r.get(k) == rd.get(k)
        }),
{
    reveal_strlit("role_definition_id");
    reveal_strlit("role_name");
    reveal_strlit("description");
    reveal_strlit("role_type");
    reveal_strlit("scope");
    assert("role_definition_id"@.len() == 18);
    assert("role_name"@.len() == 9);
    assert("description"@.len() == 11);
    assert("role_type"@.len() == 9);
    assert("scope"@.len() == 5);
    assert("role_name"@[5] != "role_type"@[5]);
    let a1 = opt_entry("role_definition_id"@, rd.get("id"@));
    let a2 = opt_entry("role_name"@, first_of(rd, "name"@, "roleName"@));
    let a3 = opt_entry("description"@, rd.get("description"@));
    let a4 = opt_entry("role_type"@, rd.get("type"@));
    let a5 = id_scope(rd);
    let add = a1 + a2 + a3 + a4 + a5;
    assert forall|q: Seq<char>| #[trigger] basic_role_definition_spec(rd).get(q) == or_else(
        crate::json::entries_get(add, q),
        rd.get(q),
    ) by {
        lemma_get_keep_rest(add, entries_of(rd), q);
        assert(crate::json::entries_get(Seq::<Entry>::empty(), q) is None);
        assert(crate::json::entries_get(entries_of(rd), q) == rd.get(q));
    }
    assert forall|q: Seq<char>| #[trigger] crate::json::entries_get(add, q) == or_else(
        crate::json::entries_get(a1, q),
        or_else(
            crate::json::entries_get(a2, q),
            or_else(
                crate::json::entries_get(a3, q),
                or_else(crate::json::entries_get(a4, q), crate::json::entries_get(a5, q)),
            ),
        ),
    ) by {
        lemma_get_concat(a1 + a2 + a3 + a4, a5, q);
        lemma_get_concat(a1 + a2 + a3, a4, q);
        lemma_get_concat(a1 + a2, a3, q);
        lemma_get_concat(a1, a2, q);
    }
    assert forall|q: Seq<char>| #[trigger] crate::json::entries_get(a5, q) == if q == "scope"@ {
        id_scope_value(rd)
    } else {
        None::<JsonV>
    } by {
        lemma_get_opt_entry("scope"@, id_scope_value(rd), q);
        assert(a5 == opt_entry("scope"@, id_scope_value(rd)));
    }
    assert forall|q: Seq<char>|
        #![trigger crate::json::entries_get(a1, q)]
        crate::json::entries_get(a1, q) == (if q == "role_definition_id"@ { rd.get("id"@) } else { None::<JsonV> })
            && crate::json::entries_get(a2, q) == (if q == "role_name"@ {
            first_of(rd, "name"@, "roleName"@)
        } else {
            None::<JsonV>
        }) && crate::json::entries_get(a3, q) == (if q == "description"@ {
            rd.get("description"@)
        } else {
            None::<JsonV>
        }) && crate::json::entries_get(a4, q) == (if q == "role_type"@ { rd.get("type"@) } else { None::<JsonV> }) by {
        lemma_get_opt_entry("role_definition_id"@, rd.get("id"@), q);
        lemma_get_opt_entry("role_name"@, first_of(rd, "name"@, "roleName"@), q);
        lemma_get_opt_entry("description"@, rd.get("description"@), q);
        lemma_get_opt_entry("role_type"@, rd.get("type"@), q);
    }
    let r = basic_role_definition_spec(rd);
    assert(r.get("role_definition_id"@) == or_else(rd.get("id"@), rd.get("role_definition_id"@)));
    assert(r.get("role_name"@) == or_else(first_of(rd, "name"@, "roleName"@), rd.get("role_name"@)));
    assert(r.get("description"@) == rd.get("description"@));
    assert(r.get("role_type"@) == or_else(rd.get("type"@), rd.get("role_type"@)));
    assert(r.get("scope"@) == or_else(id_scope_value(rd), rd.get("scope"@)));
    assert(basic_role_definition_spec(rd).get(k) == or_else(crate::json::entries_get(add, k), rd.get(k)));
}

/// The arguments that select the scope of an `az role` listing.
pub open spec fn scope_args_spec(c: ScanConfig) -> Seq<Seq<char>> {
    let by_subscription = match c.subscription_id {
        Some(s) => seq!["--subscription"@, s@],
        None => Seq::empty(),
    };
    match c.scope_type {
        Some(t) => if t@ == "subscription"@ {
            by_subscription
        } else if t@ == "resource_group"@ {
            match c.scope_value {
                Some(v) => match c.subscription_id {
                    Some(s) => seq![
                        "--scope"@,
                        "/subscriptions/"@ + s@ + "/resourceGroups/"@ + v@,
                    ],
                    None => seq!["--scope"@, "/resourceGroups/"@ + v@],
                },
                None => Seq::empty(),
            }
        } else if t@ == "management_group"@ {
            match c.scope_value {
                Some(v) => seq![
                    "--scope"@,
                    "/providers/Microsoft.Management/managementGroups/"@ + v@,
                ],
                None => Seq::empty(),
            }
        } else {
            by_subscription
        },
        None => by_subscription,
    }
}


/// The text under `a`, else under `b`, when that value is a string.
pub open spec fn name_of(r: JsonV, a: Seq<char>, b: Seq<char>) -> Option<Seq<char>> {
    match first_of(r, a, b) {
        Some(v) => v.as_str(),
        None => None,
    }
}

/// Whether an item passes the `name_prefix` filter: it does when there is
/// no filter or the item has no name.
pub open spec fn prefix_pass(f: Seq<(String, String)>, name: Option<Seq<char>>) -> bool {
    match lookup(f, "name_prefix"@) {
        Some(p) => match name {
            Some(n) => crate::text::starts_with(n, p@),
            None => true,
        },
        None => true,
    }
}

/// The listed items that pass the prefix filter, named by `a` else `b`.
pub open spec fn filtered_spec(f: Seq<(String, String)>, items: Seq<JsonV>, a: Seq<char>, b: Seq<char>) -> Seq<JsonV>
    decreases items.len(),
{
    if items.len() == 0 {
        Seq::empty()
    } else {
        let rest = filtered_spec(f, items.drop_last(), a, b);
        if prefix_pass(f, name_of(items.last(), a, b)) {
            rest.push(items.last())
        } else {
            rest
        }
    }
}

/// The distinct strings found under `key`, in order of first appearance.
pub open spec fn unique_under(items: Seq<JsonV>, key: Seq<char>) -> Seq<Seq<char>>
    decreases items.len(),
{
    if items.len() == 0 {
        Seq::empty()
    } else {
        let rest = unique_under(items.drop_last(), key);
        match items.last().str_field(key) {
            Some(x) => if rest.contains(x) {
                rest
            } else {
                rest.push(x)
            },
            None => rest,
        }
    }
}

/// The key under which a principal's display name is kept.
pub open spec fn principal_key(id: Seq<char>, kind: Seq<char>) -> Seq<char> {
    id + ":"@ + kind
}

/// The principals (id and type) of a list of assignments, distinct by
/// their key, in order of first appearance.
pub open spec fn unique_principals(items: Seq<JsonV>) -> Seq<(Seq<char>, Seq<char>)>
    decreases items.len(),
{
    if items.len() == 0 {
        Seq::empty()
    } else {
        let rest = unique_principals(items.drop_last());
        match (items.last().str_field("principalId"@), items.last().str_field("principalType"@)) {
            (Some(p), Some(t)) => if rest.map_values(
                |x: (Seq<char>, Seq<char>)| principal_key(x.0, x.1),
            ).contains(principal_key(p, t)) {
                rest
            } else {
                rest.push((p, t))
            },
            _ => rest,
        }
    }
}

/// The first scope at subscription level (naming a subscription and no
/// resource group).
pub open spec fn first_subscription_scope(sc: Seq<JsonV>) -> Option<JsonV>
    decreases sc.len(),
{
    if sc.len() == 0 {
        None
    } else {
        match sc[0] {
            JsonV::Str(s) => if contains_text(s, "/subscriptions/"@) && !contains_text(
                s,
                "/resourceGroups/"@,
            ) {
                Some(sc[0])
            } else {
                first_subscription_scope(sc.drop_first())
            },
            _ => first_subscription_scope(sc.drop_first()),
        }
    }
}

/// The scope of a role definition: the first subscription-level
/// assignable scope, else the first assignable scope, else the scope in its
/// id.
pub open spec fn definition_scope(rd: JsonV) -> Seq<Entry> {
    match rd.get("assignableScopes"@) {
        Some(JsonV::Array(sc)) => match first_subscription_scope(sc) {
            Some(v) => seq![("scope"@, v)],
            None => if sc.len() > 0 {
                seq![("scope"@, sc[0])]
            } else {
                id_scope(rd)
            },
        },
        _ => id_scope(rd),
    }
}

/// A role definition as the application shows it, with the display name
/// found for its id when there is one.
pub open spec fn role_definition_spec(rd: JsonV, display: Option<Seq<char>>) -> JsonV {
    JsonV::Object(
        keep_rest(
            match rd.str_field("id"@) {
                Some(rid) => seq![("role_definition_id"@, JsonV::Str(rid))],
                None => Seq::empty(),
            } + match display {
                Some(n) => seq![("role_name"@, JsonV::Str(n))],
                None => opt_entry("role_name"@, first_of(rd, "name"@, "roleName"@)),
            } + opt_entry("description"@, rd.get("description"@)) + opt_entry(
                "role_type"@,
                rd.get("type"@),
            ) + definition_scope(rd),
            entries_of(rd),
        ),
    )
}

/// A role assignment as the application shows it, with the display names
/// found for its role and its principal when there are some.
pub open spec fn role_assignment_spec(
    ra: JsonV,
    role_display: Option<Seq<char>>,
    principal_display: Option<Seq<char>>,
) -> JsonV {
    let rid = ra.str_field("roleDefinitionId"@);
    let pid = ra.str_field("principalId"@);
    let pt = ra.str_field("principalType"@);
    JsonV::Object(
        keep_rest(
            opt_entry("assignment_id"@, first_of(ra, "name"@, "id"@)) + match role_display {
                Some(n) => seq![("role_definition_name"@, JsonV::Str(n))],
                None => match ra.get("roleDefinitionName"@) {
                    Some(v) => seq![("role_definition_name"@, v)],
                    None => match rid {
                        Some(r) => if has_char(r, '/') {
                            seq![("role_definition_name"@, JsonV::Str(after_last_slash(r)))]
                        } else {
                            Seq::empty()
                        },
                        None => Seq::empty(),
                    },
                },
            } + match pid {
                Some(p) => seq![("principal_id"@, JsonV::Str(p))],
                None => Seq::empty(),
            } + match pt {
                Some(t) => seq![("principal_type"@, JsonV::Str(t))],
                None => Seq::empty(),
            } + match principal_display {
                Some(n) => seq![("principal_name"@, JsonV::Str(n))],
                None => match ra.get("principalName"@) {
                    Some(v) => seq![("principal_name"@, v)],
                    None => match pid {
                        Some(p) => seq![("principal_name"@, JsonV::Str(p))],
                        None => Seq::empty(),
                    },
                },
            } + opt_entry("scope"@, ra.get("scope"@)),
            entries_of(ra),
        ),
    )
}

/// The display name found for a key: the name of the first entry with the
/// key, when the lookup found one.
pub open spec fn display_for(names: Seq<(String, Option<String>)>, k: Seq<char>) -> Option<Seq<char>> {
    match lookup(names, k) {
        Some(Some(n)) => Some(n@),
        _ => None,
    }
}

/// The display name of an assignment's role.
pub open spec fn role_display_of(ra: JsonV, names: Seq<(String, Option<String>)>) -> Option<Seq<char>> {
    match ra.str_field("roleDefinitionId"@) {
        Some(rid) => display_for(names, rid),
        None => None,
    }
}

/// The display name of an assignment's principal; looked up only when
/// the assignment names both the principal and its type.
pub open spec fn principal_display_of(ra: JsonV, names: Seq<(String, Option<String>)>) -> Option<Seq<char>> {
    match (ra.str_field("principalId"@), ra.str_field("principalType"@)) {
        (Some(p), Some(t)) => display_for(names, principal_key(p, t)),
        _ => None,
    }
}


/// The `az` arguments that list role definitions, or none when that target
/// is off.
pub open spec fn role_definition_command_spec(c: ScanConfig) -> Option<Seq<Seq<char>>> {
    if target_on(c.scan_targets@, "role_definitions"@) {
        Some(seq!["role"@, "definition"@, "list"@, "--output"@, "json"@] + scope_args_spec(c))
    } else {
        None
    }
}

/// The `az` arguments that list role assignments, or none when that target
/// is off.
pub open spec fn role_assignment_command_spec(c: ScanConfig) -> Option<Seq<Seq<char>>> {
    if target_on(c.scan_targets@, "role_assignments"@) {
        Some(seq!["role"@, "assignment"@, "list"@, "--output"@, "json"@] + scope_args_spec(c))
    } else {
        None
    }
}

/// The display name found for a role definition's id.
pub open spec fn definition_display(rd: JsonV, names: Seq<(String, Option<String>)>) -> Option<Seq<char>> {
    match rd.str_field("id"@) {
        Some(rid) => display_for(names, rid),
        None => None,
    }
}

/// The role definitions shown for a listing: none when the request does
/// not ask for them; else an error when the listing is
/// not an array; else each definition that passes the prefix filter, with
/// its display name when names were looked up, without otherwise.
pub open spec fn role_definitions_spec(
    c: ScanConfig,
    listed: JsonV,
    names: Option<Seq<(String, Option<String>)>>,
) -> Result<Seq<JsonV>, Seq<char>> {
    if !target_on(c.scan_targets@, "role_definitions"@) {
        Ok(Seq::empty())
    } else {
    match listed {
        JsonV::Array(items) => {
            let kept = filtered_spec(c.filters@, items, "name"@, "roleName"@);
            Ok(
                match names {
                    None => kept.map_values(|rd: JsonV| basic_role_definition_spec(rd)),
                    Some(t) => kept.map_values(
                        |rd: JsonV| role_definition_spec(rd, definition_display(rd, t)),
                    ),
                },
            )
        },
        _ => Err("Role Definitions一覧が配列形式ではありません"@),
    }
    }
}

/// The role assignments shown for a listing: none when the request does
/// not ask for them; else an error when the listing is not an array; none when no HTTP client could look names up; else each
/// assignment that passes the prefix filter, with the display names found.
pub open spec fn role_assignments_spec(
    c: ScanConfig,
    listed: JsonV,
    role_names: Seq<(String, Option<String>)>,
    principal_names: Seq<(String, Option<String>)>,
    http_available: bool,
) -> Result<Seq<JsonV>, Seq<char>> {
    if !target_on(c.scan_targets@, "role_assignments"@) {
        Ok(Seq::empty())
    } else {
    match listed {
        JsonV::Array(items) => if !http_available {
            Ok(Seq::empty())
        } else {
            Ok(
                filtered_spec(c.filters@, items, "name"@, "roleDefinitionName"@).map_values(
                    |ra: JsonV|
                        role_assignment_spec(
                            ra,
                            role_display_of(ra, role_names),
                            principal_display_of(ra, principal_names),
                        ),
                ),
            )
        },
        _ => Err("Role Assignments一覧が配列形式ではありません"@),
    }
    }
}

/// The record of a web app.
pub open spec fn app_service_spec(app: JsonV) -> JsonV {
    JsonV::Object(
        str_entry("name"@, app, "name"@) + str_entry("id"@, app, "id"@) + str_entry(
            "resource_group"@,
            app,
            "resourceGroup"@,
        ) + str_entry("location"@, app, "location"@) + str_entry("kind"@, app, "kind"@)
            + str_entry("state"@, app, "state"@) + str_entry(
            "default_host_name"@,
            app,
            "defaultHostName"@,
        ) + str_entry("service_plan_id"@, app, "appServicePlanId"@) + match app.get(
            "httpsOnly"@,
        ) {
            Some(JsonV::Bool(b)) => seq![("https_only"@, JsonV::Bool(b))],
            _ => Seq::empty(),
        },
    )
}

/// The record of a function app.
pub open spec fn function_app_spec(f: JsonV) -> JsonV {
    JsonV::Object(
        str_entry("name"@, f, "name"@) + str_entry("id"@, f, "id"@) + str_entry(
            "resource_group"@,
            f,
            "resourceGroup"@,
        ) + str_entry("location"@, f, "location"@) + str_entry("kind"@, f, "kind"@) + str_entry(
            "state"@,
            f,
            "state"@,
        ) + str_entry("service_plan_id"@, f, "appServicePlanId"@),
    )
}

/// An entry under `k` for the string under `src`, when there is one.
pub open spec fn str_entry(k: Seq<char>, v: JsonV, src: Seq<char>) -> Seq<Entry> {
    match v.str_field(src) {
        Some(s) => seq![(k, JsonV::Str(s))],
        None => Seq::empty(),
    }
}

/// Whether a web app is a function app: its kind, lowercased, mentions
/// `functionapp`.
pub open spec fn is_function_app(app: JsonV) -> bool {
    let kind = match app.str_field("kind"@) {
        Some(k) => k,
        None => Seq::empty(),
    };
    contains_text(crate::generators::naming::lowercased(kind), "functionapp"@)
}

/// The items of a listing: its elements when it is an array, none otherwise.
pub open spec fn items_of(v: JsonV) -> Seq<JsonV> {
    match v {
        JsonV::Array(a) => a,
        _ => Seq::empty(),
    }
}

/// The web apps of a listing that are not function apps, in order.
pub open spec fn app_services_of(items: Seq<JsonV>) -> Seq<JsonV>
    decreases items.len(),
{
    if items.len() == 0 {
        Seq::empty()
    } else {
        let rest = app_services_of(items.drop_last());
        if is_function_app(items.last()) {
            rest
        } else {
            rest.push(app_service_spec(items.last()))
        }
    }
}

/// Whether some entry has key `k`.
fn has_key_exec(e: &Vec<(String, Json)>, k: &str) -> (r: bool)
    ensures
        r == has_key(jv_entries(e@), k@),
{
    proof {
        lemma_jv_entries(e@);
    }
    let mut i: usize = 0;
    while i < e.len()
        invariant
            i <= e.len(),
            jv_entries(e@).len() == e@.len(),
            forall|j: int| 0 <= j < e@.len() ==> #[trigger] jv_entries(e@)[j] == (e@[j].0@, jv(e@[j].1)),
            forall|j: int| 0 <= j < i ==> jv_entries(e@)[j].0 != k@,
        decreases e.len() - i,
    {
        if str_eq(e[i].0.as_str(), k) {
            assert(jv_entries(e@)[i as int].0 == k@);
            return true;
        }
        i = i + 1;
    }
    false
}

/// Appends the entries of `src` whose key is not yet present.
fn keep_rest_exec(e: &mut Vec<(String, Json)>, src: &Json)
    ensures
        jv_entries(final(e)@) == keep_rest(jv_entries(old(e)@), entries_of(src@)),
{
    match src {
        Json::Object(rest) => {
            let ghost acc = jv_entries(e@);
            let ghost rv = jv_entries(rest@);
            proof {
                lemma_jv_entries(rest@);
            }
            let mut i: usize = 0;
            while i < rest.len()
                invariant
                    i <= rest.len(),
                    rv == jv_entries(rest@),
                    rv.len() == rest@.len(),
                    forall|j: int| 0 <= j < rest@.len() ==> #[trigger] rv[j] == (rest@[j].0@, jv(rest@[j].1)),
                    acc == jv_entries(old(e)@),
                    jv_entries(e@) == keep_rest(acc, rv.take(i as int)),
                decreases rest.len() - i,
            {
                assert(rv.take(i + 1).drop_last() =~= rv.take(i as int));
                assert(rv.take(i + 1).last() == rv[i as int]);
                if !has_key_exec(e, rest[i].0.as_str()) {
                    push_entry(e, rest[i].0.as_str(), rest[i].1.clone());
                }
                i = i + 1;
            }
            assert(rv.take(rest.len() as int) =~= rv);
        },
        _ => {},
    }
}

/// Appends an entry holding a copy of the value, when there is one.
fn push_opt(e: &mut Vec<(String, Json)>, k: &str, o: Option<&Json>)
    ensures
        jv_entries(final(e)@) == jv_entries(old(e)@) + opt_entry(
            k@,
            match o {
                Some(v) => Some(v@),
                None => None,
            },
        ),
{
    match o {
        Some(v) => push_entry(e, k, v.clone()),
        None => {},
    }
    assert(jv_entries(e@) =~= jv_entries(old(e)@) + opt_entry(
        k@,
        match o {
            Some(v) => Some(v@),
            None => None,
        },
    ));
}

/// The value under `a`, else under `b`.
fn first_of_exec<'a>(r: &'a Json, a: &str, b: &str) -> (out: Option<&'a Json>)
    ensures
        match out {
            Some(v) => first_of(r@, a@, b@) == Some(v@),
            None => first_of(r@, a@, b@) is None,
        },
{
    match r.get(a) {
        Some(v) => Some(v),
        None => r.get(b),
    }
}

/// Appends the scope taken from a role definition's id, when it has one.
fn push_id_scope(e: &mut Vec<(String, Json)>, rd: &Json)
    ensures
        jv_entries(final(e)@) == jv_entries(old(e)@) + id_scope(rd@),
{
    match rd.get("id") {
        Some(Json::Str(s)) => {
            let cs = chars_of(s.as_str());
            let marker = chars_of("/providers/Microsoft.Authorization/roleDefinitions");
            match rfind_exec(&cs, &marker) {
                Some(p) => {
                    proof {
                        crate::text::lemma_last_found_some(cs@, marker@, cs@.len() + 1int);
                    }
                    let mut head: Vec<char> = Vec::new();
                    let mut i: usize = 0;
                    while i < p
                        invariant
                            i <= p <= cs.len(),
                            head@ == cs@.take(i as int),
                        decreases p - i,
                    {
                        head.push(cs[i]);
                        assert(head@ =~= cs@.take(i + 1));
                        i = i + 1;
                    }
                    push_entry(e, "scope", Json::Str(string_of(&head)));
                },
                None => {},
            }
        },
        _ => {},
    }
    assert(jv_entries(e@) =~= jv_entries(old(e)@) + id_scope(rd@));
}

/// Appends the subscription arguments, when the request names one.
fn push_subscription(args: &mut Vec<String>, c: &ScanConfig)
    ensures
        final(args)@.map_values(|s: String| s@) == old(args)@.map_values(|s: String| s@) + match c.subscription_id {
            Some(s) => seq!["--subscription"@, s@],
            None => Seq::empty(),
        },
{
    match &c.subscription_id {
        Some(s) => {
            args.push(owned("--subscription"));
            args.push(s.clone());
        },
        None => {},
    }
    assert(args@.map_values(|s: String| s@) =~= old(args)@.map_values(|s: String| s@) + match c.subscription_id {
        Some(s) => seq!["--subscription"@, s@],
        None => Seq::empty(),
    });
}


/// The display name found for a key in a table of looked-up names.
fn display_lookup<'a>(names: &'a Vec<(String, Option<String>)>, k: &str) -> (r: Option<&'a String>)
    ensures
        match r {
            Some(n) => display_for(names@, k@) == Some(n@),
            None => display_for(names@, k@) is None,
        },
{
    let mut i: usize = 0;
    assert(names@.skip(0) =~= names@);
    while i < names.len()
        invariant
            i <= names.len(),
            lookup(names@, k@) == lookup(names@.skip(i as int), k@),
        decreases names.len() - i,
    {
        assert(names@.skip(i as int)[0] == names@[i as int]);
        if str_eq(names[i].0.as_str(), k) {
            return match &names[i].1 {
                Some(n) => Some(n),
                None => None,
            };
        }
        assert(names@.skip(i as int).drop_first() =~= names@.skip(i + 1));
        i = i + 1;
    }
    None
}

/// The first subscription-level scope of a list.
fn first_subscription_scope_exec(sc: &Vec<Json>) -> (r: Option<&Json>)
    ensures
        match r {
            Some(v) => first_subscription_scope(jv_list(sc@)) == Some(v@),
            None => first_subscription_scope(jv_list(sc@)) is None,
        },
{
    let ghost sv = jv_list(sc@);
    proof {
        lemma_jv_list(sc@);
    }
    let mut i: usize = 0;
    assert(sv.skip(0) =~= sv);
    while i < sc.len()
        invariant
            i <= sc.len(),
            sv == jv_list(sc@),
            sv.len() == sc@.len(),
            forall|j: int| 0 <= j < sc@.len() ==> #[trigger] sv[j] == jv(sc@[j]),
            first_subscription_scope(sv) == first_subscription_scope(sv.skip(i as int)),
        decreases sc.len() - i,
    {
        assert(sv.skip(i as int)[0] == sc@[i as int]@);
        assert(sv.skip(i as int).drop_first() =~= sv.skip(i + 1));
        match &sc[i] {
            Json::Str(s) => {
                if contains_exec(s.as_str(), "/subscriptions/") && !contains_exec(
                    s.as_str(),
                    "/resourceGroups/",
                ) {
                    return Some(&sc[i]);
                }
            },
            _ => {},
        }
        i = i + 1;
    }
    None
}

/// Appends the scope of a role definition.
fn push_definition_scope(e: &mut Vec<(String, Json)>, rd: &Json)
    ensures
        jv_entries(final(e)@) == jv_entries(old(e)@) + definition_scope(rd@),
{
    match rd.get("assignableScopes") {
        Some(Json::Array(sc)) => {
            proof {
                lemma_jv_list(sc@);
            }
            match first_subscription_scope_exec(sc) {
                Some(v) => push_entry(e, "scope", v.clone()),
                None => {
                    if sc.len() > 0 {
                        push_entry(e, "scope", sc[0].clone());
                    } else {
                        push_id_scope(e, rd);
                    }
                },
            }
        },
        _ => push_id_scope(e, rd),
    }
    assert(jv_entries(e@) =~= jv_entries(old(e)@) + definition_scope(rd@));
}

/// Appends an entry holding the text, when there is one.
fn push_opt_text(e: &mut Vec<(String, Json)>, k: &str, o: Option<&String>)
    ensures
        jv_entries(final(e)@) == jv_entries(old(e)@) + match o {
            Some(t) => seq![(k@, JsonV::Str(t@))],
            None => Seq::<Entry>::empty(),
        },
{
    match o {
        Some(t) => push_entry(e, k, text(t.as_str())),
        None => {},
    }
    assert(jv_entries(e@) =~= jv_entries(old(e)@) + match o {
        Some(t) => seq![(k@, JsonV::Str(t@))],
        None => Seq::<Entry>::empty(),
    });
}

/// Copies of the listed items that pass the prefix filter, named by `a`
/// else `b`.
fn filter_by_prefix(c: &ScanConfig, items: &Vec<Json>, a: &str, b: &str) -> (r: Vec<Json>)
    ensures
        jv_list(r@) == filtered_spec(c.filters@, jv_list(items@), a@, b@),
{
    let ghost sv = jv_list(items@);
    proof {
        lemma_jv_list(items@);
    }
    let prefix = crate::models::request::lookup_text(&c.filters, "name_prefix");
    let mut out: Vec<Json> = Vec::new();
    let mut i: usize = 0;
    while i < items.len()
        invariant
            i <= items.len(),
            sv == jv_list(items@),
            sv.len() == items@.len(),
            forall|j: int| 0 <= j < items@.len() ==> #[trigger] sv[j] == jv(items@[j]),
            match prefix {
                Some(p) => lookup(c.filters@, "name_prefix"@) == Some(*p),
                None => lookup(c.filters@, "name_prefix"@) is None,
            },
            jv_list(out@) == filtered_spec(c.filters@, sv.take(i as int), a@, b@),
        decreases items.len() - i,
    {
        assert(sv.take(i + 1).drop_last() =~= sv.take(i as int));
        assert(sv.take(i + 1).last() == items@[i as int]@);
        let pass = match prefix {
            None => true,
            Some(p) => match first_of_exec(&items[i], a, b) {
                Some(v) => match v.as_str() {
                    Some(n) => crate::text::str_starts_with(n.as_str(), p.as_str()),
                    None => true,
                },
                None => true,
            },
        };
        if pass {
            push_item(&mut out, items[i].clone());
        }
        i = i + 1;
    }
    assert(sv.take(items.len() as int) =~= sv);
    out
}

/// Whether a list of texts holds `x`.
fn holds_text(v: &Vec<String>, x: &str) -> (r: bool)
    ensures
        r == v@.map_values(|s: String| s@).contains(x@),
{
    let mut i: usize = 0;
    while i < v.len()
        invariant
            i <= v.len(),
            forall|j: int| 0 <= j < i ==> v@[j]@ != x@,
        decreases v.len() - i,
    {
        if str_eq(v[i].as_str(), x) {
            assert(v@.map_values(|s: String| s@)[i as int] == x@);
            return true;
        }
        i = i + 1;
    }
    false
}

/// The distinct strings found under `key`, in order of first appearance.
pub fn unique_strings(items: &Vec<Json>, key: &str) -> (r: Vec<String>)
    ensures
        r@.map_values(|s: String| s@) == unique_under(jv_list(items@), key@),
{
    let ghost sv = jv_list(items@);
    proof {
        lemma_jv_list(items@);
    }
    let mut out: Vec<String> = Vec::new();
    let mut i: usize = 0;
    while i < items.len()
        invariant
            i <= items.len(),
            sv == jv_list(items@),
            sv.len() == items@.len(),
            forall|j: int| 0 <= j < items@.len() ==> #[trigger] sv[j] == jv(items@[j]),
            out@.map_values(|s: String| s@) == unique_under(sv.take(i as int), key@),
        decreases items.len() - i,
    {
        assert(sv.take(i + 1).drop_last() =~= sv.take(i as int));
        assert(sv.take(i + 1).last() == items@[i as int]@);
        match items[i].str_field(key) {
            Some(x) => {
                if !holds_text(&out, x.as_str()) {
                    let ghost prev = out@;
                    out.push(x.clone());
                    assert(out@.map_values(|s: String| s@) =~= prev.map_values(|s: String| s@).push(x@));
                }
            },
            None => {},
        }
        i = i + 1;
    }
    assert(sv.take(items.len() as int) =~= sv);
    out
}

/// The key under which a principal's display name is kept.
pub fn principal_key_of(id: &str, kind: &str) -> (r: String)
    ensures
        r@ == principal_key(id@, kind@),
{
    let mut k = owned(id);
    k.append(":");
    k.append(kind);
    k
}

/// The principals named by a list of assignments, distinct by key, in
/// order of first appearance.
pub fn unique_principal_ids(items: &Vec<Json>) -> (r: Vec<(String, String)>)
    ensures
        r@.map_values(|x: (String, String)| (x.0@, x.1@)) == unique_principals(jv_list(items@)),
{
    let ghost sv = jv_list(items@);
    proof {
        lemma_jv_list(items@);
    }
    let mut out: Vec<(String, String)> = Vec::new();
    let mut keys: Vec<String> = Vec::new();
    let mut i: usize = 0;
    while i < items.len()
        invariant
            i <= items.len(),
            sv == jv_list(items@),
            sv.len() == items@.len(),
            forall|j: int| 0 <= j < items@.len() ==> #[trigger] sv[j] == jv(items@[j]),
            out@.map_values(|x: (String, String)| (x.0@, x.1@)) == unique_principals(sv.take(i as int)),
            keys@.map_values(|s: String| s@) == unique_principals(sv.take(i as int)).map_values(
                |x: (Seq<char>, Seq<char>)| principal_key(x.0, x.1),
            ),
        decreases items.len() - i,
    {
        assert(sv.take(i + 1).drop_last() =~= sv.take(i as int));
        assert(sv.take(i + 1).last() == items@[i as int]@);
        match (items[i].str_field("principalId"), items[i].str_field("principalType")) {
            (Some(p), Some(t)) => {
                let k = principal_key_of(p.as_str(), t.as_str());
                if !holds_text(&keys, k.as_str()) {
                    let ghost prev = out@;
                    let ghost prevk = keys@;
                    let ghost before = unique_principals(sv.take(i as int));
                    out.push((p.clone(), t.clone()));
                    keys.push(k);
                    assert(out@.map_values(|x: (String, String)| (x.0@, x.1@)) =~= prev.map_values(
                        |x: (String, String)| (x.0@, x.1@),
                    ).push((p@, t@)));
                    assert(keys@.map_values(|s: String| s@) =~= prevk.map_values(|s: String| s@).push(
                        principal_key(p@, t@),
                    ));
                    assert(before.push((p@, t@)).map_values(
                        |x: (Seq<char>, Seq<char>)| principal_key(x.0, x.1),
                    ) =~= before.map_values(
                        |x: (Seq<char>, Seq<char>)| principal_key(x.0, x.1),
                    ).push(principal_key(p@, t@)));
                }
            },
            _ => {},
        }
        i = i + 1;
    }
    assert(sv.take(items.len() as int) =~= sv);
    out
}

/// A role definition as the application shows it, with its display name
/// when one was found.
pub fn role_definition_json(rd: &Json, display: Option<&String>) -> (r: Json)
    ensures
        r@ == role_definition_spec(
            rd@,
            match display {
                Some(n) => Some(n@),
                None => None,
            },
        ),
{
    let mut e: Vec<(String, Json)> = Vec::new();
    push_opt_text(&mut e, "role_definition_id", rd.str_field("id"));
    let ghost e1 = jv_entries(e@);
    match display {
        Some(n) => push_entry(&mut e, "role_name", text(n.as_str())),
        None => push_opt(&mut e, "role_name", first_of_exec(rd, "name", "roleName")),
    }
    assert(jv_entries(e@) =~= e1 + match display {
        Some(n) => seq![("role_name"@, JsonV::Str(n@))],
        None => opt_entry("role_name"@, first_of(rd@, "name"@, "roleName"@)),
    });
    push_opt(&mut e, "description", rd.get("description"));
    push_opt(&mut e, "role_type", rd.get("type"));
    push_definition_scope(&mut e, rd);
    let ghost head = jv_entries(e@);
    keep_rest_exec(&mut e, rd);
    Json::Object(e)
}

/// A role assignment as the application shows it, with the display names
/// of its role and principal when they were found.
pub fn role_assignment_json(ra: &Json, role_display: Option<&String>, principal_display: Option<&String>) -> (r: Json)
    ensures
        r@ == role_assignment_spec(
            ra@,
            match role_display {
                Some(n) => Some(n@),
                None => None,
            },
            match principal_display {
                Some(n) => Some(n@),
                None => None,
            },
        ),
{
    let mut e: Vec<(String, Json)> = Vec::new();
    push_opt(&mut e, "assignment_id", first_of_exec(ra, "name", "id"));
    let ghost e1 = jv_entries(e@);
    match role_display {
        Some(n) => push_entry(&mut e, "role_definition_name", text(n.as_str())),
        None => match ra.get("roleDefinitionName") {
            Some(v) => push_entry(&mut e, "role_definition_name", v.clone()),
            None => match ra.str_field("roleDefinitionId") {
                Some(rid) => if str_has_char(rid.as_str(), '/') {
                    push_entry(&mut e, "role_definition_name", Json::Str(last_path_segment(rid.as_str())));
                },
                None => {},
            },
        },
    }
    let ghost e2 = jv_entries(e@);
    assert(e2 =~= e1 + match role_display {
        Some(n) => seq![("role_definition_name"@, JsonV::Str(n@))],
        None => match ra@.get("roleDefinitionName"@) {
            Some(v) => seq![("role_definition_name"@, v)],
            None => match ra@.str_field("roleDefinitionId"@) {
                Some(r) => if has_char(r, '/') {
                    seq![("role_definition_name"@, JsonV::Str(after_last_slash(r)))]
                } else {
                    Seq::empty()
                },
                None => Seq::empty(),
            },
        },
    });
    push_opt_text(&mut e, "principal_id", ra.str_field("principalId"));
    push_opt_text(&mut e, "principal_type", ra.str_field("principalType"));
    let ghost e3 = jv_entries(e@);
    match principal_display {
        Some(n) => push_entry(&mut e, "principal_name", text(n.as_str())),
        None => match ra.get("principalName") {
            Some(v) => push_entry(&mut e, "principal_name", v.clone()),
            None => match ra.str_field("principalId") {
                Some(p) => push_entry(&mut e, "principal_name", text(p.as_str())),
                None => {},
            },
        },
    }
    assert(jv_entries(e@) =~= e3 + match principal_display {
        Some(n) => seq![("principal_name"@, JsonV::Str(n@))],
        None => match ra@.get("principalName"@) {
            Some(v) => seq![("principal_name"@, v)],
            None => match ra@.str_field("principalId"@) {
                Some(p) => seq![("principal_name"@, JsonV::Str(p))],
                None => Seq::empty(),
            },
        },
    });
    push_opt(&mut e, "scope", ra.get("scope"));
    keep_rest_exec(&mut e, ra);
    Json::Object(e)
}


/// Appends an entry under `k` for the string under `src`, when there is one.
fn push_str_entry(e: &mut Vec<(String, Json)>, k: &str, v: &Json, src: &str)
    ensures
        jv_entries(final(e)@) == jv_entries(old(e)@) + str_entry(k@, v@, src@),
{
    match v.str_field(src) {
        Some(t) => push_entry(e, k, text(t.as_str())),
        None => {},
    }
    assert(jv_entries(e@) =~= jv_entries(old(e)@) + str_entry(k@, v@, src@));
}

/// The record of a web app.
pub fn app_service_json(app: &Json) -> (r: Json)
    ensures
        r@ == app_service_spec(app@),
{
    let mut e: Vec<(String, Json)> = Vec::new();
    push_str_entry(&mut e, "name", app, "name");
    push_str_entry(&mut e, "id", app, "id");
    push_str_entry(&mut e, "resource_group", app, "resourceGroup");
    push_str_entry(&mut e, "location", app, "location");
    push_str_entry(&mut e, "kind", app, "kind");
    push_str_entry(&mut e, "state", app, "state");
    push_str_entry(&mut e, "default_host_name", app, "defaultHostName");
    push_str_entry(&mut e, "service_plan_id", app, "appServicePlanId");
    let ghost e0 = jv_entries(e@);
    match app.get("httpsOnly") {
        Some(Json::Bool(b)) => push_entry(&mut e, "https_only", Json::Bool(*b)),
        _ => {},
    }
    assert(jv_entries(e@) =~= e0 + match app@.get("httpsOnly"@) {
        Some(JsonV::Bool(b)) => seq![("https_only"@, JsonV::Bool(b))],
        _ => Seq::<Entry>::empty(),
    });
    Json::Object(e)
}

/// The record of a function app.
pub fn function_app_json(f: &Json) -> (r: Json)
    ensures
        r@ == function_app_spec(f@),
{
    let mut e: Vec<(String, Json)> = Vec::new();
    push_str_entry(&mut e, "name", f, "name");
    push_str_entry(&mut e, "id", f, "id");
    push_str_entry(&mut e, "resource_group", f, "resourceGroup");
    push_str_entry(&mut e, "location", f, "location");
    push_str_entry(&mut e, "kind", f, "kind");
    push_str_entry(&mut e, "state", f, "state");
    push_str_entry(&mut e, "service_plan_id", f, "appServicePlanId");
    Json::Object(e)
}

/// Whether a web app is a function app.
fn is_function_app_exec(app: &Json) -> (r: bool)
    ensures
        r == is_function_app(app@),
{
    let lower = match app.str_field("kind") {
        Some(k) => crate::generators::naming::lowercase_text(k.as_str()),
        None => {
            proof {
                reveal_strlit("");
            }
            assert(""@ =~= Seq::<char>::empty());
            crate::generators::naming::lowercase_text("")
        },
    };
    assert(lower@ == crate::generators::naming::lowercased(
        match app@.str_field("kind"@) {
            Some(k) => k,
            None => Seq::empty(),
        },
    ));
    contains_exec(lower.as_str(), "functionapp")
}

/// The records of the web apps of a listing that are not function apps.
pub fn app_services_from(listed: &Json) -> (r: Vec<Json>)
    ensures
        jv_list(r@) == app_services_of(items_of(listed@)),
{
    let mut out: Vec<Json> = Vec::new();
    match listed {
        Json::Array(items) => {
            let ghost sv = jv_list(items@);
            proof {
                lemma_jv_list(items@);
            }
            let mut i: usize = 0;
            while i < items.len()
                invariant
                    i <= items.len(),
                    sv == jv_list(items@),
                    sv.len() == items@.len(),
                    forall|j: int| 0 <= j < items@.len() ==> #[trigger] sv[j] == jv(items@[j]),
                    jv_list(out@) == app_services_of(sv.take(i as int)),
                decreases items.len() - i,
            {
                assert(sv.take(i + 1).drop_last() =~= sv.take(i as int));
                assert(sv.take(i + 1).last() == items@[i as int]@);
                if !is_function_app_exec(&items[i]) {
                    push_item(&mut out, app_service_json(&items[i]));
                }
                i = i + 1;
            }
            assert(sv.take(items.len() as int) =~= sv);
        },
        _ => {},
    }
    out
}

/// The records of the function apps of a listing.
pub fn function_apps_from(listed: &Json) -> (r: Vec<Json>)
    ensures
        jv_list(r@) == items_of(listed@).map_values(|f: JsonV| function_app_spec(f)),
{
    let mut out: Vec<Json> = Vec::new();
    match listed {
        Json::Array(items) => {
            let ghost sv = jv_list(items@);
            proof {
                lemma_jv_list(items@);
            }
            let mut i: usize = 0;
            while i < items.len()
                invariant
                    i <= items.len(),
                    sv == jv_list(items@),
                    sv.len() == items@.len(),
                    forall|j: int| 0 <= j < items@.len() ==> #[trigger] sv[j] == jv(items@[j]),
                    jv_list(out@) == sv.take(i as int).map_values(|f: JsonV| function_app_spec(f)),
                decreases items.len() - i,
            {
                push_item(&mut out, function_app_json(&items[i]));
                assert(sv.take(i + 1).map_values(|f: JsonV| function_app_spec(f)) =~= sv.take(
                    i as int,
                ).map_values(|f: JsonV| function_app_spec(f)).push(function_app_spec(sv[i as int])));
                i = i + 1;
            }
            assert(sv.take(items.len() as int) =~= sv);
        },
        _ => {
            assert(Seq::<JsonV>::empty().map_values(|f: JsonV| function_app_spec(f)) =~= Seq::<JsonV>::empty());
        },
    }
    out
}

/// Reads Azure role definitions and assignments for Terraform generation.
pub struct AzureIamScanner {
    config: ScanConfig,
}

impl AzureIamScanner {
    /// The scan request this scanner serves.
    pub closed spec fn config_spec(&self) -> ScanConfig {
        self.config
    }

    /// A scanner for a request.
    pub fn new(config: ScanConfig) -> (r: Self)
        ensures
            r.config_spec() == config,
    {
        AzureIamScanner { config }
    }

    /// A role definition as the application shows it when no display name
    /// is known.
    pub fn transform_role_definition_basic(rd: &Json) -> (r: Json)
        ensures
            r@ == basic_role_definition_spec(rd@),
    {
        let mut e: Vec<(String, Json)> = Vec::new();
        push_opt(&mut e, "role_definition_id", rd.get("id"));
        push_opt(&mut e, "role_name", first_of_exec(rd, "name", "roleName"));
        push_opt(&mut e, "description", rd.get("description"));
        push_opt(&mut e, "role_type", rd.get("type"));
        push_id_scope(&mut e, rd);
        keep_rest_exec(&mut e, rd);
        Json::Object(e)
    }

    /// The arguments that limit an `az role` listing to the request's
    /// scope.
    pub fn get_scope_args(&self) -> (r: Vec<String>)
        ensures
            r@.map_values(|s: String| s@) == scope_args_spec(self.config_spec()),
    {
        let c = &self.config;
        let mut args: Vec<String> = Vec::new();
        match &c.scope_type {
            Some(t) => if str_eq(t.as_str(), "subscription") {
                push_subscription(&mut args, c);
            } else if str_eq(t.as_str(), "resource_group") {
                match &c.scope_value {
                    Some(v) => {
                        args.push(owned("--scope"));
                        match &c.subscription_id {
                            Some(s) => {
                                let mut p = owned("/subscriptions/");
                                p.append(s.as_str());
                                p.append("/resourceGroups/");
                                p.append(v.as_str());
                                args.push(p);
                            },
                            None => args.push(concat2("/resourceGroups/", v.as_str())),
                        }
                    },
                    None => {},
                }
            } else if str_eq(t.as_str(), "management_group") {
                match &c.scope_value {
                    Some(v) => {
                        args.push(owned("--scope"));
                        args.push(
                            concat2("/providers/Microsoft.Management/managementGroups/", v.as_str()),
                        );
                    },
                    None => {},
                }
            } else {
                push_subscription(&mut args, c);
            },
            None => push_subscription(&mut args, c),
        }
        assert(args@.map_values(|s: String| s@) =~= scope_args_spec(*c));
        args
    }

    /// The `az` arguments that list role definitions in the request's
    /// scope; none when that target is off.
    pub fn role_definition_command(&self) -> (r: Option<Vec<String>>)
        ensures
            match r {
                Some(v) => role_definition_command_spec(self.config_spec()) == Some(
                    v@.map_values(|s: String| s@),
                ),
                None => role_definition_command_spec(self.config_spec()) is None,
            },
    {
        if !self.config.target_enabled("role_definitions") {
            return None;
        }
        Some(self.listing_command("definition"))
    }

    /// The `az` arguments that list role assignments in the request's
    /// scope; none when that target is off.
    pub fn role_assignment_command(&self) -> (r: Option<Vec<String>>)
        ensures
            match r {
                Some(v) => role_assignment_command_spec(self.config_spec()) == Some(
                    v@.map_values(|s: String| s@),
                ),
                None => role_assignment_command_spec(self.config_spec()) is None,
            },
    {
        if !self.config.target_enabled("role_assignments") {
            return None;
        }
        Some(self.listing_command("assignment"))
    }

    fn listing_command(&self, what: &str) -> (r: Vec<String>)
        ensures
            r@.map_values(|s: String| s@) == seq!["role"@, what@, "list"@, "--output"@, "json"@]
                + scope_args_spec(self.config_spec()),
    {
        let mut args: Vec<String> = Vec::new();
        args.push(owned("role"));
        args.push(owned(what));
        args.push(owned("list"));
        args.push(owned("--output"));
        args.push(owned("json"));
        let ghost head = args@;
        let mut scope = self.get_scope_args();
        let ghost sc = scope@;
        args.append(&mut scope);
        assert(args@.map_values(|s: String| s@) =~= head.map_values(|s: String| s@) + sc.map_values(
            |s: String| s@,
        ));
        assert(head.map_values(|s: String| s@) =~= seq!["role"@, what@, "list"@, "--output"@, "json"@]);
        args
    }

    /// The role definitions shown for a listing, given the display names
    /// looked up for their ids (none when they could not be looked up).
    pub fn scan_role_definitions(&self, listed: &Json, names: Option<&Vec<(String, Option<String>)>>) -> (r: Result<Vec<Json>, String>)
        ensures
            match r {
                Ok(v) => role_definitions_spec(
                    self.config_spec(),
                    listed@,
                    match names {
                        Some(t) => Some(t@),
                        None => None,
                    },
                ) == Ok::<Seq<JsonV>, Seq<char>>(jv_list(v@)),
                Err(e) => role_definitions_spec(
                    self.config_spec(),
                    listed@,
                    match names {
                        Some(t) => Some(t@),
                        None => None,
                    },
                ) == Err::<Seq<JsonV>, Seq<char>>(e@),
            },
    {
        if !self.config.target_enabled("role_definitions") {
            return Ok(Vec::new());
        }
        match listed {
            Json::Array(items) => {
                let kept = filter_by_prefix(&self.config, items, "name", "roleName");
                let ghost kv = jv_list(kept@);
                proof {
                    lemma_jv_list(kept@);
                }
                let mut out: Vec<Json> = Vec::new();
                let mut i: usize = 0;
                while i < kept.len()
                    invariant
                        i <= kept.len(),
                        kv == jv_list(kept@),
                        kv.len() == kept@.len(),
                        forall|j: int| 0 <= j < kept@.len() ==> #[trigger] kv[j] == jv(kept@[j]),
                        jv_list(out@) == match names {
                            None => kv.take(i as int).map_values(|rd: JsonV| basic_role_definition_spec(rd)),
                            Some(t) => kv.take(i as int).map_values(
                                |rd: JsonV| role_definition_spec(rd, definition_display(rd, t@)),
                            ),
                        },
                    decreases kept.len() - i,
                {
                    let rd = &kept[i];
                    let j = match names {
                        None => Self::transform_role_definition_basic(rd),
                        Some(t) => {
                            let display = match rd.str_field("id") {
                                Some(rid) => display_lookup(t, rid.as_str()),
                                None => None,
                            };
                            role_definition_json(rd, display)
                        },
                    };
                    push_item(&mut out, j);
                    proof {
                        match names {
                            None => {
                                assert(kv.take(i + 1).map_values(|rd: JsonV| basic_role_definition_spec(rd))
                                    =~= kv.take(i as int).map_values(
                                    |rd: JsonV| basic_role_definition_spec(rd),
                                ).push(basic_role_definition_spec(kv[i as int])));
                            },
                            Some(t) => {
                                assert(kv.take(i + 1).map_values(
                                    |rd: JsonV| role_definition_spec(rd, definition_display(rd, t@)),
                                ) =~= kv.take(i as int).map_values(
                                    |rd: JsonV| role_definition_spec(rd, definition_display(rd, t@)),
                                ).push(role_definition_spec(kv[i as int], definition_display(kv[i as int], t@))));
                            },
                        }
                    }
                    i = i + 1;
                }
                assert(kv.take(kept.len() as int) =~= kv);
                Ok(out)
            },
            _ => Err(owned("Role Definitions一覧が配列形式ではありません")),
        }
    }

    /// The role assignments shown for a listing, given the display names
    /// looked up for roles (by role definition id) and principals (by
    /// principal key), and whether an HTTP client was there to look them up.
    pub fn scan_role_assignments(
        &self,
        listed: &Json,
        role_names: &Vec<(String, Option<String>)>,
        principal_names: &Vec<(String, Option<String>)>,
        http_available: bool,
    ) -> (r: Result<Vec<Json>, String>)
        ensures
            match r {
                Ok(v) => role_assignments_spec(
                    self.config_spec(),
                    listed@,
                    role_names@,
                    principal_names@,
                    http_available,
                ) == Ok::<Seq<JsonV>, Seq<char>>(jv_list(v@)),
                Err(e) => role_assignments_spec(
                    self.config_spec(),
                    listed@,
                    role_names@,
                    principal_names@,
                    http_available,
                ) == Err::<Seq<JsonV>, Seq<char>>(e@),
            },
    {
        if !self.config.target_enabled("role_assignments") {
            return Ok(Vec::new());
        }
        match listed {
            Json::Array(items) => {
                if !http_available {
                    return Ok(Vec::new());
                }
                let kept = filter_by_prefix(&self.config, items, "name", "roleDefinitionName");
                let ghost kv = jv_list(kept@);
                proof {
                    lemma_jv_list(kept@);
                }
                let mut out: Vec<Json> = Vec::new();
                let mut i: usize = 0;
                while i < kept.len()
                    invariant
                        i <= kept.len(),
                        kv == jv_list(kept@),
                        kv.len() == kept@.len(),
                        forall|j: int| 0 <= j < kept@.len() ==> #[trigger] kv[j] == jv(kept@[j]),
                        jv_list(out@) == kv.take(i as int).map_values(
                            |ra: JsonV|
                                role_assignment_spec(
                                    ra,
                                    role_display_of(ra, role_names@),
                                    principal_display_of(ra, principal_names@),
                                ),
                        ),
                    decreases kept.len() - i,
                {
                    let ra = &kept[i];
                    let role_display = match ra.str_field("roleDefinitionId") {
                        Some(rid) => display_lookup(role_names, rid.as_str()),
                        None => None,
                    };
                    let principal_display = match (ra.str_field("principalId"), ra.str_field("principalType")) {
                        (Some(p), Some(t)) => {
                            let k = principal_key_of(p.as_str(), t.as_str());
                            display_lookup(principal_names, k.as_str())
                        },
                        _ => None,
                    };
                    push_item(&mut out, role_assignment_json(ra, role_display, principal_display));
                    assert(kv.take(i + 1).map_values(
                        |ra: JsonV|
                            role_assignment_spec(
                                ra,
                                role_display_of(ra, role_names@),
                                principal_display_of(ra, principal_names@),
                            ),
                    ) =~= kv.take(i as int).map_values(
                        |ra: JsonV|
                            role_assignment_spec(
                                ra,
                                role_display_of(ra, role_names@),
                                principal_display_of(ra, principal_names@),
                            ),
                    ).push(
                        role_assignment_spec(
                            kv[i as int],
                            role_display_of(kv[i as int], role_names@),
                            principal_display_of(kv[i as int], principal_names@),
                        ),
                    ));
                    i = i + 1;
                }
                assert(kv.take(kept.len() as int) =~= kv);
                Ok(out)
            },
            _ => Err(owned("Role Assignments一覧が配列形式ではありません")),
        }
    }

    /// The `az` arguments that list the web apps (`webapp`) or function
    /// apps (`functionapp`) of the request's subscription.
    pub fn web_listing_command(&self, what: &str) -> (r: Vec<String>)
        ensures
            r@.map_values(|s: String| s@) == seq![
                what@,
                "list"@,
                "--subscription"@,
                match self.config_spec().subscription_id {
                    Some(s) => s@,
                    None => Seq::empty(),
                },
                "--output"@,
                "json"@,
            ],
    {
        let mut args: Vec<String> = Vec::new();
        args.push(owned(what));
        args.push(owned("list"));
        args.push(owned("--subscription"));
        match &self.config.subscription_id {
            Some(s) => args.push(s.clone()),
            None => args.push(String::new()),
        }
        args.push(owned("--output"));
        args.push(owned("json"));
        assert(args@.map_values(|s: String| s@) =~= seq![
            what@,
            "list"@,
            "--subscription"@,
            match self.config.subscription_id {
                Some(s) => s@,
                None => Seq::empty(),
            },
            "--output"@,
            "json"@,
        ]);
        args
    }

    /// Whether the request asks for web apps.
    pub fn wants_app_services(&self) -> (r: bool)
        ensures
            r == target_on(self.config_spec().scan_targets@, "app_services"@),
    {
        self.config.target_enabled("app_services")
    }

    /// Whether the request asks for function apps.
    pub fn wants_function_apps(&self) -> (r: bool)
        ensures
            r == target_on(self.config_spec().scan_targets@, "function_apps"@),
    {
        self.config.target_enabled("function_apps")
    }

    /// The result of an Azure scan from what each part gave: the role
    /// definitions and assignments, then the app services and function apps
    /// where their target is on and their listing succeeded (an empty list
    /// otherwise: a failing listing of those is not an error).
    pub fn scan_result(
        &self,
        definitions: Vec<Json>,
        assignments: Vec<Json>,
        apps: Option<Vec<Json>>,
        functions: Option<Vec<Json>>,
    ) -> (r: Json)
        ensures
            r@ == azure_scan_spec(self.config_spec(), jv_list(definitions@), jv_list(assignments@), match apps {
                Some(v) => Some(jv_list(v@)),
                None => None,
            }, match functions {
                Some(v) => Some(jv_list(v@)),
                None => None,
            }),
    {
        let ghost d = jv_list(definitions@);
        let ghost a = jv_list(assignments@);
        let app_list = if self.wants_app_services() {
            match apps {
                Some(v) => v,
                None => Vec::new(),
            }
        } else {
            Vec::new()
        };
        let function_list = if self.wants_function_apps() {
            match functions {
                Some(v) => v,
                None => Vec::new(),
            }
        } else {
            Vec::new()
        };
        let ghost ap = jv_list(app_list@);
        let ghost fp = jv_list(function_list@);
        let mut e: Vec<(String, Json)> = Vec::new();
        push_entry(&mut e, "provider", text("azure"));
        push_entry(&mut e, "role_definitions", Json::Array(definitions));
        push_entry(&mut e, "role_assignments", Json::Array(assignments));
        push_entry(&mut e, "app_services", Json::Array(app_list));
        push_entry(&mut e, "function_apps", Json::Array(function_list));
        assert(jv_entries(e@) =~= seq![
            ("provider"@, JsonV::Str("azure"@)),
            ("role_definitions"@, JsonV::Array(d)),
            ("role_assignments"@, JsonV::Array(a)),
            ("app_services"@, JsonV::Array(ap)),
            ("function_apps"@, JsonV::Array(fp)),
        ]);
        Json::Object(e)
    }
}

/// The list an optional part of a scan contributes: what it gave when its
/// target is on and it succeeded, nothing otherwise.
pub open spec fn part_or_empty(on: bool, part: Option<Seq<JsonV>>) -> Seq<JsonV> {
    if on {
        match part {
            Some(v) => v,
            None => Seq::empty(),
        }
    } else {
        Seq::empty()
    }
}

/// The text of `s` up to its first `/` (all of it when there is none).
pub open spec fn up_to_slash(s: Seq<char>) -> Seq<char>
    decreases s.len(),
{
    if s.len() == 0 {
        s
    } else if s[0] == '/' {
        Seq::empty()
    } else {
        seq![s[0]] + up_to_slash(s.drop_first())
    }
}

/// The address at which the display name of a role definition is looked
/// up: its subscription and role id are taken from a full
/// `/subscriptions/...` id, or the id is the role id and the request's
/// subscription is used; none without a subscription.
pub open spec fn role_display_url_spec(rid: Seq<char>, subscription: Option<Seq<char>>) -> Option<Seq<char>> {
    let full = crate::text::starts_with(rid, "/subscriptions/"@);
    let sub = if full {
        Some(up_to_slash(rid.skip(15)))
    } else {
        subscription
    };
    let role = if full {
        after_last_slash(rid)
    } else {
        rid
    };
    match sub {
        Some(x) => Some(
            "https://management.azure.com/subscriptions/"@ + x + "/providers/Microsoft.Authorization/roleDefinitions/"@
                + role + "?api-version=2022-04-01"@,
        ),
        None => None,
    }
}

/// The address at which the display name of a principal is looked up, by
/// its kind; none for a kind other than a user or a service principal.
pub open spec fn principal_display_url_spec(id: Seq<char>, kind: Option<Seq<char>>) -> Option<Seq<char>> {
    match kind {
        Some(k) => if k == "User"@ {
            Some("https://graph.microsoft.com/v1.0/users/"@ + id)
        } else if k == "ServicePrincipal"@ {
            Some("https://graph.microsoft.com/v1.0/servicePrincipals/"@ + id)
        } else {
            None
        },
        None => None,
    }
}

/// The display name in a principal lookup's reply: `displayName` when that
/// key is there (and holds text), else `appDisplayName`.
pub open spec fn principal_display_name_spec(reply: JsonV) -> Option<Seq<char>> {
    match reply.get("displayName"@) {
        Some(v) => v.as_str(),
        None => match reply.get("appDisplayName"@) {
            Some(v) => v.as_str(),
            None => None,
        },
    }
}

/// The display name in a role definition lookup's reply: the localized
/// `properties.displayName` when it is non-empty text, else
/// `properties.roleName`.
pub open spec fn role_display_name_spec(reply: JsonV) -> Option<Seq<char>> {
    match reply.get("properties"@) {
        Some(p) => match p.get("displayName"@) {
            Some(JsonV::Str(n)) if n.len() > 0 => Some(n),
            _ => match p.get("roleName"@) {
                Some(JsonV::Str(n)) => Some(n),
                _ => None,
            },
        },
        None => None,
    }
}

/// The text of `s` up to its first `/`.
pub fn text_up_to_slash(s: &Vec<char>, from: usize) -> (r: String)
    requires
        from <= s.len(),
    ensures
        r@ == up_to_slash(s@.skip(from as int)),
    decreases s.len() - from,
{
    if from == s.len() {
        assert(s@.skip(from as int) =~= Seq::<char>::empty());
        String::new()
    } else if s[from] == '/' {
        String::new()
    } else {
        let rest = text_up_to_slash(s, from + 1);
        assert(s@.skip(from as int).drop_first() =~= s@.skip(from + 1));
        let mut r = String::new();
        crate::text::push_char(&mut r, s[from]);
        r.append(rest.as_str());
        r
    }
}

/// The address at which a role definition's display name is looked up.
pub fn role_display_url(role_definition_id: &str, subscription_id: Option<&str>) -> (r: Option<String>)
    ensures
        match r {
            Some(u) => role_display_url_spec(role_definition_id@, match subscription_id {
                Some(x) => Some(x@),
                None => None,
            }) == Some(u@),
            None => role_display_url_spec(role_definition_id@, match subscription_id {
                Some(x) => Some(x@),
                None => None,
            }) is None,
        },
{
    proof {
        reveal_strlit("/subscriptions/");
    }
    let full = crate::text::str_starts_with(role_definition_id, "/subscriptions/");
    let (sub, role) = if full {
        let cs = chars_of(role_definition_id);
        (Some(text_up_to_slash(&cs, 15)), last_path_segment(role_definition_id))
    } else {
        match subscription_id {
            Some(x) => (Some(owned(x)), owned(role_definition_id)),
            None => (None, owned(role_definition_id)),
        }
    };
    match sub {
        Some(x) => {
            let mut u = owned("https://management.azure.com/subscriptions/");
            u.append(x.as_str());
            u.append("/providers/Microsoft.Authorization/roleDefinitions/");
            u.append(role.as_str());
            u.append("?api-version=2022-04-01");
            Some(u)
        },
        None => None,
    }
}

/// The address at which a principal's display name is looked up.
pub fn principal_display_url(principal_id: &str, principal_type: Option<&str>) -> (r: Option<String>)
    ensures
        match r {
            Some(u) => principal_display_url_spec(principal_id@, match principal_type {
                Some(x) => Some(x@),
                None => None,
            }) == Some(u@),
            None => principal_display_url_spec(principal_id@, match principal_type {
                Some(x) => Some(x@),
                None => None,
            }) is None,
        },
{
    match principal_type {
        Some(t) => if str_eq(t, "User") {
            Some(concat2("https://graph.microsoft.com/v1.0/users/", principal_id))
        } else if str_eq(t, "ServicePrincipal") {
            Some(concat2("https://graph.microsoft.com/v1.0/servicePrincipals/", principal_id))
        } else {
            None
        },
        None => None,
    }
}

/// The display name in a principal lookup's reply.
pub fn principal_display_name_in(reply: &Json) -> (r: Option<String>)
    ensures
        match r {
            Some(n) => principal_display_name_spec(reply@) == Some(n@),
            None => principal_display_name_spec(reply@) is None,
        },
{
    let v = match reply.get("displayName") {
        Some(v) => Some(v),
        None => reply.get("appDisplayName"),
    };
    match v {
        Some(j) => match j.as_str() {
            Some(n) => Some(n.clone()),
            None => None,
        },
        None => None,
    }
}

/// The display name in a role definition lookup's reply.
pub fn role_display_name_in(reply: &Json) -> (r: Option<String>)
    ensures
        match r {
            Some(n) => role_display_name_spec(reply@) == Some(n@),
            None => role_display_name_spec(reply@) is None,
        },
{
    match reply.get("properties") {
        Some(p) => {
            let localized = match p.get("displayName") {
                Some(Json::Str(n)) => if n.as_str().unicode_len() > 0 {
                    Some(n.clone())
                } else {
                    None
                },
                _ => None,
            };
            match localized {
                Some(n) => Some(n),
                None => match p.get("roleName") {
                    Some(Json::Str(n)) => Some(n.clone()),
                    _ => None,
                },
            }
        },
        None => None,
    }
}

/// The result object of an Azure scan.
pub open spec fn azure_scan_spec(
    c: ScanConfig,
    definitions: Seq<JsonV>,
    assignments: Seq<JsonV>,
    apps: Option<Seq<JsonV>>,
    functions: Option<Seq<JsonV>>,
) -> JsonV {
    JsonV::Object(
        seq![
            ("provider"@, JsonV::Str("azure"@)),
            ("role_definitions"@, JsonV::Array(definitions)),
            ("role_assignments"@, JsonV::Array(assignments)),
            ("app_services"@, JsonV::Array(part_or_empty(target_on(c.scan_targets@, "app_services"@), apps))),
            ("function_apps"@, JsonV::Array(part_or_empty(target_on(c.scan_targets@, "function_apps"@), functions))),
        ],
    )
}

} // verus!
