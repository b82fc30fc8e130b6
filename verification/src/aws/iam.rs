use vstd::prelude::*;
use vstd::string::*;
use std::sync::Arc;
use crate::aws::policy::{assume_role_spec, assume_role_statements, decode_or_keep, decoded_or_same};
use crate::json::{clone_list, insert_entry, insert_spec, jv_entries, jv_list, lemma_jv_list, push_entry, push_item, text, Json, JsonV};
use crate::aws::targets::{law_targets_progress, lemma_percent_bounds, lemma_rising_concat, listed_view, n_active, outcome, outcome_of, outcome_view, record_targets, rising_within, targets_spec, targets_view, OutcomeV, TargetOutcome};
use crate::models::request::{count_enabled, count_on, name_prefix_ok, target_on, ScanConfig};
use crate::text::{i64_text, int_text, owned};
use crate::aws::progress::{done_message, events_view, percent_spec, scanning_message, ScanProgress};

verus! {

/// An IAM user as listed by AWS.
#[derive(Debug)]
pub struct IamUserInfo {
    pub user_name: String,
    pub user_id: String,
    pub arn: String,
    pub create_date: i64,
    pub path: String,
    pub tags: Vec<(String, String)>,
}

/// An IAM group as listed by AWS.
#[derive(Debug)]
pub struct IamGroupInfo {
    pub group_name: String,
    pub group_id: String,
    pub arn: String,
    pub create_date: i64,
    pub path: String,
}

/// An IAM role as listed by AWS.
#[derive(Debug)]
pub struct IamRoleInfo {
    pub role_name: String,
    pub role_id: String,
    pub arn: String,
    pub create_date: i64,
    pub path: String,
    pub assume_role_policy_document: Option<String>,
    pub tags: Vec<(String, String)>,
}

/// A customer-managed IAM policy as listed by AWS.
#[derive(Debug)]
pub struct IamPolicyInfo {
    pub policy_name: String,
    pub policy_id: String,
    pub arn: String,
    pub path: String,
    pub default_version_id: String,
    pub attachment_count: i32,
    pub create_date: i64,
    pub update_date: i64,
    pub description: String,
}

/// A managed policy attached to a user, group or role.
#[derive(Debug)]
pub struct PolicyAttachment {
    pub policy_arn: String,
    pub policy_name: Option<String>,
}

/// The text of a policy version.
#[derive(Debug)]
pub struct PolicyDocument {
    pub document: String,
}

/// The IAM calls a scan makes; implemented over the AWS SDK by the
/// application and by test doubles.
pub trait IamClientOps {
    fn list_users(&self) -> Result<Vec<IamUserInfo>, String>;

    fn list_users_with_options(&self, include_tags: bool) -> Result<Vec<IamUserInfo>, String>;

    fn list_groups(&self) -> Result<Vec<IamGroupInfo>, String>;

    fn list_roles(&self) -> Result<Vec<IamRoleInfo>, String>;

    fn list_roles_with_options(&self, include_tags: bool) -> Result<Vec<IamRoleInfo>, String>;

    fn list_policies(&self) -> Result<Vec<IamPolicyInfo>, String>;

    fn list_user_policies(&self, user_name: &str) -> Result<Vec<String>, String>;

    fn list_attached_user_policies(&self, user_name: &str) -> Result<Vec<PolicyAttachment>, String>;

    fn list_group_policies(&self, group_name: &str) -> Result<Vec<String>, String>;

    fn list_attached_group_policies(&self, group_name: &str) -> Result<Vec<PolicyAttachment>, String>;

    fn list_role_policies(&self, role_name: &str) -> Result<Vec<String>, String>;

    fn list_attached_role_policies(&self, role_name: &str) -> Result<Vec<PolicyAttachment>, String>;

    fn list_groups_for_user(&self, user_name: &str) -> Result<Vec<String>, String>;

    fn get_policy_version(&self, policy_arn: &str, version_id: &str) -> Result<Option<PolicyDocument>, String>;
}


/// The record of an inline policy of a user, group or role.
pub open spec fn inline_spec(owner_key: Seq<char>, owner: Seq<char>, policy: Seq<char>) -> JsonV {
    JsonV::Object(
        seq![
            (owner_key, JsonV::Str(owner)),
            ("policy_name"@, JsonV::Str(policy)),
            ("policy_type"@, JsonV::Str("inline"@)),
        ],
    )
}

/// The record of a managed policy attached to a user, group or role.
pub open spec fn managed_spec(owner_key: Seq<char>, owner: Seq<char>, arn: Seq<char>) -> JsonV {
    JsonV::Object(
        seq![
            (owner_key, JsonV::Str(owner)),
            ("policy_arn"@, JsonV::Str(arn)),
            ("policy_type"@, JsonV::Str("managed"@)),
        ],
    )
}

/// The record of a user's membership in a group.
pub open spec fn membership_spec(user: Seq<char>, group: Seq<char>) -> JsonV {
    JsonV::Object(seq![("user_name"@, JsonV::Str(user)), ("group_name"@, JsonV::Str(group))])
}

/// The names found under `key` in a list of records, in order.
pub open spec fn names_in(records: Seq<JsonV>, key: Seq<char>) -> Seq<Seq<char>>
    decreases records.len(),
{
    if records.len() == 0 {
        Seq::empty()
    } else {
        let rest = names_in(records.drop_last(), key);
        match records.last().str_field(key) {
            Some(n) => rest.push(n),
            None => rest,
        }
    }
}

/// A JSON number holding an integer.
pub open spec fn num(n: int) -> JsonV {
    JsonV::Number(int_text(n))
}

/// Tags as a JSON object from key to value.
pub open spec fn tags_spec(tags: Seq<(String, String)>) -> JsonV {
    JsonV::Object(tags.map_values(|p: (String, String)| (p.0@, JsonV::Str(p.1@))))
}

/// The entries, with a `tags` object appended when there are tags.
pub open spec fn with_tags(
    base: Seq<(Seq<char>, JsonV)>,
    tags: Seq<(String, String)>,
) -> Seq<(Seq<char>, JsonV)> {
    if tags.len() == 0 {
        base
    } else {
        base.push(("tags"@, tags_spec(tags)))
    }
}

/// The scan record of a user.
pub open spec fn user_spec(u: IamUserInfo) -> JsonV {
    JsonV::Object(
        with_tags(
            seq![
                ("user_name"@, JsonV::Str(u.user_name@)),
                ("user_id"@, JsonV::Str(u.user_id@)),
                ("arn"@, JsonV::Str(u.arn@)),
                ("create_date"@, num(u.create_date as int)),
                ("path"@, JsonV::Str(u.path@)),
            ],
            u.tags@,
        ),
    )
}

/// The scan record of a group.
pub open spec fn group_spec(g: IamGroupInfo) -> JsonV {
    JsonV::Object(
        seq![
            ("group_name"@, JsonV::Str(g.group_name@)),
            ("group_id"@, JsonV::Str(g.group_id@)),
            ("arn"@, JsonV::Str(g.arn@)),
            ("create_date"@, num(g.create_date as int)),
            ("path"@, JsonV::Str(g.path@)),
        ],
    )
}

/// The scan record of a role: its fields, the summaries of its trust
/// policy, the decoded trust-policy text when it has one, and its tags.
pub open spec fn role_spec(r: IamRoleInfo) -> JsonV {
    let statements = match r.assume_role_policy_document {
        Some(d) => assume_role_spec(d@),
        None => Seq::empty(),
    };
    let base = seq![
        ("role_name"@, JsonV::Str(r.role_name@)),
        ("role_id"@, JsonV::Str(r.role_id@)),
        ("arn"@, JsonV::Str(r.arn@)),
        ("create_date"@, num(r.create_date as int)),
        ("path"@, JsonV::Str(r.path@)),
        ("assume_role_statements"@, JsonV::Array(statements)),
    ];
    let with_doc = match r.assume_role_policy_document {
        Some(d) => base.push(("assume_role_policy_document"@, JsonV::Str(decoded_or_same(d@)))),
        None => base,
    };
    JsonV::Object(with_tags(with_doc, r.tags@))
}

/// The scan record of a policy.
pub open spec fn policy_spec(p: IamPolicyInfo) -> JsonV {
    JsonV::Object(
        seq![
            ("policy_name"@, JsonV::Str(p.policy_name@)),
            ("policy_id"@, JsonV::Str(p.policy_id@)),
            ("arn"@, JsonV::Str(p.arn@)),
            ("path"@, JsonV::Str(p.path@)),
            ("default_version_id"@, JsonV::Str(p.default_version_id@)),
            ("attachment_count"@, num(p.attachment_count as int)),
            ("create_date"@, num(p.create_date as int)),
            ("update_date"@, num(p.update_date as int)),
            ("description"@, JsonV::Str(p.description@)),
        ],
    )
}

/// The records of the users whose names pass the prefix filter, in order.
pub open spec fn users_spec(f: Seq<(String, String)>, us: Seq<IamUserInfo>) -> Seq<JsonV>
    decreases us.len(),
{
    if us.len() == 0 {
        Seq::empty()
    } else {
        let rest = users_spec(f, us.drop_last());
        if name_prefix_ok(f, us.last().user_name@) {
            rest.push(user_spec(us.last()))
        } else {
            rest
        }
    }
}

/// The records of the groups whose names pass the prefix filter, in order.
pub open spec fn groups_spec(f: Seq<(String, String)>, gs: Seq<IamGroupInfo>) -> Seq<JsonV>
    decreases gs.len(),
{
    if gs.len() == 0 {
        Seq::empty()
    } else {
        let rest = groups_spec(f, gs.drop_last());
        if name_prefix_ok(f, gs.last().group_name@) {
            rest.push(group_spec(gs.last()))
        } else {
            rest
        }
    }
}

/// The records of the roles whose names pass the prefix filter, in order.
pub open spec fn roles_spec(f: Seq<(String, String)>, rs: Seq<IamRoleInfo>) -> Seq<JsonV>
    decreases rs.len(),
{
    if rs.len() == 0 {
        Seq::empty()
    } else {
        let rest = roles_spec(f, rs.drop_last());
        if name_prefix_ok(f, rs.last().role_name@) {
            rest.push(role_spec(rs.last()))
        } else {
            rest
        }
    }
}

/// The records of the policies whose names pass the prefix filter, in order.
pub open spec fn policies_spec(f: Seq<(String, String)>, ps: Seq<IamPolicyInfo>) -> Seq<JsonV>
    decreases ps.len(),
{
    if ps.len() == 0 {
        Seq::empty()
    } else {
        let rest = policies_spec(f, ps.drop_last());
        if name_prefix_ok(f, ps.last().policy_name@) {
            rest.push(policy_spec(ps.last()))
        } else {
            rest
        }
    }
}

/// A JSON number holding an integer.
pub fn number(n: i64) -> (r: Json)
    ensures
        r@ == num(n as int),
{
    Json::Number(i64_text(n))
}

/// Tags as a JSON object.
pub fn tags_json(tags: &Vec<(String, String)>) -> (r: Json)
    ensures
        r@ == tags_spec(tags@),
{
    let mut e: Vec<(String, Json)> = Vec::new();
    let mut i: usize = 0;
    while i < tags.len()
        invariant
            i <= tags.len(),
            jv_entries(e@) == tags@.take(i as int).map_values(
                |p: (String, String)| (p.0@, JsonV::Str(p.1@)),
            ),
        decreases tags.len() - i,
    {
        push_entry(&mut e, tags[i].0.as_str(), text(tags[i].1.as_str()));
        assert(tags@.take(i + 1).map_values(|p: (String, String)| (p.0@, JsonV::Str(p.1@)))
            =~= tags@.take(i as int).map_values(
            |p: (String, String)| (p.0@, JsonV::Str(p.1@)),
        ).push((tags@[i as int].0@, JsonV::Str(tags@[i as int].1@))));
        i = i + 1;
    }
    assert(tags@.take(tags.len() as int) =~= tags@);
    Json::Object(e)
}

/// The scan record of a user.
pub fn user_json(u: &IamUserInfo) -> (r: Json)
    ensures
        r@ == user_spec(*u),
{
    let mut e: Vec<(String, Json)> = Vec::new();
    push_entry(&mut e, "user_name", text(u.user_name.as_str()));
    push_entry(&mut e, "user_id", text(u.user_id.as_str()));
    push_entry(&mut e, "arn", text(u.arn.as_str()));
    push_entry(&mut e, "create_date", number(u.create_date));
    push_entry(&mut e, "path", text(u.path.as_str()));
    assert(jv_entries(e@) =~= seq![
        ("user_name"@, JsonV::Str(u.user_name@)),
        ("user_id"@, JsonV::Str(u.user_id@)),
        ("arn"@, JsonV::Str(u.arn@)),
        ("create_date"@, num(u.create_date as int)),
        ("path"@, JsonV::Str(u.path@)),
    ]);
    if u.tags.len() > 0 {
        push_entry(&mut e, "tags", tags_json(&u.tags));
    }
    Json::Object(e)
}

/// The scan record of a group.
pub fn group_json(g: &IamGroupInfo) -> (r: Json)
    ensures
        r@ == group_spec(*g),
{
    let mut e: Vec<(String, Json)> = Vec::new();
    push_entry(&mut e, "group_name", text(g.group_name.as_str()));
    push_entry(&mut e, "group_id", text(g.group_id.as_str()));
    push_entry(&mut e, "arn", text(g.arn.as_str()));
    push_entry(&mut e, "create_date", number(g.create_date));
    push_entry(&mut e, "path", text(g.path.as_str()));
    assert(jv_entries(e@) =~= seq![
        ("group_name"@, JsonV::Str(g.group_name@)),
        ("group_id"@, JsonV::Str(g.group_id@)),
        ("arn"@, JsonV::Str(g.arn@)),
        ("create_date"@, num(g.create_date as int)),
        ("path"@, JsonV::Str(g.path@)),
    ]);
    Json::Object(e)
}

/// The scan record of a role.
pub fn role_json(r: &IamRoleInfo) -> (out: Json)
    ensures
        out@ == role_spec(*r),
{
    let statements = match &r.assume_role_policy_document {
        Some(d) => assume_role_statements(d.as_str()),
        None => Vec::new(),
    };
    let mut e: Vec<(String, Json)> = Vec::new();
    push_entry(&mut e, "role_name", text(r.role_name.as_str()));
    push_entry(&mut e, "role_id", text(r.role_id.as_str()));
    push_entry(&mut e, "arn", text(r.arn.as_str()));
    push_entry(&mut e, "create_date", number(r.create_date));
    push_entry(&mut e, "path", text(r.path.as_str()));
    push_entry(&mut e, "assume_role_statements", Json::Array(statements));
    assert(jv_entries(e@) =~= seq![
        ("role_name"@, JsonV::Str(r.role_name@)),
        ("role_id"@, JsonV::Str(r.role_id@)),
        ("arn"@, JsonV::Str(r.arn@)),
        ("create_date"@, num(r.create_date as int)),
        ("path"@, JsonV::Str(r.path@)),
        ("assume_role_statements"@, JsonV::Array(
            match r.assume_role_policy_document {
                Some(d) => assume_role_spec(d@),
                None => Seq::empty(),
            },
        )),
    ]);
    let ghost base = jv_entries(e@);
    match &r.assume_role_policy_document {
        Some(d) => {
            let decoded = decode_or_keep(d.as_str());
            push_entry(&mut e, "assume_role_policy_document", Json::Str(decoded));
        },
        None => {},
    }
    let ghost with_doc = jv_entries(e@);
    assert(with_doc == match r.assume_role_policy_document {
        Some(d) => base.push(("assume_role_policy_document"@, JsonV::Str(decoded_or_same(d@)))),
        None => base,
    });
    if r.tags.len() > 0 {
        push_entry(&mut e, "tags", tags_json(&r.tags));
    }
    assert(jv_entries(e@) == with_tags(with_doc, r.tags@));
    proof {
        let st: Seq<JsonV> = match &r.assume_role_policy_document {
            Some(d) => assume_role_spec(d@),
            None => Seq::empty(),
        };
        assert(base =~= seq![
            ("role_name"@, JsonV::Str(r.role_name@)),
            ("role_id"@, JsonV::Str(r.role_id@)),
            ("arn"@, JsonV::Str(r.arn@)),
            ("create_date"@, num(r.create_date as int)),
            ("path"@, JsonV::Str(r.path@)),
            ("assume_role_statements"@, JsonV::Array(st)),
        ]);
    }
    Json::Object(e)
}

/// The scan record of a policy.
pub fn policy_json(p: &IamPolicyInfo) -> (r: Json)
    ensures
        r@ == policy_spec(*p),
{
    let mut e: Vec<(String, Json)> = Vec::new();
    push_entry(&mut e, "policy_name", text(p.policy_name.as_str()));
    push_entry(&mut e, "policy_id", text(p.policy_id.as_str()));
    push_entry(&mut e, "arn", text(p.arn.as_str()));
    push_entry(&mut e, "path", text(p.path.as_str()));
    push_entry(&mut e, "default_version_id", text(p.default_version_id.as_str()));
    push_entry(&mut e, "attachment_count", number(p.attachment_count as i64));
    push_entry(&mut e, "create_date", number(p.create_date));
    push_entry(&mut e, "update_date", number(p.update_date));
    push_entry(&mut e, "description", text(p.description.as_str()));
    assert(jv_entries(e@) =~= seq![
        ("policy_name"@, JsonV::Str(p.policy_name@)),
        ("policy_id"@, JsonV::Str(p.policy_id@)),
        ("arn"@, JsonV::Str(p.arn@)),
        ("path"@, JsonV::Str(p.path@)),
        ("default_version_id"@, JsonV::Str(p.default_version_id@)),
        ("attachment_count"@, num(p.attachment_count as int)),
        ("create_date"@, num(p.create_date as int)),
        ("update_date"@, num(p.update_date as int)),
        ("description"@, JsonV::Str(p.description@)),
    ]);
    Json::Object(e)
}


/// Appends the records of a user's, group's or role's inline policies.
pub fn push_inline(out: &mut Vec<Json>, owner_key: &str, owner: &str, policies: &Vec<String>)
    ensures
        jv_list(final(out)@) == jv_list(old(out)@) + policies@.map_values(
            |p: String| inline_spec(owner_key@, owner@, p@),
        ),
{
    let ghost start = jv_list(out@);
    let mut i: usize = 0;
    while i < policies.len()
        invariant
            i <= policies.len(),
            jv_list(out@) == start + policies@.take(i as int).map_values(
                |p: String| inline_spec(owner_key@, owner@, p@),
            ),
        decreases policies.len() - i,
    {
        let mut e: Vec<(String, Json)> = Vec::new();
        push_entry(&mut e, owner_key, text(owner));
        push_entry(&mut e, "policy_name", text(policies[i].as_str()));
        push_entry(&mut e, "policy_type", text("inline"));
        assert(jv_entries(e@) =~= seq![
            (owner_key@, JsonV::Str(owner@)),
            ("policy_name"@, JsonV::Str(policies@[i as int]@)),
            ("policy_type"@, JsonV::Str("inline"@)),
        ]);
        push_item(out, Json::Object(e));
        assert(policies@.take(i + 1).map_values(|p: String| inline_spec(owner_key@, owner@, p@))
            =~= policies@.take(i as int).map_values(
            |p: String| inline_spec(owner_key@, owner@, p@),
        ).push(inline_spec(owner_key@, owner@, policies@[i as int]@)));
        i = i + 1;
    }
    assert(policies@.take(policies.len() as int) =~= policies@);
}

/// Appends the records of the managed policies attached to a user, group
/// or role.
pub fn push_managed(out: &mut Vec<Json>, owner_key: &str, owner: &str, attached: &Vec<PolicyAttachment>)
    ensures
        jv_list(final(out)@) == jv_list(old(out)@) + attached@.map_values(
            |a: PolicyAttachment| managed_spec(owner_key@, owner@, a.policy_arn@),
        ),
{
    let ghost start = jv_list(out@);
    let mut i: usize = 0;
    while i < attached.len()
        invariant
            i <= attached.len(),
            jv_list(out@) == start + attached@.take(i as int).map_values(
                |a: PolicyAttachment| managed_spec(owner_key@, owner@, a.policy_arn@),
            ),
        decreases attached.len() - i,
    {
        let mut e: Vec<(String, Json)> = Vec::new();
        push_entry(&mut e, owner_key, text(owner));
        push_entry(&mut e, "policy_arn", text(attached[i].policy_arn.as_str()));
        push_entry(&mut e, "policy_type", text("managed"));
        assert(jv_entries(e@) =~= seq![
            (owner_key@, JsonV::Str(owner@)),
            ("policy_arn"@, JsonV::Str(attached@[i as int].policy_arn@)),
            ("policy_type"@, JsonV::Str("managed"@)),
        ]);
        push_item(out, Json::Object(e));
        assert(attached@.take(i + 1).map_values(
            |a: PolicyAttachment| managed_spec(owner_key@, owner@, a.policy_arn@),
        ) =~= attached@.take(i as int).map_values(
            |a: PolicyAttachment| managed_spec(owner_key@, owner@, a.policy_arn@),
        ).push(managed_spec(owner_key@, owner@, attached@[i as int].policy_arn@)));
        i = i + 1;
    }
    assert(attached@.take(attached.len() as int) =~= attached@);
}

/// Appends the records of a user's group memberships.
pub fn push_memberships(out: &mut Vec<Json>, user: &str, groups: &Vec<String>)
    ensures
        jv_list(final(out)@) == jv_list(old(out)@) + groups@.map_values(
            |g: String| membership_spec(user@, g@),
        ),
{
    let ghost start = jv_list(out@);
    let mut i: usize = 0;
    while i < groups.len()
        invariant
            i <= groups.len(),
            jv_list(out@) == start + groups@.take(i as int).map_values(
                |g: String| membership_spec(user@, g@),
            ),
        decreases groups.len() - i,
    {
        let mut e: Vec<(String, Json)> = Vec::new();
        push_entry(&mut e, "user_name", text(user));
        push_entry(&mut e, "group_name", text(groups[i].as_str()));
        assert(jv_entries(e@) =~= seq![
            ("user_name"@, JsonV::Str(user@)),
            ("group_name"@, JsonV::Str(groups@[i as int]@)),
        ]);
        push_item(out, Json::Object(e));
        assert(groups@.take(i + 1).map_values(|g: String| membership_spec(user@, g@))
            =~= groups@.take(i as int).map_values(|g: String| membership_spec(user@, g@)).push(
            membership_spec(user@, groups@[i as int]@),
        ));
        i = i + 1;
    }
    assert(groups@.take(groups.len() as int) =~= groups@);
}

/// What each name's attachment lookups gave, in the order of the names:
/// the inline and the managed policies of each user, group and role, and
/// the groups of each user; none where a lookup failed.
pub struct AttachmentLookups {
    pub user_inline: Vec<Option<Vec<String>>>,
    pub user_managed: Vec<Option<Vec<PolicyAttachment>>>,
    pub group_inline: Vec<Option<Vec<String>>>,
    pub group_managed: Vec<Option<Vec<PolicyAttachment>>>,
    pub role_inline: Vec<Option<Vec<String>>>,
    pub role_managed: Vec<Option<Vec<PolicyAttachment>>>,
    pub user_groups: Vec<Option<Vec<String>>>,
}

/// The policy records of the owners, owner by owner: the inline policies
/// and then the managed ones that were found for each.
pub fn owner_policies(
    owner_key: &str,
    owners: &Vec<String>,
    inline: &Vec<Option<Vec<String>>>,
    managed: &Vec<Option<Vec<PolicyAttachment>>>,
) -> (r: Vec<Json>)
    ensures
        jv_list(r@) == owner_policies_spec(
            owner_key@,
            owners@.map_values(|s: String| s@),
            inline@,
            managed@,
            owners.len() as int,
        ),
{
    let ghost names = owners@.map_values(|s: String| s@);
    let mut out: Vec<Json> = Vec::new();
    let mut i: usize = 0;
    while i < owners.len()
        invariant
            i <= owners.len(),
            names == owners@.map_values(|s: String| s@),
            jv_list(out@) == owner_policies_spec(owner_key@, names, inline@, managed@, i as int),
        decreases owners.len() - i,
    {
        let n = owners[i].as_str();
        assert(names[i as int] == n@);
        let ghost before = jv_list(out@);
        if i < inline.len() {
            match &inline[i] {
                Some(p) => push_inline(&mut out, owner_key, n, p),
                None => {},
            }
        }
        assert(jv_list(out@) == before + inline_records(owner_key@, n@, opt_at(inline@, i as int)));
        let ghost mid = jv_list(out@);
        if i < managed.len() {
            match &managed[i] {
                Some(a) => push_managed(&mut out, owner_key, n, a),
                None => {},
            }
        }
        assert(jv_list(out@) == mid + managed_records(owner_key@, n@, opt_at(managed@, i as int)));
        i = i + 1;
    }
    out
}

/// The group memberships of the users, user by user, as found for each.
pub fn memberships(users: &Vec<String>, groups: &Vec<Option<Vec<String>>>) -> (r: Vec<Json>)
    ensures
        jv_list(r@) == memberships_spec(users@.map_values(|s: String| s@), groups@, users.len() as int),
{
    let ghost names = users@.map_values(|s: String| s@);
    let mut out: Vec<Json> = Vec::new();
    let mut i: usize = 0;
    while i < users.len()
        invariant
            i <= users.len(),
            names == users@.map_values(|s: String| s@),
            jv_list(out@) == memberships_spec(names, groups@, i as int),
        decreases users.len() - i,
    {
        let n = users[i].as_str();
        assert(names[i as int] == n@);
        if i < groups.len() {
            match &groups[i] {
                Some(g) => push_memberships(&mut out, n, g),
                None => {},
            }
        }
        i = i + 1;
    }
    out
}

/// The attachments object for the user, group and role records, from what
/// each name's lookups gave: the policies of the users, of the groups and
/// of the roles, and the users' group memberships.
pub fn attachments_from(users: &Vec<Json>, groups: &Vec<Json>, roles: &Vec<Json>, lookups: &AttachmentLookups) -> (r: Json)
    ensures
        r@ == attachments_spec(jv_list(users@), jv_list(groups@), jv_list(roles@), *lookups),
{
    let user_names = names_of(users, "user_name");
    let group_names = names_of(groups, "group_name");
    let role_names = names_of(roles, "role_name");
    let user_policies = owner_policies("user_name", &user_names, &lookups.user_inline, &lookups.user_managed);
    let group_policies = owner_policies("group_name", &group_names, &lookups.group_inline, &lookups.group_managed);
    let role_policies = owner_policies("role_name", &role_names, &lookups.role_inline, &lookups.role_managed);
    let user_groups = memberships(&user_names, &lookups.user_groups);
    let ghost up = jv_list(user_policies@);
    let ghost gp = jv_list(group_policies@);
    let ghost rp = jv_list(role_policies@);
    let ghost ug = jv_list(user_groups@);
    let mut e: Vec<(String, Json)> = Vec::new();
    push_entry(&mut e, "user_policies", Json::Array(user_policies));
    push_entry(&mut e, "group_policies", Json::Array(group_policies));
    push_entry(&mut e, "role_policies", Json::Array(role_policies));
    push_entry(&mut e, "user_groups", Json::Array(user_groups));
    assert(jv_entries(e@) =~= seq![
        ("user_policies"@, JsonV::Array(up)),
        ("group_policies"@, JsonV::Array(gp)),
        ("role_policies"@, JsonV::Array(rp)),
        ("user_groups"@, JsonV::Array(ug)),
    ]);
    Json::Object(e)
}

/// The names found under `key` in a list of records, in order.
pub fn names_of(records: &Vec<Json>, key: &str) -> (r: Vec<String>)
    ensures
        r@.map_values(|s: String| s@) == names_in(jv_list(records@), key@),
{
    let ghost sv = jv_list(records@);
    proof {
        lemma_jv_list(records@);
    }
    let mut out: Vec<String> = Vec::new();
    let mut i: usize = 0;
    while i < records.len()
        invariant
            i <= records.len(),
            sv == jv_list(records@),
            sv.len() == records@.len(),
            forall|j: int| 0 <= j < records@.len() ==> #[trigger] sv[j] == crate::json::jv(records@[j]),
            out@.map_values(|s: String| s@) == names_in(sv.take(i as int), key@),
        decreases records.len() - i,
    {
        assert(sv.take(i + 1).drop_last() =~= sv.take(i as int));
        assert(sv.take(i + 1).last() == records@[i as int]@);
        match records[i].str_field(key) {
            Some(n) => {
                let ghost prev = out@;
                out.push(n.clone());
                assert(out@.map_values(|s: String| s@) =~= prev.map_values(|s: String| s@).push(n@));
            },
            None => {},
        }
        i = i + 1;
    }
    assert(sv.take(records.len() as int) =~= sv);
    out
}

/// What the IAM scan's listings and attachment lookups gave.
pub struct IamFound {
    pub users: Result<Vec<Json>, String>,
    pub groups: Result<Vec<Json>, String>,
    pub roles: Result<Vec<Json>, String>,
    pub policies: Result<Vec<Json>, String>,
    pub lookups: AttachmentLookups,
}

/// The IAM scan's kinds: result key and progress label, in order.
pub open spec fn iam_targets() -> Seq<(Seq<char>, Seq<char>)> {
    seq![("users"@, "IAM Users"@), ("groups"@, "IAM Groups"@), ("roles"@, "IAM Roles"@), ("policies"@, "IAM Policies"@)]
}

/// The outcome of each IAM kind under a request.
pub open spec fn iam_outcomes(c: ScanConfig, f: IamFound) -> Seq<OutcomeV> {
    seq![
        outcome_of(target_on(c.scan_targets@, "users"@), listed_view(f.users)),
        outcome_of(target_on(c.scan_targets@, "groups"@), listed_view(f.groups)),
        outcome_of(target_on(c.scan_targets@, "roles"@), listed_view(f.roles)),
        outcome_of(target_on(c.scan_targets@, "policies"@), listed_view(f.policies)),
    ]
}

/// Whether the records of each kind that is on are what its listing can
/// give.
pub open spec fn iam_fit(c: ScanConfig, f: IamFound) -> bool {
    &&& (f.users is Ok && target_on(c.scan_targets@, "users"@)) ==> iam_records(c, "users"@, jv_list(f.users->Ok_0@))
    &&& (f.groups is Ok && target_on(c.scan_targets@, "groups"@)) ==> iam_records(c, "groups"@, jv_list(f.groups->Ok_0@))
    &&& (f.roles is Ok && target_on(c.scan_targets@, "roles"@)) ==> iam_records(c, "roles"@, jv_list(f.roles->Ok_0@))
    &&& (f.policies is Ok && target_on(c.scan_targets@, "policies"@)) ==> iam_records(
        c,
        "policies"@,
        jv_list(f.policies->Ok_0@),
    )
}

/// A scan's result, by its view.
pub open spec fn json_result(r: Result<Json, String>) -> Result<JsonV, Seq<char>> {
    match r {
        Ok(j) => Ok(j@),
        Err(e) => Err(e@),
    }
}

/// The list of a kind as written: its records when it is on and listed, an
/// empty list otherwise.
pub open spec fn written_spec(on: bool, r: Result<Vec<Json>, String>) -> Seq<JsonV> {
    if on && r is Ok {
        jv_list(r->Ok_0@)
    } else {
        Seq::empty()
    }
}

/// The IAM scan from what the listings and lookups gave: its result, its
/// progress reports, and the finished and total target counts.
pub open spec fn iam_scan_spec(c: ScanConfig, ev0: Seq<(u32, Seq<char>)>, f: IamFound) -> (
    Result<JsonV, Seq<char>>,
    Seq<(u32, Seq<char>)>,
    usize,
    usize,
) {
    let t = count_on(c.scan_targets@);
    let ev1 = ev0.push((0u32, "AWS IAMスキャンを開始しています..."@));
    let base = seq![("provider"@, JsonV::Str("aws"@))];
    if t == 0 {
        (Ok(JsonV::Object(base)), ev1.push((100u32, "スキャン対象が選択されていません"@)), 0, 0)
    } else {
        let (st, err) = targets_spec((base, ev1, 0), t as usize, iam_targets(), iam_outcomes(c, f));
        match err {
            Some(e) => (Err(e), st.1, st.2, t as usize),
            None => (
                Ok(
                    JsonV::Object(
                        insert_spec(
                            st.0,
                            "attachments"@,
                            attachments_spec(
                                written_spec(target_on(c.scan_targets@, "users"@), f.users),
                                written_spec(target_on(c.scan_targets@, "groups"@), f.groups),
                                written_spec(target_on(c.scan_targets@, "roles"@), f.roles),
                                f.lookups,
                            ),
                        ),
                    ),
                ),
                st.1.push((100u32, "AWS IAMスキャンが完了しました"@)),
                st.2,
                t as usize,
            ),
        }
    }
}

/// The list of a kind as written by the scan.
pub fn written_list(on: bool, r: &Result<Vec<Json>, String>) -> (l: Vec<Json>)
    ensures
        jv_list(l@) == written_spec(on, *r),
{
    match r {
        Ok(v) => if on {
            clone_list(v)
        } else {
            Vec::new()
        },
        Err(_) => Vec::new(),
    }
}

/// Scans IAM users, groups, roles and policies through a client.
pub struct AwsIamScanner<C: IamClientOps> {
    config: ScanConfig,
    iam_client: Arc<C>,
}

impl<C: IamClientOps> AwsIamScanner<C> {
    /// The scan request this scanner serves.
    pub closed spec fn config_spec(&self) -> ScanConfig {
        self.config
    }

    /// The client this scanner makes its calls through.
    pub closed spec fn client_spec(&self) -> C {
        *self.iam_client
    }

    /// A scanner over the given client.
    pub fn new_with_client(config: ScanConfig, client: C) -> (r: Self)
        ensures
            r.config_spec() == config,
            r.client_spec() == client,
    {
        AwsIamScanner { config, iam_client: Arc::new(client) }
    }

    /// The statements of a role's trust policy: each with a string `Effect`
    /// summarised by effect, principal type and identifiers, actions and
    /// conditions; none for an empty text or one that is not JSON (the text
    /// is percent-decoded first when it decodes).
    pub fn parse_assume_role_policy(policy_doc: &str) -> (r: Vec<Json>)
        ensures
            jv_list(r@) == assume_role_spec(policy_doc@),
    {
        assume_role_statements(policy_doc)
    }

    /// Whether a name passes the request's `name_prefix` filter; every name
    /// passes when there is none.
    pub fn apply_name_prefix_filter(&self, name: &str) -> (r: bool)
        ensures
            r == name_prefix_ok(self.config_spec().filters@, name@),
    {
        self.config.name_passes(name)
    }

    /// The records of the listed users that pass the filter, in order.
    pub fn users_json(&self, users: &Vec<IamUserInfo>) -> (r: Vec<Json>)
        ensures
            jv_list(r@) == users_spec(self.config_spec().filters@, users@),
    {
        let mut out: Vec<Json> = Vec::new();
        let mut i: usize = 0;
        while i < users.len()
            invariant
                i <= users.len(),
                jv_list(out@) == users_spec(self.config_spec().filters@, users@.take(i as int)),
            decreases users.len() - i,
        {
            assert(users@.take(i + 1).drop_last() =~= users@.take(i as int));
            if self.apply_name_prefix_filter(users[i].user_name.as_str()) {
                push_item(&mut out, user_json(&users[i]));
            }
            i = i + 1;
        }
        assert(users@.take(users.len() as int) =~= users@);
        out
    }

    /// The records of the listed groups that pass the filter, in order.
    pub fn groups_json(&self, groups: &Vec<IamGroupInfo>) -> (r: Vec<Json>)
        ensures
            jv_list(r@) == groups_spec(self.config_spec().filters@, groups@),
    {
        let mut out: Vec<Json> = Vec::new();
        let mut i: usize = 0;
        while i < groups.len()
            invariant
                i <= groups.len(),
                jv_list(out@) == groups_spec(self.config_spec().filters@, groups@.take(i as int)),
            decreases groups.len() - i,
        {
            assert(groups@.take(i + 1).drop_last() =~= groups@.take(i as int));
            if self.apply_name_prefix_filter(groups[i].group_name.as_str()) {
                push_item(&mut out, group_json(&groups[i]));
            }
            i = i + 1;
        }
        assert(groups@.take(groups.len() as int) =~= groups@);
        out
    }

    /// The records of the listed roles that pass the filter, in order.
    pub fn roles_json(&self, roles: &Vec<IamRoleInfo>) -> (r: Vec<Json>)
        ensures
            jv_list(r@) == roles_spec(self.config_spec().filters@, roles@),
    {
        let mut out: Vec<Json> = Vec::new();
        let mut i: usize = 0;
        while i < roles.len()
            invariant
                i <= roles.len(),
                jv_list(out@) == roles_spec(self.config_spec().filters@, roles@.take(i as int)),
            decreases roles.len() - i,
        {
            assert(roles@.take(i + 1).drop_last() =~= roles@.take(i as int));
            if self.apply_name_prefix_filter(roles[i].role_name.as_str()) {
                push_item(&mut out, role_json(&roles[i]));
            }
            i = i + 1;
        }
        assert(roles@.take(roles.len() as int) =~= roles@);
        out
    }

    /// The records of the listed policies that pass the filter, in order.
    pub fn policies_json(&self, policies: &Vec<IamPolicyInfo>) -> (r: Vec<Json>)
        ensures
            jv_list(r@) == policies_spec(self.config_spec().filters@, policies@),
    {
        let mut out: Vec<Json> = Vec::new();
        let mut i: usize = 0;
        while i < policies.len()
            invariant
                i <= policies.len(),
                jv_list(out@) == policies_spec(
                    self.config_spec().filters@,
                    policies@.take(i as int),
                ),
            decreases policies.len() - i,
        {
            assert(policies@.take(i + 1).drop_last() =~= policies@.take(i as int));
            if self.apply_name_prefix_filter(policies[i].policy_name.as_str()) {
                push_item(&mut out, policy_json(&policies[i]));
            }
            i = i + 1;
        }
        assert(policies@.take(policies.len() as int) =~= policies@);
        out
    }

    /// Lists the users (with tags when the request asks for them) and keeps
    /// the records of those that pass the filter; a listing error is passed
    /// on.
    pub fn scan_users(&self) -> (r: Result<Vec<Json>, String>)
        ensures
            r is Ok ==> exists|v: Seq<IamUserInfo>| #[trigger] users_spec(self.config_spec().filters@, v) == jv_list(r->Ok_0@),
    {
        match self.iam_client.list_users_with_options(self.config.include_tags) {
            Ok(users) => {
                let out = self.users_json(&users);
                proof {
                    assert(users_spec(self.config_spec().filters@, users@) == jv_list(out@));
                }
                Ok(out)
            },
            Err(e) => Err(e),
        }
    }

    /// Lists the groups and keeps the records of those that pass the filter.
    pub fn scan_groups(&self) -> (r: Result<Vec<Json>, String>)
        ensures
            r is Ok ==> exists|v: Seq<IamGroupInfo>| #[trigger] groups_spec(self.config_spec().filters@, v) == jv_list(r->Ok_0@),
    {
        match self.iam_client.list_groups() {
            Ok(groups) => {
                let out = self.groups_json(&groups);
                proof {
                    assert(groups_spec(self.config_spec().filters@, groups@) == jv_list(out@));
                }
                Ok(out)
            },
            Err(e) => Err(e),
        }
    }

    /// Lists the roles and keeps the records of those that pass the filter.
    pub fn scan_roles(&self) -> (r: Result<Vec<Json>, String>)
        ensures
            r is Ok ==> exists|v: Seq<IamRoleInfo>| #[trigger] roles_spec(self.config_spec().filters@, v) == jv_list(r->Ok_0@),
    {
        match self.iam_client.list_roles_with_options(self.config.include_tags) {
            Ok(roles) => {
                let out = self.roles_json(&roles);
                proof {
                    assert(roles_spec(self.config_spec().filters@, roles@) == jv_list(out@));
                }
                Ok(out)
            },
            Err(e) => Err(e),
        }
    }

    /// Lists the policies and keeps the records of those that pass the
    /// filter.
    pub fn scan_policies(&self) -> (r: Result<Vec<Json>, String>)
        ensures
            r is Ok ==> exists|v: Seq<IamPolicyInfo>| #[trigger] policies_spec(self.config_spec().filters@, v) == jv_list(r->Ok_0@),
    {
        match self.iam_client.list_policies() {
            Ok(policies) => {
                let out = self.policies_json(&policies);
                proof {
                    assert(policies_spec(self.config_spec().filters@, policies@) == jv_list(out@));
                }
                Ok(out)
            },
            Err(e) => Err(e),
        }
    }

    /// The connections between the scanned users, groups and roles and
    /// their policies, and the users' group memberships: each name's
    /// lookups are made in turn, and a lookup that fails for one name adds
    /// nothing for it.
    pub fn scan_attachments_with_data(&self, users: &Vec<Json>, groups: &Vec<Json>, roles: &Vec<Json>) -> (r: Json)
        ensures
            attachments_of(r@, jv_list(users@), jv_list(groups@), jv_list(roles@)),
    {
        let lookups = self.attachment_lookups(users, groups, roles).0;
        attachments_from(users, groups, roles, &lookups)
    }

    /// Scans the IAM resources the request switches on. With no target on
    /// at all the result holds only the provider; otherwise it holds the
    /// records of users, groups, roles and policies (an empty list for a
    /// type that is off) and the attachments between them. A failing listing
    /// fails the scan; the types after it are not listed.
    pub fn scan(&self, progress: &mut ScanProgress) -> (r: Result<Json, String>)
        ensures
            exists|f: IamFound|
                iam_fit(self.config_spec(), f) && #[trigger] iam_scan_spec(
                    self.config_spec(),
                    events_view(old(progress).events@),
                    f,
                ) == (json_result(r), events_view(final(progress).events@), final(progress).completed, final(progress).total),
    {
        proof {
            lemma_iam_kinds_differ();
        }
        let on_u = self.config.target_enabled("users");
        let on_g = self.config.target_enabled("groups");
        let on_r = self.config.target_enabled("roles");
        let on_p = self.config.target_enabled("policies");
        let mut failed = false;
        let users = if !on_u {
            Ok(Vec::new())
        } else {
            let r = self.scan_users();
            failed = r.is_err();
            r
        };
        let groups = if !on_g {
            Ok(Vec::new())
        } else if failed {
            Err(String::new())
        } else {
            let r = self.scan_groups();
            failed = r.is_err();
            r
        };
        let roles = if !on_r {
            Ok(Vec::new())
        } else if failed {
            Err(String::new())
        } else {
            let r = self.scan_roles();
            failed = r.is_err();
            r
        };
        let policies = if !on_p {
            Ok(Vec::new())
        } else if failed {
            Err(String::new())
        } else {
            let r = self.scan_policies();
            failed = r.is_err();
            r
        };
        let lookups = if failed {
            AttachmentLookups {
                user_inline: Vec::new(),
                user_managed: Vec::new(),
                group_inline: Vec::new(),
                group_managed: Vec::new(),
                role_inline: Vec::new(),
                role_managed: Vec::new(),
                user_groups: Vec::new(),
            }
        } else {
            let u = written_list(on_u, &users);
            let g = written_list(on_g, &groups);
            let ro = written_list(on_r, &roles);
            self.attachment_lookups(&u, &g, &ro).0
        };
        self.scan_from(progress, IamFound { users, groups, roles, policies, lookups })
    }

    /// The IAM scan from what each listing and the attachment lookups gave:
    /// the progress starts over with one target per kind that is on; with
    /// none on, the result is only the provider; otherwise each kind is
    /// written as a target of the scan (the first failed listing ends it with
    /// its error), then the attachments of the written users, groups and
    /// roles, and a final report.
    #[verifier::rlimit(50)]
    pub fn scan_from(&self, progress: &mut ScanProgress, found: IamFound) -> (r: Result<Json, String>)
        ensures
            iam_scan_spec(self.config_spec(), events_view(old(progress).events@), found) == (
                json_result(r),
                events_view(final(progress).events@),
                final(progress).completed,
                final(progress).total,
            ),
    {
        let ghost f = found;
        let ghost c = self.config_spec();
        let total = count_enabled(&self.config.scan_targets);
        progress.completed = 0;
        progress.total = total;
        progress.report(0, owned("AWS IAMスキャンを開始しています..."));
        let mut results: Vec<(String, Json)> = Vec::new();
        push_entry(&mut results, "provider", text("aws"));
        assert(jv_entries(results@) =~= seq![("provider"@, JsonV::Str("aws"@))]);
        if total == 0 {
            progress.report(100, owned("スキャン対象が選択されていません"));
            return Ok(Json::Object(results));
        }
        let on_u = self.config.target_enabled("users");
        let on_g = self.config.target_enabled("groups");
        let on_r = self.config.target_enabled("roles");
        let IamFound { users, groups, roles, policies, lookups } = found;
        let u = written_list(on_u, &users);
        let g = written_list(on_g, &groups);
        let ro = written_list(on_r, &roles);
        let mut outs: Vec<TargetOutcome> = Vec::new();
        outs.push(outcome(on_u, users));
        outs.push(outcome(on_g, groups));
        outs.push(outcome(on_r, roles));
        outs.push(outcome(self.config.target_enabled("policies"), policies));
        let mut targets: Vec<(&str, &str)> = Vec::new();
        targets.push(("users", "IAM Users"));
        targets.push(("groups", "IAM Groups"));
        targets.push(("roles", "IAM Roles"));
        targets.push(("policies", "IAM Policies"));
        assert(targets_view(targets@) =~= iam_targets());
        assert(outs@.map_values(|o: TargetOutcome| outcome_view(o)) =~= iam_outcomes(c, f));
        match record_targets(&mut results, progress, &targets, outs) {
            Err(e) => Err(e),
            Ok(()) => {
                let attachments = attachments_from(&u, &g, &ro, &lookups);
                insert_entry(&mut results, "attachments", attachments);
                progress.report(100, owned("AWS IAMスキャンが完了しました"));
                Ok(Json::Object(results))
            },
        }
    }

    /// The attachment lookups of the users, groups and roles, name by name:
    /// the inline and managed policies of each, and each user's groups; a
    /// lookup that fails gives none. Beside them come the names looked up,
    /// in order: exactly the names in the records.
    pub fn attachment_lookups(&self, users: &Vec<Json>, groups: &Vec<Json>, roles: &Vec<Json>) -> (r: (AttachmentLookups, Ghost<LookedUpNames>))
        ensures
            r.1@ == (
                names_in(jv_list(users@), "user_name"@),
                names_in(jv_list(groups@), "group_name"@),
                names_in(jv_list(roles@), "role_name"@),
                names_in(jv_list(users@), "user_name"@),
            ),
    {
        let user_names = names_of(users, "user_name");
        let group_names = names_of(groups, "group_name");
        let role_names = names_of(roles, "role_name");
        let mut user_inline: Vec<Option<Vec<String>>> = Vec::new();
        let mut user_managed: Vec<Option<Vec<PolicyAttachment>>> = Vec::new();
        let mut i: usize = 0;
        let ghost mut asked1: Seq<Seq<char>> = Seq::empty();
        while i < user_names.len()
            invariant
                i <= user_names.len(),
                asked1 == user_names@.take(i as int).map_values(|x: String| x@),
            decreases user_names.len() - i,
        {
            let n = user_names[i].as_str();
            proof {
                asked1 = asked1.push(n@);
                assert(user_names@.take(i + 1) =~= user_names@.take(i as int).push(user_names@[i as int]));
            }
            user_inline.push(
                match self.iam_client.list_user_policies(n) {
                    Ok(p) => Some(p),
                    Err(_) => None,
                },
            );
            user_managed.push(
                match self.iam_client.list_attached_user_policies(n) {
                    Ok(a) => Some(a),
                    Err(_) => None,
                },
            );
            i = i + 1;
        }
        let mut group_inline: Vec<Option<Vec<String>>> = Vec::new();
        let mut group_managed: Vec<Option<Vec<PolicyAttachment>>> = Vec::new();
        let mut i: usize = 0;
        let ghost mut asked2: Seq<Seq<char>> = Seq::empty();
        while i < group_names.len()
            invariant
                i <= group_names.len(),
                asked2 == group_names@.take(i as int).map_values(|x: String| x@),
            decreases group_names.len() - i,
        {
            let n = group_names[i].as_str();
            proof {
                asked2 = asked2.push(n@);
                assert(group_names@.take(i + 1) =~= group_names@.take(i as int).push(group_names@[i as int]));
            }
            group_inline.push(
                match self.iam_client.list_group_policies(n) {
                    Ok(p) => Some(p),
                    Err(_) => None,
                },
            );
            group_managed.push(
                match self.iam_client.list_attached_group_policies(n) {
                    Ok(a) => Some(a),
                    Err(_) => None,
                },
            );
            i = i + 1;
        }
        let mut role_inline: Vec<Option<Vec<String>>> = Vec::new();
        let mut role_managed: Vec<Option<Vec<PolicyAttachment>>> = Vec::new();
        let mut i: usize = 0;
        let ghost mut asked3: Seq<Seq<char>> = Seq::empty();
        while i < role_names.len()
            invariant
                i <= role_names.len(),
                asked3 == role_names@.take(i as int).map_values(|x: String| x@),
            decreases role_names.len() - i,
        {
            let n = role_names[i].as_str();
            proof {
                asked3 = asked3.push(n@);
                assert(role_names@.take(i + 1) =~= role_names@.take(i as int).push(role_names@[i as int]));
            }
            role_inline.push(
                match self.iam_client.list_role_policies(n) {
                    Ok(p) => Some(p),
                    Err(_) => None,
                },
            );
            role_managed.push(
                match self.iam_client.list_attached_role_policies(n) {
                    Ok(a) => Some(a),
                    Err(_) => None,
                },
            );
            i = i + 1;
        }
        let mut user_groups: Vec<Option<Vec<String>>> = Vec::new();
        let mut i: usize = 0;
        let ghost mut asked4: Seq<Seq<char>> = Seq::empty();
        while i < user_names.len()
            invariant
                i <= user_names.len(),
                asked4 == user_names@.take(i as int).map_values(|x: String| x@),
            decreases user_names.len() - i,
        {
            let n = user_names[i].as_str();
            proof {
                asked4 = asked4.push(n@);
                assert(user_names@.take(i + 1) =~= user_names@.take(i as int).push(user_names@[i as int]));
            }
            user_groups.push(
                match self.iam_client.list_groups_for_user(n) {
                    Ok(g) => Some(g),
                    Err(_) => None,
                },
            );
            i = i + 1;
        }
        proof {
            assert(user_names@.take(user_names.len() as int) =~= user_names@);
            assert(group_names@.take(group_names.len() as int) =~= group_names@);
            assert(role_names@.take(role_names.len() as int) =~= role_names@);
        }
        let lookups = AttachmentLookups {
            user_inline,
            user_managed,
            group_inline,
            group_managed,
            role_inline,
            role_managed,
            user_groups,
        };
        (lookups, Ghost((asked1, asked2, asked3, asked4)))
    }
}

/// Without a `name_prefix` filter every listed user gets a record, in
/// order.
pub proof fn law_without_prefix_every_user_is_kept(f: Seq<(String, String)>, us: Seq<IamUserInfo>)
    requires
        crate::models::request::lookup(f, "name_prefix"@) is None,
    ensures
        users_spec(f, us) == us.map_values(|u: IamUserInfo| user_spec(u)),
    decreases us.len(),
{
    if us.len() > 0 {
        law_without_prefix_every_user_is_kept(f, us.drop_last());
        assert(us.map_values(|u: IamUserInfo| user_spec(u)) =~= us.drop_last().map_values(
            |u: IamUserInfo| user_spec(u),
        ).push(user_spec(us.last())));
    } else {
        assert(us.map_values(|u: IamUserInfo| user_spec(u)) =~= Seq::<JsonV>::empty());
    }
}

/// The prefix filter never adds records: there are at most as many user
/// records as listed users, and none when no name passes.
pub proof fn law_prefix_filter_only_removes(f: Seq<(String, String)>, us: Seq<IamUserInfo>)
    ensures
        users_spec(f, us).len() <= us.len(),
        (forall|i: int| 0 <= i < us.len() ==> !name_prefix_ok(f, (#[trigger] us[i]).user_name@)) ==> users_spec(f, us).len() == 0,
    decreases us.len(),
{
    if us.len() > 0 {
        law_prefix_filter_only_removes(f, us.drop_last());
        if forall|i: int| 0 <= i < us.len() ==> !name_prefix_ok(f, (#[trigger] us[i]).user_name@) {
            assert forall|i: int| 0 <= i < us.drop_last().len() implies !name_prefix_ok(f, (#[trigger] us.drop_last()[i]).user_name@) by {
                assert(us.drop_last()[i] == us[i]);
            }
            assert(!name_prefix_ok(f, us[us.len() - 1].user_name@));
        }
    }
}

/// The names whose attachments are looked up: users (for their policies),
/// groups, roles, and users again (for their groups), in order.
pub type LookedUpNames = (Seq<Seq<char>>, Seq<Seq<char>>, Seq<Seq<char>>, Seq<Seq<char>>);

/// The attachments object: the policies of users, groups and roles, and
/// the users' group memberships.
pub open spec fn attachments_result(up: Seq<JsonV>, gp: Seq<JsonV>, rp: Seq<JsonV>, ug: Seq<JsonV>) -> JsonV {
    JsonV::Object(
        seq![
            ("user_policies"@, JsonV::Array(up)),
            ("group_policies"@, JsonV::Array(gp)),
            ("role_policies"@, JsonV::Array(rp)),
            ("user_groups"@, JsonV::Array(ug)),
        ],
    )
}

/// Whether an attachments object is the one built from the names of the
/// given user, group and role records and some outcome of each name's
/// lookups.
pub open spec fn attachments_of(a: JsonV, users: Seq<JsonV>, groups: Seq<JsonV>, roles: Seq<JsonV>) -> bool {
    exists|l: AttachmentLookups| #[trigger] attachments_spec(users, groups, roles, l) == a
}

/// The entry at `i`, or none past the end.
pub open spec fn opt_at<T>(s: Seq<Option<T>>, i: int) -> Option<T> {
    if 0 <= i < s.len() {
        s[i]
    } else {
        None
    }
}

/// The records of one owner's inline policies, when their lookup succeeded.
pub open spec fn inline_records(owner_key: Seq<char>, owner: Seq<char>, o: Option<Vec<String>>) -> Seq<JsonV> {
    match o {
        Some(p) => p@.map_values(|x: String| inline_spec(owner_key, owner, x@)),
        None => Seq::empty(),
    }
}

/// The records of one owner's managed policies, when their lookup
/// succeeded.
pub open spec fn managed_records(owner_key: Seq<char>, owner: Seq<char>, o: Option<Vec<PolicyAttachment>>) -> Seq<JsonV> {
    match o {
        Some(a) => a@.map_values(|x: PolicyAttachment| managed_spec(owner_key, owner, x.policy_arn@)),
        None => Seq::empty(),
    }
}

/// The policy records of the first `n` owners: for each in turn its inline
/// policies, then its managed ones.
pub open spec fn owner_policies_spec(
    owner_key: Seq<char>,
    owners: Seq<Seq<char>>,
    inline: Seq<Option<Vec<String>>>,
    managed: Seq<Option<Vec<PolicyAttachment>>>,
    n: int,
) -> Seq<JsonV>
    decreases n,
{
    if n <= 0 {
        Seq::empty()
    } else {
        owner_policies_spec(owner_key, owners, inline, managed, n - 1) + inline_records(
            owner_key,
            owners[n - 1],
            opt_at(inline, n - 1),
        ) + managed_records(owner_key, owners[n - 1], opt_at(managed, n - 1))
    }
}

/// The group memberships of the first `n` users, user by user.
pub open spec fn memberships_spec(users: Seq<Seq<char>>, groups: Seq<Option<Vec<String>>>, n: int) -> Seq<JsonV>
    decreases n,
{
    if n <= 0 {
        Seq::empty()
    } else {
        memberships_spec(users, groups, n - 1) + match opt_at(groups, n - 1) {
            Some(g) => g@.map_values(|x: String| membership_spec(users[n - 1], x@)),
            None => Seq::empty(),
        }
    }
}

/// The attachments object built from the names in the user, group and role
/// records and the outcomes of their lookups.
pub open spec fn attachments_spec(users: Seq<JsonV>, groups: Seq<JsonV>, roles: Seq<JsonV>, l: AttachmentLookups) -> JsonV {
    let un = names_in(users, "user_name"@);
    let gn = names_in(groups, "group_name"@);
    let rn = names_in(roles, "role_name"@);
    attachments_result(
        owner_policies_spec("user_name"@, un, l.user_inline@, l.user_managed@, un.len() as int),
        owner_policies_spec("group_name"@, gn, l.group_inline@, l.group_managed@, gn.len() as int),
        owner_policies_spec("role_name"@, rn, l.role_inline@, l.role_managed@, rn.len() as int),
        memberships_spec(un, l.user_groups@, un.len() as int),
    )
}

/// One for a target that is on, none otherwise.
pub open spec fn ind(b: bool) -> nat {
    if b {
        1
    } else {
        0
    }
}

/// The records of a listing of one IAM kind, filtered by name.
pub open spec fn iam_records(c: ScanConfig, kind: Seq<char>, s: Seq<JsonV>) -> bool {
    if kind == "users"@ {
        exists|x: Seq<IamUserInfo>| #[trigger] users_spec(c.filters@, x) == s
    } else if kind == "groups"@ {
        exists|x: Seq<IamGroupInfo>| #[trigger] groups_spec(c.filters@, x) == s
    } else if kind == "roles"@ {
        exists|x: Seq<IamRoleInfo>| #[trigger] roles_spec(c.filters@, x) == s
    } else {
        exists|x: Seq<IamPolicyInfo>| #[trigger] policies_spec(c.filters@, x) == s
    }
}

proof fn lemma_iam_kinds_differ()
    ensures
        "users"@ != "groups"@,
        "users"@ != "roles"@,
        "users"@ != "policies"@,
        "groups"@ != "roles"@,
        "groups"@ != "policies"@,
        "roles"@ != "policies"@,
{
    reveal_strlit("users");
    reveal_strlit("groups");
    reveal_strlit("roles");
    reveal_strlit("policies");
    assert("users"@.len() != "groups"@.len());
    assert("users"@.len() != "policies"@.len());
    assert("users"@[0] != "roles"@[0]);
    assert("groups"@.len() != "roles"@.len());
    assert("groups"@.len() != "policies"@.len());
    assert("roles"@.len() != "policies"@.len());
}

proof fn lemma_count_covers(ts: Seq<(String, bool)>, k1: Seq<char>, k2: Seq<char>, k3: Seq<char>, k4: Seq<char>)
    requires
        k1 != k2 && k1 != k3 && k1 != k4 && k2 != k3 && k2 != k4 && k3 != k4,
    ensures
        ind(target_on(ts, k1)) + ind(target_on(ts, k2)) + ind(target_on(ts, k3)) + ind(target_on(ts, k4))
            <= count_on(ts),
    decreases ts.len(),
{
    if ts.len() > 0 {
        let tail = ts.drop_first();
        lemma_count_covers(tail, k1, k2, k3, k4);
        lemma_count_on_first(ts);
    }
}

proof fn lemma_count_on_len(ts: Seq<(String, bool)>)
    ensures
        count_on(ts) <= ts.len(),
    decreases ts.len(),
{
    if ts.len() > 0 {
        lemma_count_on_len(ts.drop_last());
    }
}

proof fn lemma_count_on_first(ts: Seq<(String, bool)>)
    requires
        ts.len() > 0,
    ensures
        count_on(ts) == ind(ts[0].1) + count_on(ts.drop_first()),
    decreases ts.len(),
{
    if ts.len() > 1 {
        lemma_count_on_first(ts.drop_last());
        assert(ts.drop_last().drop_first() =~= ts.drop_first().drop_last());
        assert(ts.drop_first().last() == ts.last());
    } else {
        assert(ts.drop_first() =~= Seq::<(String, bool)>::empty());
        assert(ts.drop_last() =~= Seq::<(String, bool)>::empty());
    }
}


/// The progress a successful IAM scan reports starts at 0, never goes
/// down, stays within 0 to 100 and ends at 100.
pub proof fn law_iam_progress_rises(c: ScanConfig, f: IamFound)
    ensures
        ({
            let (r, ev, _done, _total) = iam_scan_spec(c, Seq::empty(), f);
            r is Ok ==> ev.len() >= 2 && ev[0].0 == 0 && ev.last().0 == 100 && rising_within(ev, 0, 100)
        }),
{
    let ts = c.scan_targets@;
    let t = count_on(ts);
    let ev1 = Seq::<(u32, Seq<char>)>::empty().push((0u32, "AWS IAMスキャンを開始しています..."@));
    assert(rising_within(ev1, 0, 0));
    if t == 0 {
        let ev = ev1.push((100u32, "スキャン対象が選択されていません"@));
        assert(rising_within(ev, 0, 100));
    } else {
        lemma_iam_kinds_differ();
        lemma_count_covers(ts, "users"@, "groups"@, "roles"@, "policies"@);
        let os = iam_outcomes(c, f);
        let os1 = os.drop_first();
        let os2 = os1.drop_first();
        let os3 = os2.drop_first();
        let os4 = os3.drop_first();
        assert(os4 =~= Seq::<OutcomeV>::empty());
        assert(n_active(os4) == 0);
        assert(n_active(os3) == ind(target_on(ts, "policies"@)) + n_active(os4));
        assert(n_active(os2) == ind(target_on(ts, "roles"@)) + n_active(os3));
        assert(n_active(os1) == ind(target_on(ts, "groups"@)) + n_active(os2));
        assert(n_active(os) == ind(target_on(ts, "users"@)) + n_active(os1));
        lemma_count_on_len(ts);
        assert(ts.len() == c.scan_targets.len());
        assert(n_active(os) == ind(target_on(ts, "users"@)) + ind(target_on(ts, "groups"@)) + ind(
            target_on(ts, "roles"@),
        ) + ind(target_on(ts, "policies"@)));
        let base = seq![("provider"@, JsonV::Str("aws"@))];
        law_targets_progress((base, ev1, 0), t as usize, iam_targets(), os);
        let (st, err) = targets_spec((base, ev1, 0), t as usize, iam_targets(), os);
        if err is None {
            let rest = st.1.skip(1);
            assert(st.1 =~= ev1 + rest);
            lemma_percent_bounds(0, st.2 as int, t as int);
            lemma_rising_concat(ev1, rest, 0, 0, 0, percent_spec(st.2 as int, t as int) as int);
            let tail = seq![(100u32, "AWS IAMスキャンが完了しました"@)];
            assert(rising_within(tail, 100, 100));
            lemma_rising_concat(ev1 + rest, tail, 0, percent_spec(st.2 as int, t as int) as int, 100, 100);
            assert(st.1.push((100u32, "AWS IAMスキャンが完了しました"@)) =~= ev1 + rest + tail);
        }
    }
}

} // verus!
