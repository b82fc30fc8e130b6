use vstd::prelude::*;
use crate::json::{insert_entry, insert_spec, jv, jv_entries, lemma_jv_entries, Json, JsonV};
use crate::models::request::{target_on, ScanConfig};
use crate::text::str_eq;

verus! {

/// A resource type of a provider and the template that renders it.
#[derive(Clone, Copy, Debug)]
pub struct ResourceTemplate {
    pub resource_type: &'static str,
    pub template_path: &'static str,
    pub provider: &'static str,
}

/// The resource types and template paths of a template list, with every
/// entry naming `provider`.
pub open spec fn matches_table(
    v: Seq<ResourceTemplate>,
    table: Seq<(Seq<char>, Seq<char>)>,
    provider: Seq<char>,
) -> bool {
    &&& v.len() == table.len()
    &&& forall|i: int|
        0 <= i < v.len() ==> (#[trigger] v[i]).resource_type@ == table[i].0
            && v[i].template_path@ == table[i].1 && v[i].provider@ == provider
}

/// The AWS resource types in generation order, each with the name of its
/// template file.
pub open spec fn aws_stems() -> Seq<(Seq<char>, Seq<char>)> {
    seq![
        ("users"@, "iam_user"@),
        ("groups"@, "iam_group"@),
        ("roles"@, "iam_role"@),
        ("policies"@, "iam_policy"@),
        ("buckets"@, "s3_bucket"@),
        ("bucket_policies"@, "s3_bucket_policy"@),
        ("lifecycle_rules"@, "s3_lifecycle"@),
        ("instances"@, "ec2_instance"@),
        ("vpcs"@, "vpc"@),
        ("subnets"@, "subnet"@),
        ("route_tables"@, "route_table"@),
        ("security_groups"@, "security_group"@),
        ("network_acls"@, "network_acl"@),
        ("internet_gateways"@, "internet_gateway"@),
        ("nat_gateways"@, "nat_gateway"@),
        ("elastic_ips"@, "eip"@),
        ("db_instances"@, "rds_instance"@),
        ("db_subnet_groups"@, "rds_subnet_group"@),
        ("db_parameter_groups"@, "rds_parameter_group"@),
        ("functions"@, "lambda_function"@),
        ("lambda_layers"@, "lambda_layer"@),
        ("dynamodb_tables"@, "dynamodb_table"@),
        ("load_balancers"@, "alb"@),
        ("lb_listeners"@, "alb_listener"@),
        ("lb_target_groups"@, "alb_target_group"@),
        ("cloudwatch_alarms"@, "cloudwatch_alarm"@),
        ("sns_topics"@, "sns_topic"@),
        ("sns_subscriptions"@, "sns_subscription"@),
    ]
}

/// The path of an AWS template file: `aws/<name>.tf.j2`.
pub open spec fn aws_path(name: Seq<char>) -> Seq<char> {
    "aws/"@ + name + ".tf.j2"@
}

/// The AWS resource types in generation order, each with its template.
pub open spec fn aws_table() -> Seq<(Seq<char>, Seq<char>)> {
    aws_stems().map_values(|e: (Seq<char>, Seq<char>)| (e.0, aws_path(e.1)))
}

/// The Azure resource types in generation order, each with its template.
pub open spec fn azure_table() -> Seq<(Seq<char>, Seq<char>)> {
    seq![
        ("role_definitions"@, "azure/role_definition.tf.j2"@),
        ("role_assignments"@, "azure/role_assignment.tf.j2"@),
        ("virtual_machines"@, "azure/virtual_machine.tf.j2"@),
        ("virtual_networks"@, "azure/virtual_network.tf.j2"@),
        ("network_security_groups"@, "azure/nsg.tf.j2"@),
        ("storage_accounts"@, "azure/storage_account.tf.j2"@),
        ("sql_databases"@, "azure/sql_database.tf.j2"@),
        ("app_services"@, "azure/app_service.tf.j2"@),
        ("function_apps"@, "azure/function_app.tf.j2"@),
    ]
}

/// The AWS template list: 28 templates, all of the `aws` provider, each
/// at a path of the form `aws/<name>.tf.j2`, from `users` first to
/// `sns_subscriptions` last.
pub proof fn law_aws_templates(v: Seq<ResourceTemplate>)
    requires
        matches_table(v, aws_table(), "aws"@),
    ensures
        v.len() == 28,
        forall|i: int| 0 <= i < v.len() ==> (#[trigger] v[i]).provider@ == "aws"@,
        forall|i: int|
            0 <= i < v.len() ==> exists|name: Seq<char>| (#[trigger] v[i]).template_path@ == aws_path(name),
        v[0].resource_type@ == "users"@,
        v[27].resource_type@ == "sns_subscriptions"@,
{
    let t = aws_table();
    assert forall|i: int| 0 <= i < v.len() implies exists|name: Seq<char>| (#[trigger] v[i]).template_path@ == aws_path(name) by {
        assert(v[i].template_path@ == aws_path(aws_stems()[i].1));
    }
    assert(t[0].0 == "users"@);
    assert(t[27].0 == "sns_subscriptions"@);
}

/// The AWS provider.
pub struct AwsProvider;

/// The Azure provider.
pub struct AzureProvider;

impl AwsProvider {
    /// The provider's identifier, `aws`.
    pub fn provider_name(&self) -> (r: &'static str)
        ensures
            r@ == "aws"@,
    {
        "aws"
    }

    /// The AWS templates, in the order in which generation visits them.
    pub fn get_templates(&self) -> (r: Vec<ResourceTemplate>)
        ensures
            matches_table(r@, aws_table(), "aws"@),
    {
        let mut v: Vec<ResourceTemplate> = Vec::new();
        v.push(ResourceTemplate { resource_type: "users", template_path: "aws/iam_user.tf.j2", provider: "aws" });
        v.push(ResourceTemplate { resource_type: "groups", template_path: "aws/iam_group.tf.j2", provider: "aws" });
        v.push(ResourceTemplate { resource_type: "roles", template_path: "aws/iam_role.tf.j2", provider: "aws" });
        v.push(ResourceTemplate { resource_type: "policies", template_path: "aws/iam_policy.tf.j2", provider: "aws" });
        v.push(ResourceTemplate { resource_type: "buckets", template_path: "aws/s3_bucket.tf.j2", provider: "aws" });
        v.push(ResourceTemplate { resource_type: "bucket_policies", template_path: "aws/s3_bucket_policy.tf.j2", provider: "aws" });
        v.push(ResourceTemplate { resource_type: "lifecycle_rules", template_path: "aws/s3_lifecycle.tf.j2", provider: "aws" });
        v.push(ResourceTemplate { resource_type: "instances", template_path: "aws/ec2_instance.tf.j2", provider: "aws" });
        v.push(ResourceTemplate { resource_type: "vpcs", template_path: "aws/vpc.tf.j2", provider: "aws" });
        v.push(ResourceTemplate { resource_type: "subnets", template_path: "aws/subnet.tf.j2", provider: "aws" });
        v.push(ResourceTemplate { resource_type: "route_tables", template_path: "aws/route_table.tf.j2", provider: "aws" });
        v.push(ResourceTemplate { resource_type: "security_groups", template_path: "aws/security_group.tf.j2", provider: "aws" });
        v.push(ResourceTemplate { resource_type: "network_acls", template_path: "aws/network_acl.tf.j2", provider: "aws" });
        v.push(ResourceTemplate { resource_type: "internet_gateways", template_path: "aws/internet_gateway.tf.j2", provider: "aws" });
        v.push(ResourceTemplate { resource_type: "nat_gateways", template_path: "aws/nat_gateway.tf.j2", provider: "aws" });
        v.push(ResourceTemplate { resource_type: "elastic_ips", template_path: "aws/eip.tf.j2", provider: "aws" });
        v.push(ResourceTemplate { resource_type: "db_instances", template_path: "aws/rds_instance.tf.j2", provider: "aws" });
        v.push(ResourceTemplate { resource_type: "db_subnet_groups", template_path: "aws/rds_subnet_group.tf.j2", provider: "aws" });
        v.push(ResourceTemplate { resource_type: "db_parameter_groups", template_path: "aws/rds_parameter_group.tf.j2", provider: "aws" });
        v.push(ResourceTemplate { resource_type: "functions", template_path: "aws/lambda_function.tf.j2", provider: "aws" });
        v.push(ResourceTemplate { resource_type: "lambda_layers", template_path: "aws/lambda_layer.tf.j2", provider: "aws" });
        v.push(ResourceTemplate { resource_type: "dynamodb_tables", template_path: "aws/dynamodb_table.tf.j2", provider: "aws" });
        v.push(ResourceTemplate { resource_type: "load_balancers", template_path: "aws/alb.tf.j2", provider: "aws" });
        v.push(ResourceTemplate { resource_type: "lb_listeners", template_path: "aws/alb_listener.tf.j2", provider: "aws" });
        v.push(ResourceTemplate { resource_type: "lb_target_groups", template_path: "aws/alb_target_group.tf.j2", provider: "aws" });
        v.push(ResourceTemplate { resource_type: "cloudwatch_alarms", template_path: "aws/cloudwatch_alarm.tf.j2", provider: "aws" });
        v.push(ResourceTemplate { resource_type: "sns_topics", template_path: "aws/sns_topic.tf.j2", provider: "aws" });
        v.push(ResourceTemplate { resource_type: "sns_subscriptions", template_path: "aws/sns_subscription.tf.j2", provider: "aws" });
        proof {
            reveal_strlit("aws/");
            reveal_strlit(".tf.j2");
            reveal_strlit("iam_user");
            reveal_strlit("aws/iam_user.tf.j2");
            reveal_strlit("iam_group");
            reveal_strlit("aws/iam_group.tf.j2");
            reveal_strlit("iam_role");
            reveal_strlit("aws/iam_role.tf.j2");
            reveal_strlit("iam_policy");
            reveal_strlit("aws/iam_policy.tf.j2");
            reveal_strlit("s3_bucket");
            reveal_strlit("aws/s3_bucket.tf.j2");
            reveal_strlit("s3_bucket_policy");
            reveal_strlit("aws/s3_bucket_policy.tf.j2");
            reveal_strlit("s3_lifecycle");
            reveal_strlit("aws/s3_lifecycle.tf.j2");
            reveal_strlit("ec2_instance");
            reveal_strlit("aws/ec2_instance.tf.j2");
            reveal_strlit("vpc");
            reveal_strlit("aws/vpc.tf.j2");
            reveal_strlit("subnet");
            reveal_strlit("aws/subnet.tf.j2");
            reveal_strlit("route_table");
            reveal_strlit("aws/route_table.tf.j2");
            reveal_strlit("security_group");
            reveal_strlit("aws/security_group.tf.j2");
            reveal_strlit("network_acl");
            reveal_strlit("aws/network_acl.tf.j2");
            reveal_strlit("internet_gateway");
            reveal_strlit("aws/internet_gateway.tf.j2");
            reveal_strlit("nat_gateway");
            reveal_strlit("aws/nat_gateway.tf.j2");
            reveal_strlit("eip");
            reveal_strlit("aws/eip.tf.j2");
            reveal_strlit("rds_instance");
            reveal_strlit("aws/rds_instance.tf.j2");
            reveal_strlit("rds_subnet_group");
            reveal_strlit("aws/rds_subnet_group.tf.j2");
            reveal_strlit("rds_parameter_group");
            reveal_strlit("aws/rds_parameter_group.tf.j2");
            reveal_strlit("lambda_function");
            reveal_strlit("aws/lambda_function.tf.j2");
            reveal_strlit("lambda_layer");
            reveal_strlit("aws/lambda_layer.tf.j2");
            reveal_strlit("dynamodb_table");
            reveal_strlit("aws/dynamodb_table.tf.j2");
            reveal_strlit("alb");
            reveal_strlit("aws/alb.tf.j2");
            reveal_strlit("alb_listener");
            reveal_strlit("aws/alb_listener.tf.j2");
            reveal_strlit("alb_target_group");
            reveal_strlit("aws/alb_target_group.tf.j2");
            reveal_strlit("cloudwatch_alarm");
            reveal_strlit("aws/cloudwatch_alarm.tf.j2");
            reveal_strlit("sns_topic");
            reveal_strlit("aws/sns_topic.tf.j2");
            reveal_strlit("sns_subscription");
            reveal_strlit("aws/sns_subscription.tf.j2");
            assert forall|i: int| 0 <= i < 28 implies (#[trigger] v@[i]).template_path@ == aws_path(aws_stems()[i].1) by {
                assert(v@[i].template_path@ =~= aws_path(aws_stems()[i].1));
            }
        }
        assert(matches_table(v@, aws_table(), "aws"@));
        v
    }
}

impl AzureProvider {
    /// The provider's identifier, `azure`.
    pub fn provider_name(&self) -> (r: &'static str)
        ensures
            r@ == "azure"@,
    {
        "azure"
    }

    /// The Azure templates, in the order in which generation visits them.
    pub fn get_templates(&self) -> (r: Vec<ResourceTemplate>)
        ensures
            matches_table(r@, azure_table(), "azure"@),
    {
        let mut v: Vec<ResourceTemplate> = Vec::new();
        v.push(ResourceTemplate { resource_type: "role_definitions", template_path: "azure/role_definition.tf.j2", provider: "azure" });
        v.push(ResourceTemplate { resource_type: "role_assignments", template_path: "azure/role_assignment.tf.j2", provider: "azure" });
        v.push(ResourceTemplate { resource_type: "virtual_machines", template_path: "azure/virtual_machine.tf.j2", provider: "azure" });
        v.push(ResourceTemplate { resource_type: "virtual_networks", template_path: "azure/virtual_network.tf.j2", provider: "azure" });
        v.push(ResourceTemplate { resource_type: "network_security_groups", template_path: "azure/nsg.tf.j2", provider: "azure" });
        v.push(ResourceTemplate { resource_type: "storage_accounts", template_path: "azure/storage_account.tf.j2", provider: "azure" });
        v.push(ResourceTemplate { resource_type: "sql_databases", template_path: "azure/sql_database.tf.j2", provider: "azure" });
        v.push(ResourceTemplate { resource_type: "app_services", template_path: "azure/app_service.tf.j2", provider: "azure" });
        v.push(ResourceTemplate { resource_type: "function_apps", template_path: "azure/function_app.tf.j2", provider: "azure" });
        assert(matches_table(v@, azure_table(), "azure"@));
        v
    }
}

/// Whether some scan target's key is one of `keys`.
pub open spec fn any_key_in(targets: Seq<(String, bool)>, keys: Seq<Seq<char>>) -> bool {
    exists|i: int| 0 <= i < targets.len() && keys.contains(targets[i].0@)
}

/// Whether some scan target is switched on.
pub open spec fn any_on(targets: Seq<(String, bool)>) -> bool {
    exists|i: int| 0 <= i < targets.len() && targets[i].1
}

/// The IAM resource types.
pub open spec fn iam_keys() -> Seq<Seq<char>> {
    seq!["users"@, "groups"@, "roles"@, "policies"@]
}

/// How many switched-on targets are not IAM resource types.
pub open spec fn non_iam_on(targets: Seq<(String, bool)>) -> nat
    decreases targets.len(),
{
    if targets.len() == 0 {
        0
    } else {
        non_iam_on(targets.drop_last()) + if targets.last().1 && !iam_keys().contains(
            targets.last().0@,
        ) {
            1nat
        } else {
            0nat
        }
    }
}

/// Which groups of AWS scanners run besides IAM, and how many
/// non-IAM targets are on (the total that progress is counted against).
#[derive(Clone, Copy, Debug, PartialEq, Eq, Structural)]
pub struct ScanGroups {
    pub s3: bool,
    pub ec2: bool,
    pub vpc: bool,
    pub rds: bool,
    pub lambda: bool,
    pub dynamodb: bool,
    pub elb: bool,
    pub cw_sns: bool,
    pub non_iam_total: usize,
}

/// A group runs when one of its resource types is named among the targets
/// and some target is on; EC2 and DynamoDB run when their own target is on.
pub open spec fn scan_groups_spec(t: Seq<(String, bool)>) -> ScanGroups {
    ScanGroups {
        s3: any_key_in(t, seq!["buckets"@, "bucket_policies"@, "lifecycle_rules"@]) && any_on(t),
        ec2: target_on(t, "instances"@),
        vpc: any_key_in(
            t,
            seq![
                "vpcs"@,
                "subnets"@,
                "route_tables"@,
                "security_groups"@,
                "network_acls"@,
                "internet_gateways"@,
                "nat_gateways"@,
                "elastic_ips"@,
            ],
        ) && any_on(t),
        rds: any_key_in(t, seq!["db_instances"@, "db_subnet_groups"@, "db_parameter_groups"@]) && any_on(t),
        lambda: any_key_in(t, seq!["functions"@, "lambda_layers"@]) && any_on(t),
        dynamodb: target_on(t, "dynamodb_tables"@),
        elb: any_key_in(t, seq!["load_balancers"@, "lb_target_groups"@]) && any_on(t),
        cw_sns: any_key_in(t, seq!["cloudwatch_alarms"@, "sns_topics"@, "sns_subscriptions"@]) && any_on(t),
        non_iam_total: non_iam_on(t) as usize,
    }
}

/// Whether a text is one of the given keys.
fn one_of(k: &str, keys: &Vec<&str>) -> (r: bool)
    ensures
        r == keys@.map_values(|s: &str| s@).contains(k@),
{
    let mut i: usize = 0;
    while i < keys.len()
        invariant
            i <= keys.len(),
            forall|j: int| 0 <= j < i ==> keys@[j]@ != k@,
        decreases keys.len() - i,
    {
        if str_eq(k, keys[i]) {
            assert(keys@.map_values(|s: &str| s@)[i as int] == k@);
            return true;
        }
        i = i + 1;
    }
    false
}

/// Whether some target's key is one of `keys`.
fn any_key_of(targets: &Vec<(String, bool)>, keys: &Vec<&str>) -> (r: bool)
    ensures
        r == any_key_in(targets@, keys@.map_values(|s: &str| s@)),
{
    let mut i: usize = 0;
    while i < targets.len()
        invariant
            i <= targets.len(),
            forall|j: int| 0 <= j < i ==> !keys@.map_values(|s: &str| s@).contains(#[trigger] targets@[j].0@),
        decreases targets.len() - i,
    {
        if one_of(targets[i].0.as_str(), keys) {
            return true;
        }
        i = i + 1;
    }
    false
}

/// Whether some target is on.
fn any_target_on(targets: &Vec<(String, bool)>) -> (r: bool)
    ensures
        r == any_on(targets@),
{
    let mut i: usize = 0;
    while i < targets.len()
        invariant
            i <= targets.len(),
            forall|j: int| 0 <= j < i ==> !(#[trigger] targets@[j]).1,
        decreases targets.len() - i,
    {
        if targets[i].1 {
            return true;
        }
        i = i + 1;
    }
    false
}

/// How many switched-on targets are not IAM resource types.
fn count_non_iam(targets: &Vec<(String, bool)>) -> (r: usize)
    ensures
        r == non_iam_on(targets@),
{
    let mut keys: Vec<&str> = Vec::new();
    keys.push("users");
    keys.push("groups");
    keys.push("roles");
    keys.push("policies");
    assert(keys@.map_values(|s: &str| s@) =~= iam_keys());
    let mut n: usize = 0;
    let mut i: usize = 0;
    while i < targets.len()
        invariant
            i <= targets.len(),
            keys@.map_values(|s: &str| s@) == iam_keys(),
            n == non_iam_on(targets@.take(i as int)),
            n <= i,
        decreases targets.len() - i,
    {
        assert(targets@.take(i + 1).drop_last() =~= targets@.take(i as int));
        if targets[i].1 && !one_of(targets[i].0.as_str(), &keys) {
            n = n + 1;
        }
        i = i + 1;
    }
    assert(targets@.take(targets.len() as int) =~= targets@);
    n
}

/// The entries of a scan result after merging in another group's entries
/// one by one, as a map's `extend` does.
pub open spec fn merged(base: Seq<(Seq<char>, JsonV)>, more: Seq<(Seq<char>, JsonV)>) -> Seq<(Seq<char>, JsonV)>
    decreases more.len(),
{
    if more.len() == 0 {
        base
    } else {
        let m = merged(base, more.drop_last());
        insert_spec(m, more.last().0, more.last().1)
    }
}

impl AwsProvider {
    /// Which scanner groups an AWS scan runs besides IAM.
    pub fn scan_groups(&self, config: &ScanConfig) -> (r: ScanGroups)
        ensures
            r == scan_groups_spec(config.scan_targets@),
    {
        let t = &config.scan_targets;
        let on = any_target_on(t);
        let mut s3k: Vec<&str> = Vec::new();
        s3k.push("buckets");
        s3k.push("bucket_policies");
        s3k.push("lifecycle_rules");
        assert(s3k@.map_values(|s: &str| s@) =~= seq!["buckets"@, "bucket_policies"@, "lifecycle_rules"@]);
        let mut vpck: Vec<&str> = Vec::new();
        vpck.push("vpcs");
        vpck.push("subnets");
        vpck.push("route_tables");
        vpck.push("security_groups");
        vpck.push("network_acls");
        vpck.push("internet_gateways");
        vpck.push("nat_gateways");
        vpck.push("elastic_ips");
        assert(vpck@.map_values(|s: &str| s@) =~= seq![
            "vpcs"@,
            "subnets"@,
            "route_tables"@,
            "security_groups"@,
            "network_acls"@,
            "internet_gateways"@,
            "nat_gateways"@,
            "elastic_ips"@,
        ]);
        let mut rdsk: Vec<&str> = Vec::new();
        rdsk.push("db_instances");
        rdsk.push("db_subnet_groups");
        rdsk.push("db_parameter_groups");
        assert(rdsk@.map_values(|s: &str| s@) =~= seq!["db_instances"@, "db_subnet_groups"@, "db_parameter_groups"@]);
        let mut lk: Vec<&str> = Vec::new();
        lk.push("functions");
        lk.push("lambda_layers");
        assert(lk@.map_values(|s: &str| s@) =~= seq!["functions"@, "lambda_layers"@]);
        let mut ek: Vec<&str> = Vec::new();
        ek.push("load_balancers");
        ek.push("lb_target_groups");
        assert(ek@.map_values(|s: &str| s@) =~= seq!["load_balancers"@, "lb_target_groups"@]);
        let mut ck: Vec<&str> = Vec::new();
        ck.push("cloudwatch_alarms");
        ck.push("sns_topics");
        ck.push("sns_subscriptions");
        assert(ck@.map_values(|s: &str| s@) =~= seq!["cloudwatch_alarms"@, "sns_topics"@, "sns_subscriptions"@]);
        ScanGroups {
            s3: any_key_of(t, &s3k) && on,
            ec2: config.target_enabled("instances"),
            vpc: any_key_of(t, &vpck) && on,
            rds: any_key_of(t, &rdsk) && on,
            lambda: any_key_of(t, &lk) && on,
            dynamodb: config.target_enabled("dynamodb_tables"),
            elb: any_key_of(t, &ek) && on,
            cw_sns: any_key_of(t, &ck) && on,
            non_iam_total: count_non_iam(t),
        }
    }

    /// Merges a scanner group's entries into a scan result: each entry sets
    /// its key, replacing an earlier value in place.
    pub fn merge_results(results: &mut Vec<(String, Json)>, more: &Vec<(String, Json)>)
        ensures
            jv_entries(final(results)@) == merged(jv_entries(old(results)@), jv_entries(more@)),
    {
        let ghost mv = jv_entries(more@);
        proof {
            lemma_jv_entries(more@);
        }
        let ghost start = jv_entries(results@);
        let mut i: usize = 0;
        while i < more.len()
            invariant
                i <= more.len(),
                mv == jv_entries(more@),
                mv.len() == more@.len(),
                forall|j: int| 0 <= j < more@.len() ==> #[trigger] mv[j] == (more@[j].0@, jv(more@[j].1)),
                start == jv_entries(old(results)@),
                jv_entries(results@) == merged(start, mv.take(i as int)),
            decreases more.len() - i,
        {
            assert(mv.take(i + 1).drop_last() =~= mv.take(i as int));
            assert(mv.take(i + 1).last() == mv[i as int]);
            insert_entry(results, more[i].0.as_str(), more[i].1.clone());
            i = i + 1;
        }
        assert(mv.take(more.len() as int) =~= mv);
    }
}

} // verus!
