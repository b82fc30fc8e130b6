use vstd::prelude::*;
use vstd::string::*;
use crate::generators::naming::{snake_spec, convention_spec, NamingGenerator};
use crate::generators::resource_name::{resource_name_of, resource_name_spec, text_result};
use crate::generators::templates::{file_text, TemplateManager};
use crate::json::{jv, jv_list, lemma_jv_list, opt_str, Json, JsonV};
use crate::models::request::GenerationConfig;
use crate::providers::{aws_table, azure_table, matches_table, AwsProvider, AzureProvider, ResourceTemplate};
use crate::text::{owned, str_eq};

verus! {

/// Turns scan results into Terraform code and an import script.
pub struct TerraformGenerator;

/// The characters of each string of a list.
pub open spec fn texts(v: Seq<String>) -> Seq<Seq<char>> {
    v.map_values(|s: String| s@)
}

/// The provider a scan result names; `aws` when it names none.
pub open spec fn provider_of(scan: JsonV) -> Seq<char> {
    match scan.str_field("provider"@) {
        Some(p) => p,
        None => "aws"@,
    }
}

/// The resource types (with their templates) generated for a provider.
pub open spec fn templates_for(provider: Seq<char>) -> Seq<(Seq<char>, Seq<char>)> {
    if provider == "aws"@ {
        aws_table()
    } else if provider == "azure"@ {
        azure_table()
    } else {
        Seq::empty()
    }
}

/// The resources of one type in a scan result: the array under the type's
/// key, or none.
pub open spec fn resources_spec(scan: JsonV, rt: Seq<char>) -> Seq<JsonV> {
    match scan.get(rt) {
        Some(JsonV::Array(a)) => a,
        _ => Seq::empty(),
    }
}

/// The identifier a selection entry names: the entry itself when it is a
/// string; for an object the first of `user_name`, `group_name`,
/// `role_name`, `arn`, `id` that is present, when that is a string.
pub open spec fn selection_id(s: JsonV) -> Option<Seq<char>> {
    match s {
        JsonV::Str(x) => Some(x),
        JsonV::Object(_) => opt_str(
            match s.get("user_name"@) {
                Some(v) => Some(v),
                None => match s.get("group_name"@) {
                    Some(v) => Some(v),
                    None => match s.get("role_name"@) {
                        Some(v) => Some(v),
                        None => match s.get("arn"@) {
                            Some(v) => Some(v),
                            None => s.get("id"@),
                        },
                    },
                },
            },
        ),
        _ => None,
    }
}

/// The identifiers named by a selection, in order.
pub open spec fn selection_ids(sel: Seq<JsonV>) -> Seq<Seq<char>>
    decreases sel.len(),
{
    if sel.len() == 0 {
        Seq::empty()
    } else {
        let rest = selection_ids(sel.drop_last());
        match selection_id(sel.last()) {
            Some(x) => rest.push(x),
            None => rest,
        }
    }
}

/// The identifier by which a resource of the given type is selected.
pub open spec fn resource_id_spec(r: JsonV, rt: Seq<char>) -> Option<Seq<char>> {
    if rt == "users"@ {
        r.str_field("user_name"@)
    } else if rt == "groups"@ {
        r.str_field("group_name"@)
    } else if rt == "roles"@ {
        r.str_field("role_name"@)
    } else if rt == "policies"@ {
        opt_str(
            match r.get("arn"@) {
                Some(v) => Some(v),
                None => r.get("policy_name"@),
            },
        )
    } else {
        opt_str(
            match r.get("arn"@) {
                Some(v) => Some(v),
                None => match r.get("id"@) {
                    Some(v) => Some(v),
                    None => r.get("name"@),
                },
            },
        )
    }
}

/// Whether a resource is among the selected identifiers.
pub open spec fn is_selected(r: JsonV, rt: Seq<char>, ids: Seq<Seq<char>>) -> bool {
    match resource_id_spec(r, rt) {
        Some(id) => ids.contains(id),
        None => false,
    }
}

/// The selected resources, in their order.
pub open spec fn kept(rs: Seq<JsonV>, rt: Seq<char>, ids: Seq<Seq<char>>) -> Seq<JsonV>
    decreases rs.len(),
{
    if rs.len() == 0 {
        Seq::empty()
    } else {
        let rest = kept(rs.drop_last(), rt, ids);
        if is_selected(rs.last(), rt, ids) {
            rest.push(rs.last())
        } else {
            rest
        }
    }
}

/// The selection of a type: the entries of the first key equal to `k`.
pub open spec fn selection_of(sel: Seq<(Seq<char>, Seq<JsonV>)>, k: Seq<char>) -> Option<Seq<JsonV>>
    decreases sel.len(),
{
    if sel.len() == 0 {
        None
    } else if sel[0].0 == k {
        Some(sel[0].1)
    } else {
        selection_of(sel.drop_first(), k)
    }
}

/// The view of the selected-resources map.
pub open spec fn selection_view(sel: Seq<(String, Vec<Json>)>) -> Seq<(Seq<char>, Seq<JsonV>)> {
    sel.map_values(|p: (String, Vec<Json>)| (p.0@, jv_list(p.1@)))
}

/// The resources of a type that are processed: all of them when nothing is
/// selected at all or nothing for this type; none (the type is skipped) when
/// the type's selection is empty; else those whose identifier is selected.
pub open spec fn to_process_spec(
    rs: Seq<JsonV>,
    rt: Seq<char>,
    sel: Seq<(Seq<char>, Seq<JsonV>)>,
) -> Option<Seq<JsonV>> {
    if sel.len() == 0 {
        Some(rs)
    } else {
        match selection_of(sel, rt) {
            Some(s) => if s.len() == 0 {
                None
            } else {
                Some(kept(rs, rt, selection_ids(s)))
            },
            None => Some(rs),
        }
    }
}

/// The Terraform resource kind imported for an AWS IAM resource type.
pub open spec fn iam_kind(rt: Seq<char>) -> Option<Seq<char>> {
    if rt == "users"@ {
        Some("aws_iam_user"@)
    } else if rt == "groups"@ {
        Some("aws_iam_group"@)
    } else if rt == "roles"@ {
        Some("aws_iam_role"@)
    } else if rt == "policies"@ {
        Some("aws_iam_policy"@)
    } else {
        None
    }
}

/// The `terraform import` command of one resource: AWS IAM users, groups,
/// roles and policies are imported by ARN under their snake-case name.
pub open spec fn import_command_spec(r: JsonV, rt: Seq<char>, provider: Seq<char>) -> Result<
    Seq<char>,
    Seq<char>,
> {
    match resource_name_spec(r, rt) {
        Err(e) => Err(e),
        Ok(name) => match iam_kind(rt) {
            Some(kind) if provider == "aws"@ => match r.str_field("arn"@) {
                None => Err("Missing ARN"@),
                Some(arn) => Ok(
                    "terraform import "@ + kind + "."@ + snake_spec(name) + " "@ + arn,
                ),
            },
            _ => Err("Unsupported provider/resource type combination"@),
        },
    }
}

/// The import commands of a list of resources; a resource without one is
/// left out.
pub open spec fn commands_for(rs: Seq<JsonV>, rt: Seq<char>, provider: Seq<char>) -> Seq<Seq<char>>
    decreases rs.len(),
{
    if rs.len() == 0 {
        Seq::empty()
    } else {
        let rest = commands_for(rs.drop_last(), rt, provider);
        match import_command_spec(rs.last(), rt, provider) {
            Ok(c) => rest.push(c),
            Err(_) => rest,
        }
    }
}

/// The import commands of one resource type of a scan.
pub open spec fn type_commands(
    scan: JsonV,
    sel: Seq<(Seq<char>, Seq<JsonV>)>,
    rt: Seq<char>,
    provider: Seq<char>,
) -> Seq<Seq<char>> {
    match to_process_spec(resources_spec(scan, rt), rt, sel) {
        Some(p) => commands_for(p, rt, provider),
        None => Seq::empty(),
    }
}

/// The import commands of the resource types of a template list, in order.
pub open spec fn all_commands(
    scan: JsonV,
    sel: Seq<(Seq<char>, Seq<JsonV>)>,
    tpls: Seq<(Seq<char>, Seq<char>)>,
    provider: Seq<char>,
) -> Seq<Seq<char>>
    decreases tpls.len(),
{
    if tpls.len() == 0 {
        Seq::empty()
    } else {
        all_commands(scan, sel, tpls.drop_last(), provider) + type_commands(
            scan,
            sel,
            tpls.last().0,
            provider,
        )
    }
}

/// The import commands of a scan, over the provider's resource types.
pub open spec fn import_commands_spec(scan: JsonV, sel: Seq<(Seq<char>, Seq<JsonV>)>) -> Seq<
    Seq<char>,
> {
    all_commands(scan, sel, templates_for(provider_of(scan)), provider_of(scan))
}

/// The line that marks a generated file.
pub open spec fn header_spec() -> Seq<char> {
    "# Generated by TFKosmos Community Edition"@
}

/// Each command on a line of its own.
pub open spec fn lines(cmds: Seq<Seq<char>>) -> Seq<char>
    decreases cmds.len(),
{
    if cmds.len() == 0 {
        Seq::empty()
    } else {
        lines(cmds.drop_last()) + cmds.last() + "\n"@
    }
}

/// A bash import script running the commands, stopping at the first failure.
pub open spec fn sh_script_spec(cmds: Seq<Seq<char>>) -> Seq<char> {
    "#!/bin/bash\n"@ + "# Terraform import script\n"@ + header_spec() + "\n\n"@ + "set -e\n\n"@
        + lines(cmds)
}

/// A PowerShell import script running the commands, stopping at the first
/// failure.
pub open spec fn ps1_script_spec(cmds: Seq<Seq<char>>) -> Seq<char> {
    "# Terraform import script\n"@ + header_spec() + "\n\n"@ + "$ErrorActionPreference = \"Stop\"\n\n"@
        + lines(cmds)
}

/// The import script of a list of commands in a format: none without
/// commands; `import.ps1` for `ps1`, `import.sh` for any other format.
pub open spec fn import_script_spec(cmds: Seq<Seq<char>>, format: Seq<char>) -> Option<
    (Seq<char>, Seq<char>),
> {
    if cmds.len() == 0 {
        None
    } else if format == "ps1"@ {
        Some(("import.ps1"@, ps1_script_spec(cmds)))
    } else {
        Some(("import.sh"@, sh_script_spec(cmds)))
    }
}

/// The list of generated files, one bullet per line.
pub open spec fn bullets(files: Seq<Seq<char>>) -> Seq<char>
    decreases files.len(),
{
    if files.len() == 0 {
        Seq::empty()
    } else {
        bullets(files.drop_last()) + "- "@ + files.last() + "\n"@
    }
}

/// The README written beside the generated code.
pub open spec fn readme_spec(files: Seq<Seq<char>>) -> Seq<char> {
    "# Terraform Code Generation\n\n"@
        + "This directory contains Terraform code generated by TFKosmos.\n\n"@
        + "## Generated Files\n\n"@ + bullets(files) + "\n## Usage\n\n"@
        + "1. Review the generated Terraform files\n"@
        + "2. Run `terraform init` to initialize the Terraform working directory\n"@
        + "3. Run `terraform plan` to review the changes\n"@
        + "4. Run `terraform apply` to apply the changes\n\n"@ + "## Import Script\n\n"@
        + "Use the generated import script to import existing resources into Terraform state.\n"@
}

/// The key under which a template finds its resource.
pub open spec fn context_key(rt: Seq<char>) -> Seq<char> {
    if rt == "users"@ {
        "user"@
    } else if rt == "groups"@ {
        "group"@
    } else if rt == "roles"@ {
        "role"@
    } else if rt == "policies"@ {
        "policy"@
    } else if rt == "buckets"@ {
        "bucket"@
    } else if rt == "bucket_policies"@ {
        "policy"@
    } else if rt == "lifecycle_rules"@ {
        "rule"@
    } else if rt == "instances"@ {
        "instance"@
    } else if rt == "vpcs"@ {
        "vpc"@
    } else if rt == "subnets"@ {
        "subnet"@
    } else if rt == "route_tables"@ {
        "rt"@
    } else if rt == "security_groups"@ {
        "sg"@
    } else if rt == "network_acls"@ {
        "nacl"@
    } else if rt == "functions"@ {
        "function"@
    } else if rt == "lambda_layers"@ {
        "layer"@
    } else if rt == "dynamodb_tables"@ {
        "table"@
    } else if rt == "internet_gateways"@ {
        "igw"@
    } else if rt == "nat_gateways"@ {
        "nat_gw"@
    } else if rt == "elastic_ips"@ {
        "eip"@
    } else if rt == "load_balancers"@ {
        "lb"@
    } else if rt == "target_groups"@ {
        "tg"@
    } else if rt == "listeners"@ {
        "listener"@
    } else if rt == "cloudwatch_alarms"@ {
        "alarm"@
    } else if rt == "sns_topics"@ {
        "topic"@
    } else if rt == "sns_subscriptions"@ {
        "subscription"@
    } else if rt == "db_instances"@ {
        "db"@
    } else if rt == "db_subnet_groups"@ {
        "group"@
    } else if rt == "db_parameter_groups"@ {
        "pg"@
    } else if rt == "role_definitions"@ {
        "role_definition"@
    } else if rt == "role_assignments"@ {
        "role_assignment"@
    } else if rt == "virtual_machines"@ {
        "vm"@
    } else if rt == "virtual_networks"@ {
        "vnet"@
    } else if rt == "network_security_groups"@ {
        "nsg"@
    } else if rt == "storage_accounts"@ {
        "sa"@
    } else if rt == "sql_databases"@ {
        "db"@
    } else {
        "resource"@
    }
}


/// A render job, by its parts: the file it writes, its template, the
/// context of each rendered resource, the error reported if it fails, and
/// whether each rendering is followed by a blank line (a file holding all
/// resources of a type) or written as it is (a file per resource).
pub type JobV = (Seq<char>, Seq<char>, Seq<JsonV>, Seq<char>, bool);

/// A generation, by its parts: render jobs, README text, files written,
/// and the error that ends it early.
pub type PlanV = (Seq<JobV>, Option<Seq<char>>, Seq<Seq<char>>, Option<Seq<char>>);

/// The template context of one resource: its name in generated code under
/// `resource_name`, and the resource under the key its template reads.
pub open spec fn context_spec(r: JsonV, rt: Seq<char>, tf_name: Seq<char>) -> JsonV {
    JsonV::Object(seq![("resource_name"@, JsonV::Str(tf_name)), (context_key(rt), r)])
}

/// The contexts of a list of resources rendered into one file; none when
/// some resource has no name.
pub open spec fn contexts_spec(rs: Seq<JsonV>, rt: Seq<char>, conv: Seq<char>) -> Option<Seq<JsonV>>
    decreases rs.len(),
{
    if rs.len() == 0 {
        Some(Seq::empty())
    } else {
        match contexts_spec(rs.drop_last(), rt, conv) {
            None => None,
            Some(cs) => match resource_name_spec(rs.last(), rt) {
                Err(_) => None,
                Ok(n) => Some(cs.push(context_spec(rs.last(), rt, convention_spec(n, conv)))),
            },
        }
    }
}

/// One render job per resource, each writing a file named after the
/// resource, up to the first resource that has no name; and whether every
/// resource has one.
pub open spec fn name_jobs(
    rs: Seq<JsonV>,
    rt: Seq<char>,
    tp: Seq<char>,
    conv: Seq<char>,
    fail: Seq<char>,
) -> (Seq<JobV>, bool)
    decreases rs.len(),
{
    if rs.len() == 0 {
        (Seq::empty(), true)
    } else {
        let (js, ok) = name_jobs(rs.drop_last(), rt, tp, conv, fail);
        if !ok {
            (js, false)
        } else {
            match resource_name_spec(rs.last(), rt) {
                Err(_) => (js, false),
                Ok(n) => {
                    let tf = convention_spec(n, conv);
                    (
                        js.push(
                            (
                                rt + "_"@ + tf + ".tf"@,
                                tp,
                                seq![context_spec(rs.last(), rt, tf)],
                                fail,
                                false,
                            ),
                        ),
                        true,
                    )
                },
            }
        }
    }
}

/// The error reported when the files of a resource type cannot be made,
/// by file split rule.
pub open spec fn failure_spec(rule: Seq<char>, rt: Seq<char>) -> Seq<char> {
    if rule == "by_resource_type"@ {
        "Failed to generate file by resource type for type '"@ + rt + "'"@
    } else if rule == "by_resource_name"@ {
        "Failed to generate files by resource name for type '"@ + rt + "'"@
    } else {
        "Failed to generate single file for type '"@ + rt + "'"@
    }
}

/// The render jobs of one resource type, and its error when it fails:
/// none when it has nothing to process; one file per resource under
/// `by_resource_name` (those before the first resource without a name, when
/// there is one); one file for all of them under any other rule (none when
/// some resource has no name).
pub open spec fn type_jobs(
    scan: JsonV,
    sel: Seq<(Seq<char>, Seq<JsonV>)>,
    rt: Seq<char>,
    tp: Seq<char>,
    conv: Seq<char>,
    rule: Seq<char>,
) -> (Seq<JobV>, Option<Seq<char>>) {
    let fail = failure_spec(rule, rt);
    match to_process_spec(resources_spec(scan, rt), rt, sel) {
        None => (Seq::empty(), None),
        Some(p) => if p.len() == 0 {
            (Seq::empty(), None)
        } else if rule == "by_resource_name"@ {
            let (js, ok) = name_jobs(p, rt, tp, conv, fail);
            (js, if ok { None } else { Some(fail) })
        } else {
            match contexts_spec(p, rt, conv) {
                Some(cs) => (seq![(rt + ".tf"@, tp, cs, fail, true)], None),
                None => (Seq::empty(), Some(fail)),
            }
        },
    }
}

/// The render jobs of the resource types of a template list, in order, up
/// to and including the first type that fails, and that type's error.
pub open spec fn all_jobs(
    scan: JsonV,
    sel: Seq<(Seq<char>, Seq<JsonV>)>,
    tpls: Seq<(Seq<char>, Seq<char>)>,
    conv: Seq<char>,
    rule: Seq<char>,
) -> (Seq<JobV>, Option<Seq<char>>)
    decreases tpls.len(),
{
    if tpls.len() == 0 {
        (Seq::empty(), None)
    } else {
        let (js, f) = all_jobs(scan, sel, tpls.drop_last(), conv, rule);
        if f is Some {
            (js, f)
        } else {
            let (more, g) = type_jobs(scan, sel, tpls.last().0, tpls.last().1, conv, rule);
            (js + more, g)
        }
    }
}

/// The error when nothing would be generated.
pub open spec fn no_files_message() -> Seq<char> {
    "No files were generated. This may be because:\n1. No resources were found in the scan data\n2. All resources were filtered out by selection\n3. Template files could not be loaded\nPlease check the scan data and ensure resources exist."@
}

/// The names of the files that a list of jobs writes.
pub open spec fn job_files(js: Seq<JobV>) -> Seq<Seq<char>> {
    js.map_values(|j: JobV| j.0)
}

/// The generation of a scan result: its render jobs, the README (when one
/// is asked for), every file written, in order, and the error of the type
/// that fails after those jobs, if one does; or the error when nothing would
/// be written.
pub open spec fn plan_spec(
    scan: JsonV,
    sel: Seq<(Seq<char>, Seq<JsonV>)>,
    conv: Seq<char>,
    rule: Seq<char>,
    readme: bool,
) -> Result<PlanV, Seq<char>> {
    let (js, f) = all_jobs(scan, sel, templates_for(provider_of(scan)), conv, rule);
    let names = job_files(js);
    if f is Some {
        Ok((js, None, names, f))
    } else if readme {
        Ok((js, Some(readme_spec(names)), names.push("README.md"@), None))
    } else if names.len() == 0 {
        Err(no_files_message())
    } else {
        Ok((js, None, names, None))
    }
}

/// A generated import script: its file name and its text.
pub struct ImportScript {
    pub file_name: String,
    pub content: String,
}

fn context_key_of(rt: &str) -> (r: &'static str)
    ensures
        r@ == context_key(rt@),
{
    if str_eq(rt, "users") {
        "user"
    } else if str_eq(rt, "groups") {
        "group"
    } else if str_eq(rt, "roles") {
        "role"
    } else if str_eq(rt, "policies") {
        "policy"
    } else if str_eq(rt, "buckets") {
        "bucket"
    } else if str_eq(rt, "bucket_policies") {
        "policy"
    } else if str_eq(rt, "lifecycle_rules") {
        "rule"
    } else if str_eq(rt, "instances") {
        "instance"
    } else if str_eq(rt, "vpcs") {
        "vpc"
    } else if str_eq(rt, "subnets") {
        "subnet"
    } else if str_eq(rt, "route_tables") {
        "rt"
    } else if str_eq(rt, "security_groups") {
        "sg"
    } else if str_eq(rt, "network_acls") {
        "nacl"
    } else if str_eq(rt, "functions") {
        "function"
    } else if str_eq(rt, "lambda_layers") {
        "layer"
    } else if str_eq(rt, "dynamodb_tables") {
        "table"
    } else if str_eq(rt, "internet_gateways") {
        "igw"
    } else if str_eq(rt, "nat_gateways") {
        "nat_gw"
    } else if str_eq(rt, "elastic_ips") {
        "eip"
    } else if str_eq(rt, "load_balancers") {
        "lb"
    } else if str_eq(rt, "target_groups") {
        "tg"
    } else if str_eq(rt, "listeners") {
        "listener"
    } else if str_eq(rt, "cloudwatch_alarms") {
        "alarm"
    } else if str_eq(rt, "sns_topics") {
        "topic"
    } else if str_eq(rt, "sns_subscriptions") {
        "subscription"
    } else if str_eq(rt, "db_instances") {
        "db"
    } else if str_eq(rt, "db_subnet_groups") {
        "group"
    } else if str_eq(rt, "db_parameter_groups") {
        "pg"
    } else if str_eq(rt, "role_definitions") {
        "role_definition"
    } else if str_eq(rt, "role_assignments") {
        "role_assignment"
    } else if str_eq(rt, "virtual_machines") {
        "vm"
    } else if str_eq(rt, "virtual_networks") {
        "vnet"
    } else if str_eq(rt, "network_security_groups") {
        "nsg"
    } else if str_eq(rt, "storage_accounts") {
        "sa"
    } else if str_eq(rt, "sql_databases") {
        "db"
    } else {
        "resource"
    }
}

/// The identifier a selection entry names, if any.
fn selection_id_of(s: &Json) -> (r: Option<String>)
    ensures
        match r {
            Some(x) => selection_id(s@) == Some(x@),
            None => selection_id(s@) is None,
        },
{
    match s {
        Json::Str(x) => Some(x.clone()),
        Json::Object(_) => {
            let v = match s.get("user_name") {
                Some(v) => Some(v),
                None => match s.get("group_name") {
                    Some(v) => Some(v),
                    None => match s.get("role_name") {
                        Some(v) => Some(v),
                        None => match s.get("arn") {
                            Some(v) => Some(v),
                            None => s.get("id"),
                        },
                    },
                },
            };
            match v {
                Some(j) => match j.as_str() {
                    Some(x) => Some(x.clone()),
                    None => None,
                },
                None => None,
            }
        },
        _ => None,
    }
}

/// The identifier by which a resource is selected, if it has one.
fn resource_id_of(r: &Json, rt: &str) -> (out: Option<String>)
    ensures
        match out {
            Some(x) => resource_id_spec(r@, rt@) == Some(x@),
            None => resource_id_spec(r@, rt@) is None,
        },
{
    let v = if str_eq(rt, "users") {
        r.get("user_name")
    } else if str_eq(rt, "groups") {
        r.get("group_name")
    } else if str_eq(rt, "roles") {
        r.get("role_name")
    } else if str_eq(rt, "policies") {
        match r.get("arn") {
            Some(v) => Some(v),
            None => r.get("policy_name"),
        }
    } else {
        match r.get("arn") {
            Some(v) => Some(v),
            None => match r.get("id") {
                Some(v) => Some(v),
                None => r.get("name"),
            },
        }
    };
    match v {
        Some(j) => match j.as_str() {
            Some(x) => Some(x.clone()),
            None => None,
        },
        None => None,
    }
}

/// Whether `x` is one of the texts of `v`.
fn contains_text(v: &Vec<String>, x: &str) -> (r: bool)
    ensures
        r == texts(v@).contains(x@),
{
    let mut i: usize = 0;
    while i < v.len()
        invariant
            i <= v.len(),
            forall|j: int| 0 <= j < i ==> v@[j]@ != x@,
        decreases v.len() - i,
    {
        if str_eq(v[i].as_str(), x) {
            assert(texts(v@)[i as int] == x@);
            return true;
        }
        i = i + 1;
    }
    assert(!texts(v@).contains(x@)) by {
        if texts(v@).contains(x@) {
            let j = choose|j: int| 0 <= j < texts(v@).len() && texts(v@)[j] == x@;
            assert(v@[j]@ == x@);
        }
    }
    false
}

/// The identifiers named by a selection, in order.
fn selected_ids(sel: &Vec<Json>) -> (r: Vec<String>)
    ensures
        texts(r@) == selection_ids(jv_list(sel@)),
{
    let ghost sv = jv_list(sel@);
    proof {
        lemma_jv_list(sel@);
    }
    let mut out: Vec<String> = Vec::new();
    let mut i: usize = 0;
    while i < sel.len()
        invariant
            i <= sel.len(),
            sv == jv_list(sel@),
            sv.len() == sel@.len(),
            forall|j: int| 0 <= j < sel@.len() ==> #[trigger] sv[j] == jv(sel@[j]),
            texts(out@) == selection_ids(sv.take(i as int)),
        decreases sel.len() - i,
    {
        assert(sv.take(i + 1).drop_last() =~= sv.take(i as int));
        assert(sv.take(i + 1).last() == sel@[i as int]@);
        match selection_id_of(&sel[i]) {
            Some(x) => {
                out.push(x);
                assert(texts(out@) =~= selection_ids(sv.take(i + 1)));
            },
            None => {
                assert(texts(out@) =~= selection_ids(sv.take(i + 1)));
            },
        }
        i = i + 1;
    }
    assert(sv.take(sel.len() as int) =~= sv);
    out
}

/// Copies of the resources whose identifier is selected, in order.
fn keep_selected(rs: &Vec<Json>, rt: &str, ids: &Vec<String>) -> (r: Vec<Json>)
    ensures
        jv_list(r@) == kept(jv_list(rs@), rt@, texts(ids@)),
{
    let ghost sv = jv_list(rs@);
    proof {
        lemma_jv_list(rs@);
    }
    let mut out: Vec<Json> = Vec::new();
    let mut i: usize = 0;
    while i < rs.len()
        invariant
            i <= rs.len(),
            sv == jv_list(rs@),
            sv.len() == rs@.len(),
            forall|j: int| 0 <= j < rs@.len() ==> #[trigger] sv[j] == jv(rs@[j]),
            jv_list(out@) == kept(sv.take(i as int), rt@, texts(ids@)),
        decreases rs.len() - i,
    {
        assert(sv.take(i + 1).drop_last() =~= sv.take(i as int));
        assert(sv.take(i + 1).last() == rs@[i as int]@);
        let keep = match resource_id_of(&rs[i], rt) {
            Some(id) => contains_text(ids, id.as_str()),
            None => false,
        };
        if keep {
            let c = rs[i].clone();
            proof {
                crate::json::lemma_jv_list_push(out@, c);
            }
            out.push(c);
        }
        i = i + 1;
    }
    assert(sv.take(rs.len() as int) =~= sv);
    out
}

/// Copies of all resources of a list.
fn copy_all(rs: &Vec<Json>) -> (r: Vec<Json>)
    ensures
        jv_list(r@) == jv_list(rs@),
{
    let mut out: Vec<Json> = Vec::new();
    let mut i: usize = 0;
    while i < rs.len()
        invariant
            i <= rs.len(),
            jv_list(out@) == jv_list(rs@.take(i as int)),
        decreases rs.len() - i,
    {
        let c = rs[i].clone();
        proof {
            crate::json::lemma_jv_list_push(out@, c);
            assert(rs@.take(i + 1) =~= rs@.take(i as int).push(rs@[i as int]));
            crate::json::lemma_jv_list_push(rs@.take(i as int), rs@[i as int]);
        }
        out.push(c);
        i = i + 1;
    }
    assert(rs@.take(rs.len() as int) =~= rs@);
    out
}

/// The selection entries of a type, if the selection names it.
fn selection_for<'a>(sel: &'a Vec<(String, Vec<Json>)>, rt: &str) -> (r: Option<&'a Vec<Json>>)
    ensures
        match r {
            Some(v) => selection_of(selection_view(sel@), rt@) == Some(jv_list(v@)),
            None => selection_of(selection_view(sel@), rt@) is None,
        },
{
    let ghost sv = selection_view(sel@);
    let mut i: usize = 0;
    assert(sv.skip(0) =~= sv);
    while i < sel.len()
        invariant
            i <= sel.len(),
            sv == selection_view(sel@),
            selection_of(sv, rt@) == selection_of(sv.skip(i as int), rt@),
        decreases sel.len() - i,
    {
        let ghost rest = sv.skip(i as int);
        assert(rest[0] == (sel@[i as int].0@, jv_list(sel@[i as int].1@)));
        if str_eq(sel[i].0.as_str(), rt) {
            return Some(&sel[i].1);
        }
        assert(rest.drop_first() =~= sv.skip(i + 1));
        i = i + 1;
    }
    None
}

/// The resources of a type that are processed, or none when the type's
/// selection is empty.
fn to_process(rs: &Vec<Json>, rt: &str, sel: &Vec<(String, Vec<Json>)>) -> (r: Option<Vec<Json>>)
    ensures
        match r {
            Some(v) => to_process_spec(jv_list(rs@), rt@, selection_view(sel@)) == Some(
                jv_list(v@),
            ),
            None => to_process_spec(jv_list(rs@), rt@, selection_view(sel@)) is None,
        },
{
    if sel.len() == 0 {
        return Some(copy_all(rs));
    }
    match selection_for(sel, rt) {
        Some(s) => {
            if s.len() == 0 {
                proof {
                    crate::json::lemma_jv_list(s@);
                }
                None
            } else {
                proof {
                    crate::json::lemma_jv_list(s@);
                }
                let ids = selected_ids(s);
                Some(keep_selected(rs, rt, &ids))
            }
        },
        None => Some(copy_all(rs)),
    }
}

/// The resources of one type in a scan result, if it holds an array there.
fn resources_in<'a>(scan: &'a Json, rt: &str) -> (r: Option<&'a Vec<Json>>)
    ensures
        match r {
            Some(v) => resources_spec(scan@, rt@) == jv_list(v@),
            None => resources_spec(scan@, rt@) == Seq::<JsonV>::empty(),
        },
{
    match scan.get(rt) {
        Some(Json::Array(a)) => Some(a),
        _ => None,
    }
}

/// The provider a scan result names, `aws` by default.
fn provider_in(scan: &Json) -> (r: &str)
    ensures
        r@ == provider_of(scan@),
{
    match scan.str_field("provider") {
        Some(p) => p.as_str(),
        None => "aws",
    }
}

impl TerraformGenerator {
    /// The name that identifies a resource of the given type in generated
    /// code, or an error that names the missing field.
    pub fn get_resource_name(resource: &Json, resource_type: &str) -> (r: Result<String, String>)
        ensures
            text_result(r) == resource_name_spec(resource@, resource_type@),
    {
        resource_name_of(resource, resource_type)
    }

    /// The templates of a provider: those of AWS for `aws`, of Azure for
    /// `azure`, none for any other provider.
    pub fn get_templates_for_provider(provider: &str) -> (r: Vec<ResourceTemplate>)
        ensures
            matches_table(r@, templates_for(provider@), provider@),
    {
        if str_eq(provider, "aws") {
            AwsProvider.get_templates()
        } else if str_eq(provider, "azure") {
            AzureProvider.get_templates()
        } else {
            Vec::new()
        }
    }

    /// The `terraform import` command of one resource, or why there is none.
    pub fn generate_import_command(resource: &Json, resource_type: &str, provider: &str) -> (r:
        Result<String, String>)
        ensures
            text_result(r) == import_command_spec(resource@, resource_type@, provider@),
    {
        let name = match resource_name_of(resource, resource_type) {
            Ok(n) => n,
            Err(e) => return Err(e),
        };
        let tf_name = NamingGenerator::to_snake_case(name.as_str());
        let kind: Option<&str> = if str_eq(resource_type, "users") {
            Some("aws_iam_user")
        } else if str_eq(resource_type, "groups") {
            Some("aws_iam_group")
        } else if str_eq(resource_type, "roles") {
            Some("aws_iam_role")
        } else if str_eq(resource_type, "policies") {
            Some("aws_iam_policy")
        } else {
            None
        };
        match kind {
            Some(k) if str_eq(provider, "aws") => match resource.str_field("arn") {
                None => Err(owned("Missing ARN")),
                Some(arn) => {
                    let mut cmd = owned("terraform import ");
                    cmd.append(k);
                    cmd.append(".");
                    cmd.append(tf_name.as_str());
                    cmd.append(" ");
                    cmd.append(arn.as_str());
                    Ok(cmd)
                },
            },
            _ => Err(owned("Unsupported provider/resource type combination")),
        }
    }

    /// The line that marks a generated file.
    pub fn generated_by_header() -> (r: &'static str)
        ensures
            r@ == header_spec(),
    {
        "# Generated by TFKosmos Community Edition"
    }

    /// A bash script that runs the commands in order and stops at the first
    /// that fails.
    pub fn generate_sh_import_script(commands: &Vec<String>) -> (r: String)
        ensures
            r@ == sh_script_spec(texts(commands@)),
    {
        let mut script = owned("#!/bin/bash\n");
        script.append("# Terraform import script\n");
        script.append(Self::generated_by_header());
        script.append("\n\n");
        script.append("set -e\n\n");
        append_lines(&mut script, commands);
        script
    }

    /// A PowerShell script that runs the commands in order and stops at the
    /// first that fails.
    pub fn generate_ps1_import_script(commands: &Vec<String>) -> (r: String)
        ensures
            r@ == ps1_script_spec(texts(commands@)),
    {
        let mut script = owned("# Terraform import script\n");
        script.append(Self::generated_by_header());
        script.append("\n\n");
        script.append("$ErrorActionPreference = \"Stop\"\n\n");
        append_lines(&mut script, commands);
        script
    }

    /// The README that lists the generated files and how to use them.
    pub fn readme_content(files: &Vec<String>) -> (r: String)
        ensures
            r@ == readme_spec(texts(files@)),
    {
        let mut readme = owned("# Terraform Code Generation\n\n");
        readme.append("This directory contains Terraform code generated by TFKosmos.\n\n");
        readme.append("## Generated Files\n\n");
        let mut i: usize = 0;
        let ghost head = readme@;
        while i < files.len()
            invariant
                i <= files.len(),
                readme@ == head + bullets(texts(files@).take(i as int)),
            decreases files.len() - i,
        {
            readme.append("- ");
            readme.append(files[i].as_str());
            readme.append("\n");
            assert(texts(files@).take(i + 1).drop_last() =~= texts(files@).take(i as int));
            i = i + 1;
        }
        assert(texts(files@).take(files.len() as int) =~= texts(files@));
        readme.append("\n## Usage\n\n");
        readme.append("1. Review the generated Terraform files\n");
        readme.append("2. Run `terraform init` to initialize the Terraform working directory\n");
        readme.append("3. Run `terraform plan` to review the changes\n");
        readme.append("4. Run `terraform apply` to apply the changes\n\n");
        readme.append("## Import Script\n\n");
        readme.append(
            "Use the generated import script to import existing resources into Terraform state.\n",
        );
        readme
    }

    /// The import commands of a scan result: for each resource type of the
    /// scan's provider, in template order, the command of each processed
    /// resource that has one.
    pub fn import_commands(scan_data: &Json, selected_resources: &Vec<(String, Vec<Json>)>) -> (r:
        Vec<String>)
        ensures
            texts(r@) == import_commands_spec(scan_data@, selection_view(selected_resources@)),
    {
        let provider = provider_in(scan_data);
        let templates = Self::get_templates_for_provider(provider);
        let ghost tpls = templates_for(provider@);
        let ghost sel = selection_view(selected_resources@);
        let mut out: Vec<String> = Vec::new();
        let mut t: usize = 0;
        while t < templates.len()
            invariant
                t <= templates.len(),
                matches_table(templates@, tpls, provider@),
                provider@ == provider_of(scan_data@),
                tpls == templates_for(provider@),
                sel == selection_view(selected_resources@),
                texts(out@) == all_commands(scan_data@, sel, tpls.take(t as int), provider@),
            decreases templates.len() - t,
        {
            let rt = templates[t].resource_type;
            assert(tpls.take(t + 1).drop_last() =~= tpls.take(t as int));
            assert(tpls.take(t + 1).last().0 == rt@);
            let ghost before = out@;
            match resources_in(scan_data, rt) {
                None => {
                    assert(to_process_spec(Seq::<JsonV>::empty(), rt@, sel) is Some ==> commands_for(
                        to_process_spec(Seq::<JsonV>::empty(), rt@, sel).unwrap(),
                        rt@,
                        provider@,
                    ).len() == 0) by {
                        lemma_kept_empty(rt@, sel);
                    }
                    assert(type_commands(scan_data@, sel, rt@, provider@) =~= Seq::<
                        Seq<char>,
                    >::empty());
                    assert(texts(out@) =~= texts(out@) + type_commands(
                        scan_data@,
                        sel,
                        rt@,
                        provider@,
                    ));
                },
                Some(rs) => {
                    match to_process(rs, rt, selected_resources) {
                        None => {
                            assert(texts(out@) =~= texts(out@) + type_commands(
                                scan_data@,
                                sel,
                                rt@,
                                provider@,
                            ));
                        },
                        Some(p) => {
                            append_commands(&mut out, &p, rt, provider);
                        },
                    }
                },
            }
            t = t + 1;
        }
        assert(tpls.take(templates.len() as int) =~= tpls);
        out
    }

    /// The import script of a scan result in the configured format, or none
    /// when no resource has an import command.
    pub fn generate_import_script(
        scan_data: &Json,
        config: &GenerationConfig,
        selected_resources: &Vec<(String, Vec<Json>)>,
    ) -> (r: Option<ImportScript>)
        ensures
            match r {
                Some(s) => import_script_spec(
                    import_commands_spec(scan_data@, selection_view(selected_resources@)),
                    config.import_script_format@,
                ) == Some((s.file_name@, s.content@)),
                None => import_script_spec(
                    import_commands_spec(scan_data@, selection_view(selected_resources@)),
                    config.import_script_format@,
                ) is None,
            },
    {
        let commands = Self::import_commands(scan_data, selected_resources);
        if commands.len() == 0 {
            return None;
        }
        if str_eq(config.import_script_format.as_str(), "ps1") {
            Some(
                ImportScript {
                    file_name: owned("import.ps1"),
                    content: Self::generate_ps1_import_script(&commands),
                },
            )
        } else {
            Some(
                ImportScript {
                    file_name: owned("import.sh"),
                    content: Self::generate_sh_import_script(&commands),
                },
            )
        }
    }
}


/// A file to render: its name, its template, the context of each resource
/// rendered into it, the error to report if rendering fails, and whether each
/// rendering is followed by a blank line.
pub struct RenderJob {
    pub file_name: String,
    pub template_path: String,
    pub contexts: Vec<Json>,
    pub failure: String,
    pub separated: bool,
}

pub open spec fn job_view(j: RenderJob) -> JobV {
    (j.file_name@, j.template_path@, jv_list(j.contexts@), j.failure@, j.separated)
}

/// An optional text as an optional sequence of characters.
pub open spec fn opt_text(o: Option<String>) -> Option<Seq<char>> {
    match o {
        Some(t) => Some(t@),
        None => None,
    }
}

pub open spec fn jobs_view(v: Seq<RenderJob>) -> Seq<JobV> {
    v.map_values(|j: RenderJob| job_view(j))
}

/// What generating code from a scan result writes: the render jobs, the
/// README text when one is asked for, and the names of all files, in order;
/// and the error that ends the generation after the jobs, when a resource
/// type fails.
pub struct GenerationPlan {
    pub jobs: Vec<RenderJob>,
    pub readme: Option<String>,
    pub files: Vec<String>,
    pub failure: Option<String>,
}

/// The template context of one resource under a given name.
fn make_context(resource: &Json, rt: &str, tf_name: String) -> (r: Json)
    ensures
        r@ == context_spec(resource@, rt@, tf_name@),
{
    let mut e: Vec<(String, Json)> = Vec::new();
    let first = (owned("resource_name"), Json::Str(tf_name));
    proof {
        crate::json::lemma_jv_entries_push(e@, first);
    }
    e.push(first);
    let second = (owned(context_key_of(rt)), resource.clone());
    proof {
        crate::json::lemma_jv_entries_push(e@, second);
        assert(e@.push(second).drop_last() =~= e@);
    }
    let ghost e1 = e@;
    e.push(second);
    proof {
        assert(Seq::<(String, Json)>::empty().push(first).drop_last() =~= Seq::<(String, Json)>::empty());
        assert(crate::json::jv_entries(e@) =~= seq![
            ("resource_name"@, JsonV::Str(tf_name@)),
            (context_key(rt@), resource@),
        ]);
    }
    Json::Object(e)
}

/// The error reported for a resource type under a file split rule.
fn failure_of(rule: &str, rt: &str) -> (r: String)
    ensures
        r@ == failure_spec(rule@, rt@),
{
    let mut m = if str_eq(rule, "by_resource_type") {
        owned("Failed to generate file by resource type for type '")
    } else if str_eq(rule, "by_resource_name") {
        owned("Failed to generate files by resource name for type '")
    } else {
        owned("Failed to generate single file for type '")
    };
    m.append(rt);
    m.append("'");
    m
}

/// The contexts of resources rendered into one file, or none when some
/// resource has no name.
fn contexts_of(rs: &Vec<Json>, rt: &str, conv: &str) -> (r: Option<Vec<Json>>)
    ensures
        match r {
            Some(v) => contexts_spec(jv_list(rs@), rt@, conv@) == Some(jv_list(v@)),
            None => contexts_spec(jv_list(rs@), rt@, conv@) is None,
        },
{
    let ghost sv = jv_list(rs@);
    proof {
        lemma_jv_list(rs@);
    }
    let mut out: Vec<Json> = Vec::new();
    let mut i: usize = 0;
    while i < rs.len()
        invariant
            i <= rs.len(),
            sv == jv_list(rs@),
            sv.len() == rs@.len(),
            forall|j: int| 0 <= j < rs@.len() ==> #[trigger] sv[j] == jv(rs@[j]),
            contexts_spec(sv.take(i as int), rt@, conv@) == Some(jv_list(out@)),
        decreases rs.len() - i,
    {
        assert(sv.take(i + 1).drop_last() =~= sv.take(i as int));
        assert(sv.take(i + 1).last() == rs@[i as int]@);
        match resource_name_of(&rs[i], rt) {
            Err(_) => {
                proof {
                    lemma_contexts_none_grows(sv, i as int + 1, rt@, conv@);
                }
                return None;
            },
            Ok(n) => {
                let tf = NamingGenerator::apply_naming_convention(n.as_str(), conv);
                let c = make_context(&rs[i], rt, tf);
                proof {
                    crate::json::lemma_jv_list_push(out@, c);
                }
                out.push(c);
            },
        }
        i = i + 1;
    }
    assert(sv.take(rs.len() as int) =~= sv);
    Some(out)
}

proof fn lemma_contexts_none_grows(s: Seq<JsonV>, k: int, rt: Seq<char>, conv: Seq<char>)
    requires
        0 <= k <= s.len(),
        contexts_spec(s.take(k), rt, conv) is None,
    ensures
        contexts_spec(s, rt, conv) is None,
    decreases s.len() - k,
{
    if k < s.len() {
        assert(s.take(k + 1).drop_last() =~= s.take(k));
        lemma_contexts_none_grows(s, k + 1, rt, conv);
    } else {
        assert(s.take(k) =~= s);
    }
}

proof fn lemma_name_jobs_stops(
    s: Seq<JsonV>,
    k: int,
    rt: Seq<char>,
    tp: Seq<char>,
    conv: Seq<char>,
    fail: Seq<char>,
)
    requires
        0 <= k <= s.len(),
        !name_jobs(s.take(k), rt, tp, conv, fail).1,
    ensures
        name_jobs(s, rt, tp, conv, fail) == name_jobs(s.take(k), rt, tp, conv, fail),
    decreases s.len() - k,
{
    if k < s.len() {
        assert(s.take(k + 1).drop_last() =~= s.take(k));
        lemma_name_jobs_stops(s, k + 1, rt, tp, conv, fail);
    } else {
        assert(s.take(k) =~= s);
    }
}

/// Appends one render job per resource, up to the first resource that has
/// no name; tells whether every resource has one.
fn push_name_jobs(
    jobs: &mut Vec<RenderJob>,
    rs: &Vec<Json>,
    rt: &str,
    tp: &str,
    conv: &str,
    fail: &String,
) -> (ok: bool)
    ensures
        jobs_view(final(jobs)@) == jobs_view(old(jobs)@) + name_jobs(jv_list(rs@), rt@, tp@, conv@, fail@).0,
        ok == name_jobs(jv_list(rs@), rt@, tp@, conv@, fail@).1,
{
    let ghost sv = jv_list(rs@);
    proof {
        lemma_jv_list(rs@);
    }
    let ghost start = jobs_view(jobs@);
    let mut i: usize = 0;
    while i < rs.len()
        invariant
            i <= rs.len(),
            sv == jv_list(rs@),
            sv.len() == rs@.len(),
            forall|j: int| 0 <= j < rs@.len() ==> #[trigger] sv[j] == jv(rs@[j]),
            start == jobs_view(old(jobs)@),
            name_jobs(sv.take(i as int), rt@, tp@, conv@, fail@).1,
            jobs_view(jobs@) == start + name_jobs(sv.take(i as int), rt@, tp@, conv@, fail@).0,
        decreases rs.len() - i,
    {
        assert(sv.take(i + 1).drop_last() =~= sv.take(i as int));
        assert(sv.take(i + 1).last() == rs@[i as int]@);
        match resource_name_of(&rs[i], rt) {
            Err(_) => {
                proof {
                    assert(name_jobs(sv.take(i + 1), rt@, tp@, conv@, fail@) == (
                        name_jobs(sv.take(i as int), rt@, tp@, conv@, fail@).0,
                        false,
                    ));
                    lemma_name_jobs_stops(sv, i as int + 1, rt@, tp@, conv@, fail@);
                }
                return false;
            },
            Ok(n) => {
                let tf = NamingGenerator::apply_naming_convention(n.as_str(), conv);
                let mut file_name = owned(rt);
                file_name.append("_");
                file_name.append(tf.as_str());
                file_name.append(".tf");
                let c = make_context(&rs[i], rt, tf);
                let mut contexts: Vec<Json> = Vec::new();
                proof {
                    crate::json::lemma_jv_list_push(contexts@, c);
                }
                contexts.push(c);
                let job = RenderJob {
                    file_name,
                    template_path: owned(tp),
                    contexts,
                    failure: fail.clone(),
                    separated: false,
                };
                let ghost prev = jobs@;
                jobs.push(job);
                proof {
                    assert(jv_list(job.contexts@) =~= seq![c@]);
                    assert(jobs_view(jobs@) =~= jobs_view(prev).push(job_view(job)));
                }
            },
        }
        i = i + 1;
    }
    assert(sv.take(rs.len() as int) =~= sv);
    true
}

/// The text a render job writes with its template, or the job's error.
pub open spec fn job_text_spec(j: JobV, template: Seq<char>) -> Result<Seq<char>, Seq<char>> {
    match file_text(j.1, template, j.2, j.4) {
        Some(t) => Ok(t),
        None => Err(j.3),
    }
}

impl TerraformGenerator {
    /// The text a render job writes, given its template's text; the job's
    /// error when a rendering fails.
    pub fn job_text(job: &RenderJob, template_content: &str) -> (r: Result<String, String>)
        ensures
            text_result(r) == job_text_spec(job_view(*job), template_content@),
    {
        match TemplateManager::render_file(
            job.template_path.as_str(),
            template_content,
            &job.contexts,
            job.separated,
        ) {
            Some(t) => Ok(t),
            None => Err(job.failure.clone()),
        }
    }

    /// What generating Terraform code from a scan result writes: for each
    /// resource type of the scan's provider with resources to process, in
    /// template order, the files of the configured split rule (named with the
    /// configured naming convention); then the README when it is asked for.
    /// When a type's resources cannot all be named, the plan stops after
    /// the jobs that come before that point (under `by_resource_name`, the
    /// files of the resources before the unnamed one) and carries that type's
    /// error, to be reported once those jobs are done; it fails when nothing
    /// would be written.
    pub fn generate_plan(
        scan_data: &Json,
        config: &GenerationConfig,
        selected_resources: &Vec<(String, Vec<Json>)>,
    ) -> (r: Result<GenerationPlan, String>)
        ensures
            match r {
                Ok(p) => plan_spec(
                    scan_data@,
                    selection_view(selected_resources@),
                    config.naming_convention@,
                    config.file_split_rule@,
                    config.generate_readme,
                ) == Ok::<PlanV, Seq<char>>(
                    (jobs_view(p.jobs@), opt_text(p.readme), texts(p.files@), opt_text(p.failure)),
                ),
                Err(e) => plan_spec(
                    scan_data@,
                    selection_view(selected_resources@),
                    config.naming_convention@,
                    config.file_split_rule@,
                    config.generate_readme,
                ) == Err::<PlanV, Seq<char>>(e@),
            },
    {
        let provider = provider_in(scan_data);
        let templates = Self::get_templates_for_provider(provider);
        let conv = config.naming_convention.as_str();
        let rule = config.file_split_rule.as_str();
        let ghost tpls = templates_for(provider@);
        let ghost sel = selection_view(selected_resources@);
        let mut jobs: Vec<RenderJob> = Vec::new();
        let mut failed: Option<String> = None;
        let mut t: usize = 0;
        assert(tpls.take(0) =~= Seq::<(Seq<char>, Seq<char>)>::empty());
        assert(jobs_view(jobs@) =~= Seq::<JobV>::empty());
        while t < templates.len() && failed.is_none()
            invariant
                t <= templates.len(),
                matches_table(templates@, tpls, provider@),
                provider@ == provider_of(scan_data@),
                tpls == templates_for(provider@),
                sel == selection_view(selected_resources@),
                conv@ == config.naming_convention@,
                rule@ == config.file_split_rule@,
                all_jobs(scan_data@, sel, tpls.take(t as int), conv@, rule@) == (jobs_view(jobs@), opt_text(failed)),
            decreases templates.len() - t,
        {
            let rt = templates[t].resource_type;
            let tp = templates[t].template_path;
            assert(tpls.take(t + 1).drop_last() =~= tpls.take(t as int));
            assert(tpls.take(t + 1).last() == (rt@, tp@));
            let fail = failure_of(rule, rt);
            let processed = match resources_in(scan_data, rt) {
                None => {
                    proof {
                        lemma_kept_empty(rt@, sel);
                    }
                    None
                },
                Some(rs) => to_process(rs, rt, selected_resources),
            };
            match processed {
                None => {
                    assert(jobs_view(jobs@) + Seq::<JobV>::empty() =~= jobs_view(jobs@));
                },
                Some(p) => {
                    if p.len() == 0 {
                        proof {
                            lemma_jv_list(p@);
                        }
                        assert(jobs_view(jobs@) + Seq::<JobV>::empty() =~= jobs_view(jobs@));
                    } else if str_eq(rule, "by_resource_name") {
                        proof {
                            lemma_jv_list(p@);
                        }
                        let ok = push_name_jobs(&mut jobs, &p, rt, tp, conv, &fail);
                        if !ok {
                            failed = Some(fail);
                        }
                    } else {
                        proof {
                            lemma_jv_list(p@);
                        }
                        match contexts_of(&p, rt, conv) {
                            None => {
                                assert(jobs_view(jobs@) + Seq::<JobV>::empty() =~= jobs_view(jobs@));
                                failed = Some(fail);
                            },
                            Some(cs) => {
                                let mut file_name = owned(rt);
                                file_name.append(".tf");
                                let job = RenderJob {
                                    file_name,
                                    template_path: owned(tp),
                                    contexts: cs,
                                    failure: fail,
                                    separated: true,
                                };
                                let ghost prev = jobs@;
                                jobs.push(job);
                                assert(jobs_view(jobs@) =~= jobs_view(prev) + seq![job_view(job)]);
                            },
                        }
                    }
                },
            }
            t = t + 1;
        }
        if failed.is_some() {
            proof {
                lemma_all_jobs_stops(scan_data@, sel, tpls, t as int, conv@, rule@);
            }
        } else {
            assert(tpls.take(templates.len() as int) =~= tpls);
        }
        let mut files: Vec<String> = Vec::new();
        let mut i: usize = 0;
        while i < jobs.len()
            invariant
                i <= jobs.len(),
                texts(files@) == job_files(jobs_view(jobs@)).take(i as int),
            decreases jobs.len() - i,
        {
            let f = jobs[i].file_name.clone();
            let ghost prev = files@;
            files.push(f);
            assert(texts(files@) =~= texts(prev).push(f@));
            assert(job_files(jobs_view(jobs@))[i as int] == jobs@[i as int].file_name@);
            assert(texts(files@) =~= job_files(jobs_view(jobs@)).take(i + 1));
            i = i + 1;
        }
        assert(job_files(jobs_view(jobs@)).take(jobs.len() as int) =~= job_files(jobs_view(jobs@)));
        if failed.is_some() {
            Ok(GenerationPlan { jobs, readme: None, files, failure: failed })
        } else if config.generate_readme {
            let readme = Self::readme_content(&files);
            let ghost prev = files@;
            files.push(owned("README.md"));
            assert(texts(files@) =~= texts(prev).push("README.md"@));
            Ok(GenerationPlan { jobs, readme: Some(readme), files, failure: None })
        } else if files.len() == 0 {
            Err(
                owned(
                    "No files were generated. This may be because:\n1. No resources were found in the scan data\n2. All resources were filtered out by selection\n3. Template files could not be loaded\nPlease check the scan data and ensure resources exist.",
                ),
            )
        } else {
            Ok(GenerationPlan { jobs, readme: None, files, failure: None })
        }
    }
}

proof fn lemma_all_jobs_stops(
    scan: JsonV,
    sel: Seq<(Seq<char>, Seq<JsonV>)>,
    tpls: Seq<(Seq<char>, Seq<char>)>,
    k: int,
    conv: Seq<char>,
    rule: Seq<char>,
)
    requires
        0 <= k <= tpls.len(),
        all_jobs(scan, sel, tpls.take(k), conv, rule).1 is Some,
    ensures
        all_jobs(scan, sel, tpls, conv, rule) == all_jobs(scan, sel, tpls.take(k), conv, rule),
    decreases tpls.len() - k,
{
    if k < tpls.len() {
        assert(tpls.take(k + 1).drop_last() =~= tpls.take(k));
        lemma_all_jobs_stops(scan, sel, tpls, k + 1, conv, rule);
    } else {
        assert(tpls.take(k) =~= tpls);
    }
}

proof fn lemma_kept_empty(rt: Seq<char>, sel: Seq<(Seq<char>, Seq<JsonV>)>)
    ensures
        to_process_spec(Seq::<JsonV>::empty(), rt, sel) is Some ==> to_process_spec(
            Seq::<JsonV>::empty(),
            rt,
            sel,
        ).unwrap() == Seq::<JsonV>::empty(),
{
}

/// Appends each command followed by a line break.
fn append_lines(script: &mut String, commands: &Vec<String>)
    ensures
        final(script)@ == old(script)@ + lines(texts(commands@)),
{
    let ghost head = script@;
    let mut i: usize = 0;
    while i < commands.len()
        invariant
            i <= commands.len(),
            script@ == head + lines(texts(commands@).take(i as int)),
        decreases commands.len() - i,
    {
        script.append(commands[i].as_str());
        script.append("\n");
        assert(texts(commands@).take(i + 1).drop_last() =~= texts(commands@).take(i as int));
        i = i + 1;
    }
    assert(texts(commands@).take(commands.len() as int) =~= texts(commands@));
}

/// Appends the import command of each resource that has one.
fn append_commands(out: &mut Vec<String>, rs: &Vec<Json>, rt: &str, provider: &str)
    ensures
        texts(final(out)@) == texts(old(out)@) + commands_for(jv_list(rs@), rt@, provider@),
{
    let ghost sv = jv_list(rs@);
    proof {
        lemma_jv_list(rs@);
    }
    let ghost start = texts(out@);
    let mut i: usize = 0;
    while i < rs.len()
        invariant
            i <= rs.len(),
            sv == jv_list(rs@),
            sv.len() == rs@.len(),
            forall|j: int| 0 <= j < rs@.len() ==> #[trigger] sv[j] == jv(rs@[j]),
            texts(out@) == start + commands_for(sv.take(i as int), rt@, provider@),
        decreases rs.len() - i,
    {
        assert(sv.take(i + 1).drop_last() =~= sv.take(i as int));
        assert(sv.take(i + 1).last() == rs@[i as int]@);
        match TerraformGenerator::generate_import_command(&rs[i], rt, provider) {
            Ok(c) => {
                let ghost prev = out@;
                out.push(c);
                assert(texts(out@) =~= texts(prev).push(c@));
                assert(texts(out@) =~= start + commands_for(sv.take(i + 1), rt@, provider@));
            },
            Err(_) => {},
        }
        i = i + 1;
    }
    assert(sv.take(rs.len() as int) =~= sv);
}

/// Without any selection, every resource of a type is processed.
pub proof fn law_no_selection_processes_all(rs: Seq<JsonV>, rt: Seq<char>)
    ensures
        to_process_spec(rs, rt, Seq::empty()) == Some(rs),
{
}

/// A type whose selection is empty is skipped, while other types are
/// selected.
pub proof fn law_empty_selection_skips_type(rs: Seq<JsonV>, rt: Seq<char>, sel: Seq<(Seq<char>, Seq<JsonV>)>)
    requires
        selection_of(sel, rt) == Some(Seq::<JsonV>::empty()),
    ensures
        to_process_spec(rs, rt, sel) is None,
{
    if sel.len() == 0 {
        assert(selection_of(sel, rt) is None);
    }
}

/// The selection keeps only selected resources, in their order, and never
/// more than there are.
pub proof fn law_selection_keeps_only_selected(rs: Seq<JsonV>, rt: Seq<char>, ids: Seq<Seq<char>>)
    ensures
        kept(rs, rt, ids).len() <= rs.len(),
        forall|i: int| 0 <= i < kept(rs, rt, ids).len() ==> is_selected(#[trigger] kept(rs, rt, ids)[i], rt, ids),
    decreases rs.len(),
{
    if rs.len() > 0 {
        law_selection_keeps_only_selected(rs.drop_last(), rt, ids);
    }
}

/// When every resource is selected, all of them are kept.
pub proof fn law_selecting_all_keeps_all(rs: Seq<JsonV>, rt: Seq<char>, ids: Seq<Seq<char>>)
    requires
        forall|i: int| 0 <= i < rs.len() ==> is_selected(#[trigger] rs[i], rt, ids),
    ensures
        kept(rs, rt, ids) == rs,
    decreases rs.len(),
{
    if rs.len() > 0 {
        law_selecting_all_keeps_all(rs.drop_last(), rt, ids);
        assert(rs.drop_last().push(rs.last()) =~= rs);
    }
}

/// Users, groups and roles are selected by their names: such a resource is
/// selected exactly when its `user_name`, `group_name` or `role_name` is
/// among the selected identifiers, whatever its ARN or other fields hold.
pub proof fn law_identities_selected_by_name(r: JsonV, ids: Seq<Seq<char>>)
    ensures
        is_selected(r, "users"@, ids) <==> (r.str_field("user_name"@) matches Some(n) && ids.contains(n)),
        is_selected(r, "groups"@, ids) <==> (r.str_field("group_name"@) matches Some(n) && ids.contains(n)),
        is_selected(r, "roles"@, ids) <==> (r.str_field("role_name"@) matches Some(n) && ids.contains(n)),
{
    reveal_strlit("users");
    reveal_strlit("groups");
    reveal_strlit("roles");
    assert("groups"@.len() != "users"@.len());
    assert("roles"@[0] != "users"@[0]);
    assert("roles"@.len() != "groups"@.len());
}

/// A policy is selected by its ARN when it has one, else by its
/// `policy_name`; a resource of any type other than users, groups, roles and
/// policies by its `arn`, else its `id`, else its `name`. The first of these
/// fields that is present decides, and it must be a string among the
/// selected identifiers.
pub proof fn law_others_selected_by_arn_first(r: JsonV, ids: Seq<Seq<char>>, rt: Seq<char>)
    requires
        rt != "users"@,
        rt != "groups"@,
        rt != "roles"@,
        rt != "policies"@,
    ensures
        r.get("arn"@) is Some ==> (is_selected(r, "policies"@, ids) <==> (r.str_field("arn"@) matches Some(a) && ids.contains(a))),
        r.get("arn"@) is None ==> (is_selected(r, "policies"@, ids) <==> (r.str_field("policy_name"@) matches Some(n) && ids.contains(n))),
        r.get("arn"@) is Some ==> (is_selected(r, rt, ids) <==> (r.str_field("arn"@) matches Some(a) && ids.contains(a))),
        (r.get("arn"@) is None && r.get("id"@) is Some) ==> (is_selected(r, rt, ids) <==> (r.str_field("id"@) matches Some(a) && ids.contains(a))),
        (r.get("arn"@) is None && r.get("id"@) is None) ==> (is_selected(r, rt, ids) <==> (r.str_field("name"@) matches Some(a) && ids.contains(a))),
{
    reveal_strlit("users");
    reveal_strlit("groups");
    reveal_strlit("roles");
    reveal_strlit("policies");
    assert("policies"@.len() != "users"@.len());
    assert("policies"@.len() != "groups"@.len());
    assert("policies"@.len() != "roles"@.len());
}

/// Every role whose name is selected is kept for generation.
pub proof fn law_selected_role_is_kept(rs: Seq<JsonV>, ids: Seq<Seq<char>>, i: int)
    requires
        0 <= i < rs.len(),
        rs[i].str_field("role_name"@) matches Some(n) && ids.contains(n),
    ensures
        kept(rs, "roles"@, ids).contains(rs[i]),
    decreases rs.len(),
{
    law_identities_selected_by_name(rs[i], ids);
    if i == rs.len() - 1 {
        assert(kept(rs, "roles"@, ids).last() == rs.last());
    } else {
        law_selected_role_is_kept(rs.drop_last(), ids, i);
        let k = kept(rs.drop_last(), "roles"@, ids);
        let j = choose|j: int| 0 <= j < k.len() && k[j] == rs[i];
        if is_selected(rs.last(), "roles"@, ids) {
            assert(k.push(rs.last())[j] == rs[i]);
        }
    }
}

/// There is an import script exactly when there are commands; it is
/// `import.ps1` for the `ps1` format and `import.sh` for any other, and it
/// ends with the commands, one per line.
pub proof fn law_import_script_shape(cmds: Seq<Seq<char>>, format: Seq<char>)
    ensures
        import_script_spec(cmds, format) is None <==> cmds.len() == 0,
        cmds.len() > 0 ==> import_script_spec(cmds, format).unwrap().0 == (if format == "ps1"@ {
            "import.ps1"@
        } else {
            "import.sh"@
        }),
        cmds.len() > 0 ==> crate::text::ends_with(import_script_spec(cmds, format).unwrap().1, lines(cmds)),
{
    if cmds.len() > 0 {
        let t = import_script_spec(cmds, format).unwrap().1;
        let l = lines(cmds);
        let head = t.take(t.len() - l.len());
        assert(t =~= head + l);
        assert(t.skip(t.len() - l.len()) =~= l);
    }
}

/// A generation that no resource type ends early writes at least one
/// file: the files of its render jobs, in order, followed by the README
/// when one is asked for, which lists those files.
pub proof fn law_generation_writes_files(
    scan: JsonV,
    sel: Seq<(Seq<char>, Seq<JsonV>)>,
    conv: Seq<char>,
    rule: Seq<char>,
    readme: bool,
)
    requires
        plan_spec(scan, sel, conv, rule, readme) is Ok,
        plan_spec(scan, sel, conv, rule, readme)->Ok_0.3 is None,
    ensures
        ({
            let p = plan_spec(scan, sel, conv, rule, readme)->Ok_0;
            &&& p.2.len() > 0
            &&& p.2 == (if readme {
                job_files(p.0).push("README.md"@)
            } else {
                job_files(p.0)
            })
            &&& p.1 == (if readme {
                Some(readme_spec(job_files(p.0)))
            } else {
                None
            })
        }),
{
}

/// With no resources to process at all, the generation writes only the
/// README when one is asked for, and fails with the no-files error
/// otherwise.
pub proof fn law_nothing_to_process(
    scan: JsonV,
    sel: Seq<(Seq<char>, Seq<JsonV>)>,
    conv: Seq<char>,
    rule: Seq<char>,
    readme: bool,
)
    requires
        all_jobs(scan, sel, templates_for(provider_of(scan)), conv, rule) == (Seq::<JobV>::empty(), None::<Seq<char>>),
    ensures
        readme ==> plan_spec(scan, sel, conv, rule, readme) == Ok::<PlanV, Seq<char>>(
            (Seq::<JobV>::empty(), Some(readme_spec(Seq::empty())), seq!["README.md"@], None),
        ),
        !readme ==> plan_spec(scan, sel, conv, rule, readme) == Err::<PlanV, Seq<char>>(no_files_message()),
{
    assert(job_files(Seq::<JobV>::empty()) =~= Seq::<Seq<char>>::empty());
    assert(Seq::<Seq<char>>::empty().push("README.md"@) =~= seq!["README.md"@]);
}

/// A resource type that fails ends the generation: nothing after it is
/// written, no README either, and its error is what the generation
/// reports once the files before it are written.
pub proof fn law_failing_type_ends_generation(
    scan: JsonV,
    sel: Seq<(Seq<char>, Seq<JsonV>)>,
    conv: Seq<char>,
    rule: Seq<char>,
    readme: bool,
)
    requires
        all_jobs(scan, sel, templates_for(provider_of(scan)), conv, rule).1 is Some,
    ensures
        ({
            let (js, f) = all_jobs(scan, sel, templates_for(provider_of(scan)), conv, rule);
            plan_spec(scan, sel, conv, rule, readme) == Ok::<PlanV, Seq<char>>((js, None, job_files(js), f))
        }),
{
}

/// The files written for the resources of one type under
/// `by_resource_name`: `<type>_<name>.tf` per resource, its name in the
/// configured convention.
pub open spec fn name_files(rs: Seq<JsonV>, rt: Seq<char>, conv: Seq<char>) -> Seq<Seq<char>>
    decreases rs.len(),
{
    if rs.len() == 0 {
        Seq::empty()
    } else {
        name_files(rs.drop_last(), rt, conv).push(
            rt + "_"@ + convention_spec(resource_name_spec(rs.last(), rt)->Ok_0, conv) + ".tf"@,
        )
    }
}

/// The files written for one resource type: none when it has nothing to
/// process; one per resource under `by_resource_name`; `<type>.tf` under
/// any other rule.
pub open spec fn type_files(
    scan: JsonV,
    sel: Seq<(Seq<char>, Seq<JsonV>)>,
    rt: Seq<char>,
    conv: Seq<char>,
    rule: Seq<char>,
) -> Seq<Seq<char>> {
    match to_process_spec(resources_spec(scan, rt), rt, sel) {
        Some(p) => if p.len() == 0 {
            Seq::empty()
        } else if rule == "by_resource_name"@ {
            name_files(p, rt, conv)
        } else {
            seq![rt + ".tf"@]
        },
        None => Seq::empty(),
    }
}

/// The files written for the resource types of a template list, type by
/// type in template order.
pub open spec fn plan_files(
    scan: JsonV,
    sel: Seq<(Seq<char>, Seq<JsonV>)>,
    tpls: Seq<(Seq<char>, Seq<char>)>,
    conv: Seq<char>,
    rule: Seq<char>,
) -> Seq<Seq<char>>
    decreases tpls.len(),
{
    if tpls.len() == 0 {
        Seq::empty()
    } else {
        plan_files(scan, sel, tpls.drop_last(), conv, rule) + type_files(scan, sel, tpls.last().0, conv, rule)
    }
}

proof fn lemma_name_files(rs: Seq<JsonV>, rt: Seq<char>, tp: Seq<char>, conv: Seq<char>, fail: Seq<char>)
    requires
        name_jobs(rs, rt, tp, conv, fail).1,
    ensures
        job_files(name_jobs(rs, rt, tp, conv, fail).0) == name_files(rs, rt, conv),
    decreases rs.len(),
{
    if rs.len() > 0 {
        lemma_name_files(rs.drop_last(), rt, tp, conv, fail);
        let js = name_jobs(rs.drop_last(), rt, tp, conv, fail).0;
        let full = name_jobs(rs, rt, tp, conv, fail).0;
        assert(job_files(full) =~= job_files(js).push(full.last().0));
    } else {
        assert(job_files(Seq::<JobV>::empty()) =~= Seq::<Seq<char>>::empty());
    }
}

proof fn lemma_plan_files(
    scan: JsonV,
    sel: Seq<(Seq<char>, Seq<JsonV>)>,
    tpls: Seq<(Seq<char>, Seq<char>)>,
    conv: Seq<char>,
    rule: Seq<char>,
)
    requires
        all_jobs(scan, sel, tpls, conv, rule).1 is None,
    ensures
        job_files(all_jobs(scan, sel, tpls, conv, rule).0) == plan_files(scan, sel, tpls, conv, rule),
    decreases tpls.len(),
{
    if tpls.len() == 0 {
        assert(job_files(Seq::<JobV>::empty()) =~= Seq::<Seq<char>>::empty());
    } else {
        let (js, f) = all_jobs(scan, sel, tpls.drop_last(), conv, rule);
        lemma_plan_files(scan, sel, tpls.drop_last(), conv, rule);
        let rt = tpls.last().0;
        let tp = tpls.last().1;
        let (more, g) = type_jobs(scan, sel, rt, tp, conv, rule);
        assert(job_files(js + more) =~= job_files(js) + job_files(more));
        match to_process_spec(resources_spec(scan, rt), rt, sel) {
            Some(p) => if p.len() == 0 {
                assert(job_files(more) =~= Seq::<Seq<char>>::empty());
            } else if rule == "by_resource_name"@ {
                lemma_name_files(p, rt, tp, conv, failure_spec(rule, rt));
            } else {
                assert(job_files(more) =~= seq![rt + ".tf"@]);
            },
            None => {
                assert(job_files(more) =~= Seq::<Seq<char>>::empty());
            },
        }
    }
}

/// A generation that no resource type ends early writes, type by type in
/// template order, `<type>.tf` for each type with resources to process (or,
/// under `by_resource_name`, `<type>_<name>.tf` per resource), then the
/// README when one is asked for; with no such type it writes only the
/// README when one is asked for and fails with the no-files error
/// otherwise.
pub proof fn law_generation_file_list(
    scan: JsonV,
    sel: Seq<(Seq<char>, Seq<JsonV>)>,
    conv: Seq<char>,
    rule: Seq<char>,
    readme: bool,
)
    requires
        all_jobs(scan, sel, templates_for(provider_of(scan)), conv, rule).1 is None,
    ensures
        ({
            let fs = plan_files(scan, sel, templates_for(provider_of(scan)), conv, rule);
            &&& (fs.len() > 0 || readme) ==> plan_spec(scan, sel, conv, rule, readme) is Ok && plan_spec(
                scan,
                sel,
                conv,
                rule,
                readme,
            )->Ok_0.2 == (if readme {
                fs.push("README.md"@)
            } else {
                fs
            })
            &&& (fs.len() == 0 && !readme) ==> plan_spec(scan, sel, conv, rule, readme) == Err::<PlanV, Seq<char>>(
                no_files_message(),
            )
        }),
{
    lemma_plan_files(scan, sel, templates_for(provider_of(scan)), conv, rule);
}

} // verus!
