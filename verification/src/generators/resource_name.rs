use vstd::prelude::*;
use crate::json::{Json, JsonV};
use crate::text::{after_last_slash, concat3, has_char, last_path_segment, owned, str_eq, str_has_char};

verus! {

/// A result of text, taken by its characters.
pub open spec fn text_result(r: Result<String, String>) -> Result<Seq<char>, Seq<char>> {
    match r {
        Ok(s) => Ok(s@),
        Err(e) => Err(e@),
    }
}

/// The string under `key`, or the error `msg` when there is none.
pub open spec fn required(r: JsonV, key: Seq<char>, msg: Seq<char>) -> Result<Seq<char>, Seq<char>> {
    match r.str_field(key) {
        Some(v) => Ok(v),
        None => Err(msg),
    }
}

/// The text after the last `/` when there is one; the text itself otherwise.
pub open spec fn path_tail(s: Seq<char>) -> Seq<char> {
    if has_char(s, '/') {
        after_last_slash(s)
    } else {
        s
    }
}

/// For the resource types named by one field: that field and the error when
/// it is missing.
pub open spec fn single_field(rt: Seq<char>) -> Option<(Seq<char>, Seq<char>)> {
    if rt == "users"@ {
        Some(("user_name"@, "Missing user_name"@))
    } else if rt == "groups"@ {
        Some(("group_name"@, "Missing group_name"@))
    } else if rt == "roles"@ {
        Some(("role_name"@, "Missing role_name"@))
    } else if rt == "policies"@ {
        Some(("policy_name"@, "Missing policy_name"@))
    } else if rt == "buckets"@ {
        Some(("name"@, "Missing bucket name"@))
    } else if rt == "bucket_policies"@ {
        Some(("bucket"@, "Missing bucket (bucket policy target)"@))
    } else if rt == "instances"@ {
        Some(("instance_id"@, "Missing instance_id"@))
    } else if rt == "vpcs"@ {
        Some(("vpc_id"@, "Missing vpc_id"@))
    } else if rt == "subnets"@ {
        Some(("subnet_id"@, "Missing subnet_id"@))
    } else if rt == "route_tables"@ {
        Some(("route_table_id"@, "Missing route_table_id"@))
    } else if rt == "network_acls"@ {
        Some(("network_acl_id"@, "Missing network_acl_id"@))
    } else if rt == "db_instances"@ {
        Some(("db_instance_identifier"@, "Missing db_instance_identifier"@))
    } else if rt == "db_subnet_groups"@ {
        Some(("db_subnet_group_name"@, "Missing db_subnet_group_name"@))
    } else if rt == "db_parameter_groups"@ {
        Some(("db_parameter_group_name"@, "Missing db_parameter_group_name"@))
    } else {
        None
    }
}

/// The Azure resource types named by `name`, else by the tail of `id`.
pub open spec fn named_by_name_or_id(rt: Seq<char>) -> bool {
    rt == "virtual_machines"@ || rt == "virtual_networks"@ || rt == "network_security_groups"@
        || rt == "storage_accounts"@
}

/// The name of a resource in generated code, by resource type; an error
/// names the field that is missing.
pub open spec fn resource_name_spec(r: JsonV, rt: Seq<char>) -> Result<Seq<char>, Seq<char>> {
    match single_field(rt) {
        Some((key, msg)) => required(r, key, msg),
        None => if rt == "lifecycle_rules"@ {
            match r.str_field("bucket"@) {
                None => Err("Missing bucket for lifecycle rule"@),
                Some(bucket) => match r.str_field("id"@) {
                    None => Err("Missing id for lifecycle rule"@),
                    Some(id) => Ok(bucket + "_"@ + id),
                },
            }
        } else if rt == "security_groups"@ {
            match r.str_field("group_id"@) {
                Some(id) => Ok(id),
                None => match r.str_field("group_name"@) {
                    Some(n) => Ok(n),
                    None => Err("Missing group_id or group_name for security group"@),
                },
            }
        } else if rt == "role_definitions"@ {
            match r.str_field("role_name"@) {
                Some(n) => Ok(n),
                None => match r.str_field("role_definition_id"@) {
                    Some(id) => Ok(after_last_slash(id)),
                    None => Err("Missing role_name or role_definition_id for role definition"@),
                },
            }
        } else if rt == "role_assignments"@ {
            match r.str_field("assignment_id"@) {
                Some(id) => Ok(path_tail(id)),
                None => match r.str_field("principal_id"@) {
                    None => Err("Missing assignment_id or principal_id for role assignment"@),
                    Some(p) => {
                        let scope = match r.str_field("scope"@) {
                            Some(s) => s,
                            None => Seq::empty(),
                        };
                        Ok(p + "_"@ + path_tail(scope))
                    },
                },
            }
        } else if named_by_name_or_id(rt) {
            match r.str_field("name"@) {
                Some(n) => Ok(n),
                None => match r.str_field("id"@) {
                    Some(id) => Ok(after_last_slash(id)),
                    None => Err("Missing name or id"@),
                },
            }
        } else if rt == "sql_databases"@ {
            match r.str_field("name"@) {
                None => Err("Missing name for SQL database"@),
                Some(n) => match r.str_field("server_name"@) {
                    Some(s) => Ok(s + "_"@ + n),
                    None => Ok(n),
                },
            }
        } else {
            match r.str_field("name"@) {
                Some(n) => Ok(n),
                None => match r.str_field("display_name"@) {
                    Some(n) => Ok(n),
                    None => Err("Cannot determine resource name"@),
                },
            }
        },
    }
}

fn single_field_of(rt: &str) -> (r: Option<(&'static str, &'static str)>)
    ensures
        match r {
            Some((k, m)) => single_field(rt@) == Some((k@, m@)),
            None => single_field(rt@) is None,
        },
{
    if str_eq(rt, "users") {
        Some(("user_name", "Missing user_name"))
    } else if str_eq(rt, "groups") {
        Some(("group_name", "Missing group_name"))
    } else if str_eq(rt, "roles") {
        Some(("role_name", "Missing role_name"))
    } else if str_eq(rt, "policies") {
        Some(("policy_name", "Missing policy_name"))
    } else if str_eq(rt, "buckets") {
        Some(("name", "Missing bucket name"))
    } else if str_eq(rt, "bucket_policies") {
        Some(("bucket", "Missing bucket (bucket policy target)"))
    } else if str_eq(rt, "instances") {
        Some(("instance_id", "Missing instance_id"))
    } else if str_eq(rt, "vpcs") {
        Some(("vpc_id", "Missing vpc_id"))
    } else if str_eq(rt, "subnets") {
        Some(("subnet_id", "Missing subnet_id"))
    } else if str_eq(rt, "route_tables") {
        Some(("route_table_id", "Missing route_table_id"))
    } else if str_eq(rt, "network_acls") {
        Some(("network_acl_id", "Missing network_acl_id"))
    } else if str_eq(rt, "db_instances") {
        Some(("db_instance_identifier", "Missing db_instance_identifier"))
    } else if str_eq(rt, "db_subnet_groups") {
        Some(("db_subnet_group_name", "Missing db_subnet_group_name"))
    } else if str_eq(rt, "db_parameter_groups") {
        Some(("db_parameter_group_name", "Missing db_parameter_group_name"))
    } else {
        None
    }
}

/// The string under `key`, or the error `msg`.
fn require_str(r: &Json, key: &str, msg: &str) -> (out: Result<String, String>)
    ensures
        text_result(out) == required(r@, key@, msg@),
{
    match r.str_field(key) {
        Some(v) => Ok(v.clone()),
        None => Err(owned(msg)),
    }
}

/// The text after the last `/` when it holds one; the text itself otherwise.
fn tail_of(s: &str) -> (r: String)
    ensures
        r@ == path_tail(s@),
{
    if str_has_char(s, '/') {
        last_path_segment(s)
    } else {
        owned(s)
    }
}

/// The name that identifies a resource of the given type in generated
/// code, or an error that names the missing field.
pub fn resource_name_of(resource: &Json, resource_type: &str) -> (r: Result<String, String>)
    ensures
        text_result(r) == resource_name_spec(resource@, resource_type@),
{
    let rt = resource_type;
    match single_field_of(rt) {
        Some((key, msg)) => require_str(resource, key, msg),
        None => if str_eq(rt, "lifecycle_rules") {
            match resource.str_field("bucket") {
                None => Err(owned("Missing bucket for lifecycle rule")),
                Some(bucket) => match resource.str_field("id") {
                    None => Err(owned("Missing id for lifecycle rule")),
                    Some(id) => Ok(concat3(bucket.as_str(), "_", id.as_str())),
                },
            }
        } else if str_eq(rt, "security_groups") {
            match resource.str_field("group_id") {
                Some(id) => Ok(id.clone()),
                None => match resource.str_field("group_name") {
                    Some(n) => Ok(n.clone()),
                    None => Err(owned("Missing group_id or group_name for security group")),
                },
            }
        } else if str_eq(rt, "role_definitions") {
            match resource.str_field("role_name") {
                Some(n) => Ok(n.clone()),
                None => match resource.str_field("role_definition_id") {
                    Some(id) => Ok(last_path_segment(id.as_str())),
                    None => Err(
                        owned("Missing role_name or role_definition_id for role definition"),
                    ),
                },
            }
        } else if str_eq(rt, "role_assignments") {
            match resource.str_field("assignment_id") {
                Some(id) => Ok(tail_of(id.as_str())),
                None => match resource.str_field("principal_id") {
                    None => Err(
                        owned("Missing assignment_id or principal_id for role assignment"),
                    ),
                    Some(p) => {
                        let suffix = match resource.str_field("scope") {
                            Some(s) => tail_of(s.as_str()),
                            None => {
                                let empty = String::new();
                                proof {
                                    assert(path_tail(Seq::<char>::empty()) == Seq::<char>::empty());
                                }
                                empty
                            },
                        };
                        Ok(concat3(p.as_str(), "_", suffix.as_str()))
                    },
                },
            }
        } else if str_eq(rt, "virtual_machines") || str_eq(rt, "virtual_networks") || str_eq(
            rt,
            "network_security_groups",
        ) || str_eq(rt, "storage_accounts") {
            match resource.str_field("name") {
                Some(n) => Ok(n.clone()),
                None => match resource.str_field("id") {
                    Some(id) => Ok(last_path_segment(id.as_str())),
                    None => Err(owned("Missing name or id")),
                },
            }
        } else if str_eq(rt, "sql_databases") {
            match resource.str_field("name") {
                None => Err(owned("Missing name for SQL database")),
                Some(n) => match resource.str_field("server_name") {
                    Some(s) => Ok(concat3(s.as_str(), "_", n.as_str())),
                    None => Ok(n.clone()),
                },
            }
        } else {
            match resource.str_field("name") {
                Some(n) => Ok(n.clone()),
                None => match resource.str_field("display_name") {
                    Some(n) => Ok(n.clone()),
                    None => Err(owned("Cannot determine resource name")),
                },
            }
        },
    }
}


/// A resource of an AWS type is named by that type's own identifier field:
/// a subnet by its `subnet_id`, a VPC by its `vpc_id`, an instance by its
/// `instance_id`, a user, group, role or policy by its name, a bucket by its
/// `name`, a database resource by its identifier or name; without that field
/// there is no name, whatever other fields it holds.
pub proof fn law_named_by_own_identifier(r: JsonV)
    ensures
        r.str_field("user_name"@) matches Some(id) ==> resource_name_spec(r, "users"@) == Ok::<Seq<char>, Seq<char>>(id),
        r.str_field("user_name"@) is None ==> resource_name_spec(r, "users"@) is Err,
        r.str_field("group_name"@) matches Some(id) ==> resource_name_spec(r, "groups"@) == Ok::<Seq<char>, Seq<char>>(id),
        r.str_field("group_name"@) is None ==> resource_name_spec(r, "groups"@) is Err,
        r.str_field("role_name"@) matches Some(id) ==> resource_name_spec(r, "roles"@) == Ok::<Seq<char>, Seq<char>>(id),
        r.str_field("role_name"@) is None ==> resource_name_spec(r, "roles"@) is Err,
        r.str_field("policy_name"@) matches Some(id) ==> resource_name_spec(r, "policies"@) == Ok::<Seq<char>, Seq<char>>(id),
        r.str_field("policy_name"@) is None ==> resource_name_spec(r, "policies"@) is Err,
        r.str_field("name"@) matches Some(id) ==> resource_name_spec(r, "buckets"@) == Ok::<Seq<char>, Seq<char>>(id),
        r.str_field("name"@) is None ==> resource_name_spec(r, "buckets"@) is Err,
        r.str_field("bucket"@) matches Some(id) ==> resource_name_spec(r, "bucket_policies"@) == Ok::<Seq<char>, Seq<char>>(id),
        r.str_field("bucket"@) is None ==> resource_name_spec(r, "bucket_policies"@) is Err,
        r.str_field("instance_id"@) matches Some(id) ==> resource_name_spec(r, "instances"@) == Ok::<Seq<char>, Seq<char>>(id),
        r.str_field("instance_id"@) is None ==> resource_name_spec(r, "instances"@) is Err,
        r.str_field("vpc_id"@) matches Some(id) ==> resource_name_spec(r, "vpcs"@) == Ok::<Seq<char>, Seq<char>>(id),
        r.str_field("vpc_id"@) is None ==> resource_name_spec(r, "vpcs"@) is Err,
        r.str_field("subnet_id"@) matches Some(id) ==> resource_name_spec(r, "subnets"@) == Ok::<Seq<char>, Seq<char>>(id),
        r.str_field("subnet_id"@) is None ==> resource_name_spec(r, "subnets"@) is Err,
        r.str_field("route_table_id"@) matches Some(id) ==> resource_name_spec(r, "route_tables"@) == Ok::<Seq<char>, Seq<char>>(id),
        r.str_field("route_table_id"@) is None ==> resource_name_spec(r, "route_tables"@) is Err,
        r.str_field("network_acl_id"@) matches Some(id) ==> resource_name_spec(r, "network_acls"@) == Ok::<Seq<char>, Seq<char>>(id),
        r.str_field("network_acl_id"@) is None ==> resource_name_spec(r, "network_acls"@) is Err,
        r.str_field("db_instance_identifier"@) matches Some(id) ==> resource_name_spec(r, "db_instances"@) == Ok::<Seq<char>, Seq<char>>(id),
        r.str_field("db_instance_identifier"@) is None ==> resource_name_spec(r, "db_instances"@) is Err,
        r.str_field("db_subnet_group_name"@) matches Some(id) ==> resource_name_spec(r, "db_subnet_groups"@) == Ok::<Seq<char>, Seq<char>>(id),
        r.str_field("db_subnet_group_name"@) is None ==> resource_name_spec(r, "db_subnet_groups"@) is Err,
        r.str_field("db_parameter_group_name"@) matches Some(id) ==> resource_name_spec(r, "db_parameter_groups"@) == Ok::<Seq<char>, Seq<char>>(id),
        r.str_field("db_parameter_group_name"@) is None ==> resource_name_spec(r, "db_parameter_groups"@) is Err,
{
    reveal_strlit("users");
    reveal_strlit("groups");
    reveal_strlit("roles");
    reveal_strlit("policies");
    reveal_strlit("buckets");
    reveal_strlit("bucket_policies");
    reveal_strlit("instances");
    reveal_strlit("vpcs");
    reveal_strlit("subnets");
    reveal_strlit("route_tables");
    reveal_strlit("network_acls");
    reveal_strlit("db_instances");
    reveal_strlit("db_subnet_groups");
    reveal_strlit("db_parameter_groups");
    assert("groups"@.len() != "users"@.len());
    assert("roles"@[0] != "users"@[0]);
    assert("roles"@.len() != "groups"@.len());
    assert("policies"@.len() != "users"@.len());
    assert("policies"@.len() != "groups"@.len());
    assert("policies"@.len() != "roles"@.len());
    assert("buckets"@.len() != "users"@.len());
    assert("buckets"@.len() != "groups"@.len());
    assert("buckets"@.len() != "roles"@.len());
    assert("buckets"@.len() != "policies"@.len());
    assert("bucket_policies"@.len() != "users"@.len());
    assert("bucket_policies"@.len() != "groups"@.len());
    assert("bucket_policies"@.len() != "roles"@.len());
    assert("bucket_policies"@.len() != "policies"@.len());
    assert("bucket_policies"@.len() != "buckets"@.len());
    assert("instances"@.len() != "users"@.len());
    assert("instances"@.len() != "groups"@.len());
    assert("instances"@.len() != "roles"@.len());
    assert("instances"@.len() != "policies"@.len());
    assert("instances"@.len() != "buckets"@.len());
    assert("instances"@.len() != "bucket_policies"@.len());
    assert("vpcs"@.len() != "users"@.len());
    assert("vpcs"@.len() != "groups"@.len());
    assert("vpcs"@.len() != "roles"@.len());
    assert("vpcs"@.len() != "policies"@.len());
    assert("vpcs"@.len() != "buckets"@.len());
    assert("vpcs"@.len() != "bucket_policies"@.len());
    assert("vpcs"@.len() != "instances"@.len());
    assert("subnets"@.len() != "users"@.len());
    assert("subnets"@.len() != "groups"@.len());
    assert("subnets"@.len() != "roles"@.len());
    assert("subnets"@.len() != "policies"@.len());
    assert("subnets"@[0] != "buckets"@[0]);
    assert("subnets"@.len() != "bucket_policies"@.len());
    assert("subnets"@.len() != "instances"@.len());
    assert("subnets"@.len() != "vpcs"@.len());
    assert("route_tables"@.len() != "users"@.len());
    assert("route_tables"@.len() != "groups"@.len());
    assert("route_tables"@.len() != "roles"@.len());
    assert("route_tables"@.len() != "policies"@.len());
    assert("route_tables"@.len() != "buckets"@.len());
    assert("route_tables"@.len() != "bucket_policies"@.len());
    assert("route_tables"@.len() != "instances"@.len());
    assert("route_tables"@.len() != "vpcs"@.len());
    assert("route_tables"@.len() != "subnets"@.len());
    assert("network_acls"@.len() != "users"@.len());
    assert("network_acls"@.len() != "groups"@.len());
    assert("network_acls"@.len() != "roles"@.len());
    assert("network_acls"@.len() != "policies"@.len());
    assert("network_acls"@.len() != "buckets"@.len());
    assert("network_acls"@.len() != "bucket_policies"@.len());
    assert("network_acls"@.len() != "instances"@.len());
    assert("network_acls"@.len() != "vpcs"@.len());
    assert("network_acls"@.len() != "subnets"@.len());
    assert("network_acls"@[0] != "route_tables"@[0]);
    assert("db_instances"@.len() != "users"@.len());
    assert("db_instances"@.len() != "groups"@.len());
    assert("db_instances"@.len() != "roles"@.len());
    assert("db_instances"@.len() != "policies"@.len());
    assert("db_instances"@.len() != "buckets"@.len());
    assert("db_instances"@.len() != "bucket_policies"@.len());
    assert("db_instances"@.len() != "instances"@.len());
    assert("db_instances"@.len() != "vpcs"@.len());
    assert("db_instances"@.len() != "subnets"@.len());
    assert("db_instances"@[0] != "route_tables"@[0]);
    assert("db_instances"@[0] != "network_acls"@[0]);
    assert("db_subnet_groups"@.len() != "users"@.len());
    assert("db_subnet_groups"@.len() != "groups"@.len());
    assert("db_subnet_groups"@.len() != "roles"@.len());
    assert("db_subnet_groups"@.len() != "policies"@.len());
    assert("db_subnet_groups"@.len() != "buckets"@.len());
    assert("db_subnet_groups"@.len() != "bucket_policies"@.len());
    assert("db_subnet_groups"@.len() != "instances"@.len());
    assert("db_subnet_groups"@.len() != "vpcs"@.len());
    assert("db_subnet_groups"@.len() != "subnets"@.len());
    assert("db_subnet_groups"@.len() != "route_tables"@.len());
    assert("db_subnet_groups"@.len() != "network_acls"@.len());
    assert("db_subnet_groups"@.len() != "db_instances"@.len());
    assert("db_parameter_groups"@.len() != "users"@.len());
    assert("db_parameter_groups"@.len() != "groups"@.len());
    assert("db_parameter_groups"@.len() != "roles"@.len());
    assert("db_parameter_groups"@.len() != "policies"@.len());
    assert("db_parameter_groups"@.len() != "buckets"@.len());
    assert("db_parameter_groups"@.len() != "bucket_policies"@.len());
    assert("db_parameter_groups"@.len() != "instances"@.len());
    assert("db_parameter_groups"@.len() != "vpcs"@.len());
    assert("db_parameter_groups"@.len() != "subnets"@.len());
    assert("db_parameter_groups"@.len() != "route_tables"@.len());
    assert("db_parameter_groups"@.len() != "network_acls"@.len());
    assert("db_parameter_groups"@.len() != "db_instances"@.len());
    assert("db_parameter_groups"@.len() != "db_subnet_groups"@.len());
}

/// A security group is named by its `group_id`, else by its `group_name`;
/// a lifecycle rule by its bucket and its `id`, joined by `_`.
pub proof fn law_named_by_fallback_fields(r: JsonV)
    ensures
        r.str_field("group_id"@) matches Some(id) ==> resource_name_spec(r, "security_groups"@) == Ok::<Seq<char>, Seq<char>>(id),
        r.str_field("group_id"@) is None ==> (r.str_field("group_name"@) matches Some(n)
            ==> resource_name_spec(r, "security_groups"@) == Ok::<Seq<char>, Seq<char>>(n)),
        (r.str_field("group_id"@) is None && r.str_field("group_name"@) is None)
            ==> resource_name_spec(r, "security_groups"@) is Err,
        r.str_field("bucket"@) matches Some(b) ==> (r.str_field("id"@) matches Some(id)
            ==> resource_name_spec(r, "lifecycle_rules"@) == Ok::<Seq<char>, Seq<char>>(b + "_"@ + id)),
{
    reveal_strlit("users");
    reveal_strlit("groups");
    reveal_strlit("roles");
    reveal_strlit("policies");
    reveal_strlit("buckets");
    reveal_strlit("bucket_policies");
    reveal_strlit("instances");
    reveal_strlit("vpcs");
    reveal_strlit("subnets");
    reveal_strlit("route_tables");
    reveal_strlit("network_acls");
    reveal_strlit("db_instances");
    reveal_strlit("db_subnet_groups");
    reveal_strlit("db_parameter_groups");
    reveal_strlit("security_groups");
    reveal_strlit("lifecycle_rules");
    assert("security_groups"@.len() != "users"@.len());
    assert("security_groups"@.len() != "groups"@.len());
    assert("security_groups"@.len() != "roles"@.len());
    assert("security_groups"@.len() != "policies"@.len());
    assert("security_groups"@.len() != "buckets"@.len());
    assert("security_groups"@[0] != "bucket_policies"@[0]);
    assert("security_groups"@.len() != "instances"@.len());
    assert("security_groups"@.len() != "vpcs"@.len());
    assert("security_groups"@.len() != "subnets"@.len());
    assert("security_groups"@.len() != "route_tables"@.len());
    assert("security_groups"@.len() != "network_acls"@.len());
    assert("security_groups"@.len() != "db_instances"@.len());
    assert("security_groups"@.len() != "db_subnet_groups"@.len());
    assert("security_groups"@.len() != "db_parameter_groups"@.len());
    assert("lifecycle_rules"@.len() != "users"@.len());
    assert("lifecycle_rules"@.len() != "groups"@.len());
    assert("lifecycle_rules"@.len() != "roles"@.len());
    assert("lifecycle_rules"@.len() != "policies"@.len());
    assert("lifecycle_rules"@.len() != "buckets"@.len());
    assert("lifecycle_rules"@[0] != "bucket_policies"@[0]);
    assert("lifecycle_rules"@.len() != "instances"@.len());
    assert("lifecycle_rules"@.len() != "vpcs"@.len());
    assert("lifecycle_rules"@.len() != "subnets"@.len());
    assert("lifecycle_rules"@.len() != "route_tables"@.len());
    assert("lifecycle_rules"@.len() != "network_acls"@.len());
    assert("lifecycle_rules"@.len() != "db_instances"@.len());
    assert("lifecycle_rules"@.len() != "db_subnet_groups"@.len());
    assert("lifecycle_rules"@.len() != "db_parameter_groups"@.len());
    assert("security_groups"@[0] != "lifecycle_rules"@[0]);
}

} // verus!
