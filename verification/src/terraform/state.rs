use vstd::prelude::*;
use vstd::string::*;
use crate::aws::policy::{json_parsed, parse_json};
use crate::json::{jv, jv_entries, jv_list, lemma_jv_list, Json, JsonV};
use crate::text::{nat_text, owned, str_eq};

verus! {

/// A Terraform state file (format version 4).
#[derive(Debug)]
pub struct TfState {
    pub version: u32,
    pub terraform_version: String,
    pub serial: u64,
    pub lineage: String,
    pub resources: Vec<TfStateResource>,
}

/// One resource of a state file.
#[derive(Debug)]
pub struct TfStateResource {
    pub mode: String,
    pub resource_type: String,
    pub name: String,
    pub provider: String,
    pub instances: Vec<TfStateInstance>,
}

/// One instance of a resource.
#[derive(Debug)]
pub struct TfStateInstance {
    pub attributes: Json,
    pub index_key: Option<Json>,
}

/// An instance, by its values.
pub struct InstanceV {
    pub attributes: JsonV,
    pub index_key: Option<JsonV>,
}

/// A resource, by its values.
pub struct ResourceV {
    pub mode: Seq<char>,
    pub resource_type: Seq<char>,
    pub name: Seq<char>,
    pub provider: Seq<char>,
    pub instances: Seq<InstanceV>,
}

/// A state, by its values.
pub struct StateV {
    pub version: nat,
    pub terraform_version: Seq<char>,
    pub serial: nat,
    pub lineage: Seq<char>,
    pub resources: Seq<ResourceV>,
}

pub open spec fn instance_view(i: TfStateInstance) -> InstanceV {
    InstanceV {
        attributes: i.attributes@,
        index_key: match i.index_key {
            Some(k) => Some(k@),
            None => None,
        },
    }
}

pub open spec fn resource_view(r: TfStateResource) -> ResourceV {
    ResourceV {
        mode: r.mode@,
        resource_type: r.resource_type@,
        name: r.name@,
        provider: r.provider@,
        instances: r.instances@.map_values(|i: TfStateInstance| instance_view(i)),
    }
}

pub open spec fn state_view(s: TfState) -> StateV {
    StateV {
        version: s.version as nat,
        terraform_version: s.terraform_version@,
        serial: s.serial as nat,
        lineage: s.lineage@,
        resources: s.resources@.map_values(|r: TfStateResource| resource_view(r)),
    }
}

/// The value of a decimal digit.
pub open spec fn digit_value(c: char) -> nat {
    ((c as int) - ('0' as int)) as nat
}

/// The value of a text of decimal digits; none for an empty text or one
/// with any other character.
pub open spec fn digits_value(t: Seq<char>) -> Option<nat>
    decreases t.len(),
{
    if t.len() == 0 {
        None
    } else if !('0' <= t.last() && t.last() <= '9') {
        None
    } else if t.len() == 1 {
        Some(digit_value(t.last()))
    } else {
        match digits_value(t.drop_last()) {
            Some(v) => Some(v * 10 + digit_value(t.last())),
            None => None,
        }
    }
}

/// A JSON number read as an unsigned integer no greater than `max`.
pub open spec fn unsigned_of(v: JsonV, max: nat) -> Option<nat> {
    match v {
        JsonV::Number(t) => match digits_value(t) {
            Some(n) => if n <= max {
                Some(n)
            } else {
                None
            },
            None => None,
        },
        _ => None,
    }
}

/// An instance decoded from JSON: an object whose `attributes` default to
/// null and whose `index_key` is absent when missing or null.
pub open spec fn decode_instance(j: JsonV) -> Option<InstanceV> {
    match j {
        JsonV::Object(_) => Some(
            InstanceV {
                attributes: match j.get("attributes"@) {
                    Some(a) => a,
                    None => JsonV::Null,
                },
                index_key: match j.get("index_key"@) {
                    Some(JsonV::Null) => None,
                    Some(k) => Some(k),
                    None => None,
                },
            },
        ),
        _ => None,
    }
}

/// A list decoded element by element; none when one fails.
pub open spec fn decode_instances(a: Seq<JsonV>) -> Option<Seq<InstanceV>>
    decreases a.len(),
{
    if a.len() == 0 {
        Some(Seq::empty())
    } else {
        match decode_instances(a.drop_last()) {
            None => None,
            Some(v) => match decode_instance(a.last()) {
                None => None,
                Some(i) => Some(v.push(i)),
            },
        }
    }
}

/// The instances of a resource: none listed decodes to none.
pub open spec fn decode_instance_field(o: Option<JsonV>) -> Option<Seq<InstanceV>> {
    match o {
        None => Some(Seq::empty()),
        Some(JsonV::Array(a)) => decode_instances(a),
        _ => None,
    }
}

/// A resource decoded from JSON: an object with string `mode`, `type`,
/// `name` and `provider`, and an optional list of instances.
pub open spec fn decode_resource(j: JsonV) -> Option<ResourceV> {
    match j {
        JsonV::Object(_) => match (
            j.str_field("mode"@),
            j.str_field("type"@),
            j.str_field("name"@),
            j.str_field("provider"@),
        ) {
            (Some(m), Some(t), Some(n), Some(p)) => match decode_instance_field(j.get("instances"@)) {
                Some(is) => Some(
                    ResourceV { mode: m, resource_type: t, name: n, provider: p, instances: is },
                ),
                None => None,
            },
            _ => None,
        },
        _ => None,
    }
}

/// A list of resources decoded one by one; none when one fails.
pub open spec fn decode_resources(a: Seq<JsonV>) -> Option<Seq<ResourceV>>
    decreases a.len(),
{
    if a.len() == 0 {
        Some(Seq::empty())
    } else {
        match decode_resources(a.drop_last()) {
            None => None,
            Some(v) => match decode_resource(a.last()) {
                None => None,
                Some(r) => Some(v.push(r)),
            },
        }
    }
}

/// An optional text field: missing gives the empty text; a value that is
/// not a string fails.
pub open spec fn text_field(o: Option<JsonV>) -> Option<Seq<char>> {
    match o {
        None => Some(Seq::empty()),
        Some(JsonV::Str(s)) => Some(s),
        _ => None,
    }
}

/// The largest value of a `u32`.
pub open spec fn u32_max() -> nat {
    4294967295
}

/// The largest value of a `u64`.
pub open spec fn u64_max() -> nat {
    18446744073709551615
}

/// A state decoded from JSON: an object with a `version` that fits a
/// `u32`, and optional `terraform_version`, `serial` (fitting a `u64`),
/// `lineage` and `resources`.
pub open spec fn decode_state(j: JsonV) -> Option<StateV> {
    match j {
        JsonV::Object(_) => match j.get("version"@) {
            None => None,
            Some(v) => match unsigned_of(v, u32_max()) {
                None => None,
                Some(version) => match (
                    text_field(j.get("terraform_version"@)),
                    match j.get("serial"@) {
                        None => Some(0nat),
                        Some(s) => unsigned_of(s, u64_max()),
                    },
                    text_field(j.get("lineage"@)),
                    match j.get("resources"@) {
                        None => Some(Seq::<ResourceV>::empty()),
                        Some(JsonV::Array(a)) => decode_resources(a),
                        _ => None,
                    },
                ) {
                    (Some(tv), Some(serial), Some(lineage), Some(rs)) => Some(
                        StateV {
                            version,
                            terraform_version: tv,
                            serial,
                            lineage,
                            resources: rs,
                        },
                    ),
                    _ => None,
                },
            },
        },
        _ => None,
    }
}

/// The error when a state file cannot be read.
pub open spec fn parse_error() -> Seq<char> {
    "Terraform stateファイルのパースに失敗"@
}

/// The error for a state of another format version.
pub open spec fn version_error(v: nat) -> Seq<char> {
    "サポートされていないstateバージョン: "@ + nat_text(v) + " (v4のみサポート)"@
}

/// What reading a state file's text gives: its state when it is JSON that
/// decodes and has format version 4; otherwise the error.
pub open spec fn parse_state_spec(text: Seq<char>) -> Result<StateV, Seq<char>> {
    match json_parsed(text) {
        None => Err(parse_error()),
        Some(j) => match decode_state(j) {
            None => Err(parse_error()),
            Some(s) => if s.version == 4 {
                Ok(s)
            } else {
                Err(version_error(s.version))
            },
        },
    }
}

/// The managed resources grouped by type: groups in order of first
/// appearance, each holding its resources in order.
pub open spec fn group_by_type(rs: Seq<ResourceV>) -> Seq<(Seq<char>, Seq<ResourceV>)>
    decreases rs.len(),
{
    if rs.len() == 0 {
        Seq::empty()
    } else {
        let g = group_by_type(rs.drop_last());
        let r = rs.last();
        if r.mode != "managed"@ {
            g
        } else {
            match group_index(g, r.resource_type) {
                Some(i) => g.update(i, (g[i].0, g[i].1.push(r))),
                None => g.push((r.resource_type, seq![r])),
            }
        }
    }
}

/// The position of the first group at or after `k` of a type.
pub open spec fn group_index_from(g: Seq<(Seq<char>, Seq<ResourceV>)>, t: Seq<char>, k: int) -> Option<int>
    decreases g.len() - k,
{
    if k < 0 || k >= g.len() {
        None
    } else if g[k].0 == t {
        Some(k)
    } else {
        group_index_from(g, t, k + 1)
    }
}

/// The position of the group of a type.
pub open spec fn group_index(g: Seq<(Seq<char>, Seq<ResourceV>)>, t: Seq<char>) -> Option<int> {
    group_index_from(g, t, 0)
}

proof fn lemma_digits_prefix(t: Seq<char>, i: int)
    requires
        1 <= i <= t.len(),
        digits_value(t) is Some,
    ensures
        digits_value(t.take(i)) is Some,
        digits_value(t.take(i)).unwrap() <= digits_value(t).unwrap(),
    decreases t.len(),
{
    if i == t.len() {
        assert(t.take(i) =~= t);
    } else {
        assert(t.len() > 1);
        lemma_digits_prefix(t.drop_last(), i);
        assert(t.drop_last().take(i) =~= t.take(i));
    }
}

/// A JSON number read as an unsigned integer no greater than `max`.
fn unsigned_value(v: &Json, max: u64) -> (r: Option<u64>)
    ensures
        match r {
            Some(n) => unsigned_of(v@, max as nat) == Some(n as nat),
            None => unsigned_of(v@, max as nat) is None,
        },
{
    match v {
        Json::Number(t) => {
            assert(v@ == JsonV::Number(t@));
            let cs = crate::text::chars_of(t.as_str());
            if cs.len() == 0 {
                return None;
            }
            let mut acc: u64 = 0;
            let mut i: usize = 0;
            while i < cs.len()
                invariant
                    i <= cs.len(),
                    cs@ == t@,
                    v@ == JsonV::Number(t@),
                    cs.len() > 0,
                    i > 0 ==> digits_value(cs@.take(i as int)) == Some(acc as nat),
                    i == 0 ==> acc == 0,
                decreases cs.len() - i,
            {
                let c = cs[i];
                assert(cs@.take(i + 1).drop_last() =~= cs@.take(i as int));
                assert(cs@.take(i + 1).last() == c);
                if !('0' <= c && c <= '9') {
                    proof {
                        assert(digits_value(cs@.take(i + 1)) is None);
                        if digits_value(cs@) is Some {
                            lemma_digits_prefix(cs@, i + 1);
                        }
                    }
                    return None;
                }
                let d: u64 = (c as u64) - ('0' as u64);
                let next = match acc.checked_mul(10) {
                    Some(m) => m.checked_add(d),
                    None => None,
                };
                match next {
                    Some(n) => {
                        proof {
                            if i == 0 {
                                assert(cs@.take(1).len() == 1);
                            }
                        }
                        acc = n;
                    },
                    None => {
                        proof {
                            assert(acc * 10 + d > u64::MAX);
                            if i == 0 {
                                assert(cs@.take(1).len() == 1);
                            }
                            assert(digits_value(cs@.take(i + 1)) == Some((acc * 10 + d) as nat));
                            if digits_value(cs@) is Some {
                                lemma_digits_prefix(cs@, i + 1);
                            }
                        }
                        return None;
                    },
                }
                i = i + 1;
            }
            assert(cs@.take(cs.len() as int) =~= cs@);
            if acc <= max {
                Some(acc)
            } else {
                None
            }
        },
        _ => None,
    }
}

/// An optional text field: missing gives the empty text.
fn text_field_of(o: Option<&Json>) -> (r: Option<String>)
    ensures
        match r {
            Some(t) => text_field(
                match o {
                    Some(j) => Some(j@),
                    None => None,
                },
            ) == Some(t@),
            None => text_field(
                match o {
                    Some(j) => Some(j@),
                    None => None,
                },
            ) is None,
        },
{
    match o {
        None => Some(String::new()),
        Some(Json::Str(s)) => Some(s.clone()),
        _ => None,
    }
}

/// An instance decoded from JSON.
fn decode_instance_exec(j: &Json) -> (r: Option<TfStateInstance>)
    ensures
        match r {
            Some(i) => decode_instance(j@) == Some(instance_view(i)),
            None => decode_instance(j@) is None,
        },
{
    match j {
        Json::Object(_) => {
            let attributes = match j.get("attributes") {
                Some(a) => a.clone(),
                None => Json::Null,
            };
            let index_key = match j.get("index_key") {
                Some(Json::Null) => None,
                Some(k) => Some(k.clone()),
                None => None,
            };
            Some(TfStateInstance { attributes, index_key })
        },
        _ => None,
    }
}

/// The instances of a resource decoded from JSON.
fn decode_instances_exec(o: Option<&Json>) -> (r: Option<Vec<TfStateInstance>>)
    ensures
        match r {
            Some(v) => decode_instance_field(
                match o {
                    Some(j) => Some(j@),
                    None => None,
                },
            ) == Some(v@.map_values(|i: TfStateInstance| instance_view(i))),
            None => decode_instance_field(
                match o {
                    Some(j) => Some(j@),
                    None => None,
                },
            ) is None,
        },
{
    match o {
        None => {
            let v: Vec<TfStateInstance> = Vec::new();
            assert(v@.map_values(|i: TfStateInstance| instance_view(i)) =~= Seq::<InstanceV>::empty());
            Some(v)
        },
        Some(Json::Array(a)) => {
            let ghost av = jv_list(a@);
            proof {
                lemma_jv_list(a@);
            }
            assert(o.unwrap()@ == JsonV::Array(av));
            let mut out: Vec<TfStateInstance> = Vec::new();
            let mut i: usize = 0;
            while i < a.len()
                invariant
                    i <= a.len(),
                    av == jv_list(a@),
                    o.unwrap()@ == JsonV::Array(av),
                    o is Some,
                    av.len() == a@.len(),
                    forall|k: int| 0 <= k < a@.len() ==> #[trigger] av[k] == jv(a@[k]),
                    decode_instances(av.take(i as int)) == Some(
                        out@.map_values(|i: TfStateInstance| instance_view(i)),
                    ),
                decreases a.len() - i,
            {
                assert(av.take(i + 1).drop_last() =~= av.take(i as int));
                assert(av.take(i + 1).last() == a@[i as int]@);
                match decode_instance_exec(&a[i]) {
                    Some(x) => {
                        let ghost prev = out@;
                        out.push(x);
                        assert(out@.map_values(|i: TfStateInstance| instance_view(i)) =~= prev.map_values(
                            |i: TfStateInstance| instance_view(i),
                        ).push(instance_view(x)));
                    },
                    None => {
                        proof {
                            lemma_instances_none(av, i as int + 1);
                        }
                        return None;
                    },
                }
                i = i + 1;
            }
            assert(av.take(a.len() as int) =~= av);
            Some(out)
        },
        _ => None,
    }
}

proof fn lemma_instances_none(s: Seq<JsonV>, k: int)
    requires
        0 <= k <= s.len(),
        decode_instances(s.take(k)) is None,
    ensures
        decode_instances(s) is None,
    decreases s.len() - k,
{
    if k < s.len() {
        assert(s.take(k + 1).drop_last() =~= s.take(k));
        lemma_instances_none(s, k + 1);
    } else {
        assert(s.take(k) =~= s);
    }
}

proof fn lemma_resources_none(s: Seq<JsonV>, k: int)
    requires
        0 <= k <= s.len(),
        decode_resources(s.take(k)) is None,
    ensures
        decode_resources(s) is None,
    decreases s.len() - k,
{
    if k < s.len() {
        assert(s.take(k + 1).drop_last() =~= s.take(k));
        lemma_resources_none(s, k + 1);
    } else {
        assert(s.take(k) =~= s);
    }
}

/// A resource decoded from JSON.
fn decode_resource_exec(j: &Json) -> (r: Option<TfStateResource>)
    ensures
        match r {
            Some(x) => decode_resource(j@) == Some(resource_view(x)),
            None => decode_resource(j@) is None,
        },
{
    match j {
        Json::Object(_) => match (j.str_field("mode"), j.str_field("type"), j.str_field("name"), j.str_field("provider")) {
            (Some(m), Some(t), Some(n), Some(p)) => match decode_instances_exec(j.get("instances")) {
                Some(is) => Some(
                    TfStateResource {
                        mode: m.clone(),
                        resource_type: t.clone(),
                        name: n.clone(),
                        provider: p.clone(),
                        instances: is,
                    },
                ),
                None => None,
            },
            _ => None,
        },
        _ => None,
    }
}

/// A state decoded from JSON.
fn decode_state_exec(j: &Json) -> (r: Option<TfState>)
    ensures
        match r {
            Some(s) => decode_state(j@) == Some(state_view(s)),
            None => decode_state(j@) is None,
        },
{
    match j {
        Json::Object(_) => {
            let version = match j.get("version") {
                None => return None,
                Some(v) => match unsigned_value(v, 4294967295u64) {
                    None => return None,
                    Some(n) => n,
                },
            };
            let tv = text_field_of(j.get("terraform_version"));
            let serial: Option<u64> = match j.get("serial") {
                None => Some(0),
                Some(s) => unsigned_value(s, u64::MAX),
            };
            let lineage = text_field_of(j.get("lineage"));
            let resources: Option<Vec<TfStateResource>> = match j.get("resources") {
                None => Some(Vec::new()),
                Some(Json::Array(a)) => decode_resource_list(a),
                _ => None,
            };
            proof {
                match j@.get("resources"@) {
                    None => {
                        assert(Seq::<TfStateResource>::empty().map_values(|r: TfStateResource| resource_view(r)) =~= Seq::<ResourceV>::empty());
                    },
                    _ => {},
                }
            }
            match (tv, serial, lineage, resources) {
                (Some(tv), Some(serial), Some(lineage), Some(resources)) => Some(
                    TfState {
                        version: version as u32,
                        terraform_version: tv,
                        serial,
                        lineage,
                        resources,
                    },
                ),
                _ => None,
            }
        },
        _ => None,
    }
}

/// Resources decoded one by one from JSON.
fn decode_resource_list(a: &Vec<Json>) -> (r: Option<Vec<TfStateResource>>)
    ensures
        match r {
            Some(v) => decode_resources(jv_list(a@)) == Some(v@.map_values(|r: TfStateResource| resource_view(r))),
            None => decode_resources(jv_list(a@)) is None,
        },
{
    let ghost av = jv_list(a@);
    proof {
        lemma_jv_list(a@);
    }
    let mut out: Vec<TfStateResource> = Vec::new();
    let mut i: usize = 0;
    assert(out@.map_values(|r: TfStateResource| resource_view(r)) =~= Seq::<ResourceV>::empty());
    while i < a.len()
        invariant
            i <= a.len(),
            av == jv_list(a@),
            av.len() == a@.len(),
            forall|k: int| 0 <= k < a@.len() ==> #[trigger] av[k] == jv(a@[k]),
            decode_resources(av.take(i as int)) == Some(out@.map_values(|r: TfStateResource| resource_view(r))),
        decreases a.len() - i,
    {
        assert(av.take(i + 1).drop_last() =~= av.take(i as int));
        assert(av.take(i + 1).last() == a@[i as int]@);
        match decode_resource_exec(&a[i]) {
            Some(x) => {
                let ghost prev = out@;
                out.push(x);
                assert(out@.map_values(|r: TfStateResource| resource_view(r)) =~= prev.map_values(
                    |r: TfStateResource| resource_view(r),
                ).push(resource_view(x)));
            },
            None => {
                proof {
                    lemma_resources_none(av, i as int + 1);
                }
                return None;
            },
        }
        i = i + 1;
    }
    assert(av.take(a.len() as int) =~= av);
    Some(out)
}

impl TfState {
    /// Reads a state file's text: its state when the text is JSON that
    /// decodes to a state of format version 4, else the error.
    pub fn parse(json_str: &str) -> (r: Result<TfState, String>)
        ensures
            match r {
                Ok(s) => parse_state_spec(json_str@) == Ok::<StateV, Seq<char>>(state_view(s)),
                Err(e) => parse_state_spec(json_str@) == Err::<StateV, Seq<char>>(e@),
            },
    {
        let j = match parse_json(json_str) {
            Some(j) => j,
            None => return Err(owned("Terraform stateファイルのパースに失敗")),
        };
        let state = match decode_state_exec(&j) {
            Some(s) => s,
            None => return Err(owned("Terraform stateファイルのパースに失敗")),
        };
        if state.version != 4 {
            let mut m = owned("サポートされていないstateバージョン: ");
            m.append(crate::text::u64_text(state.version as u64).as_str());
            m.append(" (v4のみサポート)");
            return Err(m);
        }
        Ok(state)
    }
}

/// The groups of resources, by their values.
pub open spec fn groups_view(g: Seq<(String, Vec<&TfStateResource>)>) -> Seq<(Seq<char>, Seq<ResourceV>)> {
    g.map_values(
        |p: (String, Vec<&TfStateResource>)|
            (p.0@, p.1@.map_values(|r: &TfStateResource| resource_view(*r))),
    )
}

fn find_group(types: &Vec<String>, t: &str, ghost_groups: Ghost<Seq<(Seq<char>, Seq<ResourceV>)>>) -> (r: Option<usize>)
    requires
        ghost_groups@.len() == types@.len(),
        forall|k: int| 0 <= k < types@.len() ==> #[trigger] ghost_groups@[k].0 == types@[k]@,
    ensures
        match r {
            Some(i) => group_index(ghost_groups@, t@) == Some(i as int) && i < types.len(),
            None => group_index(ghost_groups@, t@) is None,
        },
{
    let ghost g = ghost_groups@;
    let mut j: usize = 0;
    while j < types.len()
        invariant
            j <= types.len(),
            g == ghost_groups@,
            g.len() == types@.len(),
            forall|k: int| 0 <= k < types@.len() ==> #[trigger] g[k].0 == types@[k]@,
            group_index(g, t@) == group_index_from(g, t@, j as int),
        decreases types.len() - j,
    {
        if str_eq(types[j].as_str(), t) {
            assert(g[j as int].0 == types@[j as int]@);
            return Some(j);
        }
        assert(g[j as int].0 == types@[j as int]@);
        j = j + 1;
    }
    None
}

impl TfState {
    /// The managed resources grouped by type, groups in order of first
    /// appearance; resources of another mode (`data`) are left out.
    pub fn resources_by_type(&self) -> (r: Vec<(String, Vec<&TfStateResource>)>)
        ensures
            groups_view(r@) == group_by_type(state_view(*self).resources),
    {
        let ghost rv = state_view(*self).resources;
        let mut types: Vec<String> = Vec::new();
        let mut members: Vec<Vec<&TfStateResource>> = Vec::new();
        let mut k: usize = 0;
        while k < self.resources.len()
            invariant
                k <= self.resources.len(),
                rv == self.resources@.map_values(|r: TfStateResource| resource_view(r)),
                types@.len() == members@.len(),
                group_by_type(rv.take(k as int)).len() == types@.len(),
                forall|i: int|
                    0 <= i < types@.len() ==> (#[trigger] group_by_type(rv.take(k as int))[i]) == (
                        types@[i]@,
                        members@[i]@.map_values(|r: &TfStateResource| resource_view(*r)),
                    ),
            decreases self.resources.len() - k,
        {
            let ghost before = group_by_type(rv.take(k as int));
            assert(rv.take(k + 1).drop_last() =~= rv.take(k as int));
            assert(rv.take(k + 1).last() == resource_view(self.resources@[k as int]));
            let res = &self.resources[k];
            if str_eq(res.mode.as_str(), "managed") {
                match find_group(&types, res.resource_type.as_str(), Ghost(before)) {
                    Some(i) => {
                        let mut g = members.remove(i);
                        let ghost old_g = g@;
                        g.push(res);
                        assert(g@.map_values(|r: &TfStateResource| resource_view(*r)) =~= old_g.map_values(
                            |r: &TfStateResource| resource_view(*r),
                        ).push(resource_view(*res)));
                        members.insert(i, g);
                    },
                    None => {
                        types.push(res.resource_type.clone());
                        let mut g: Vec<&TfStateResource> = Vec::new();
                        g.push(res);
                        assert(g@.map_values(|r: &TfStateResource| resource_view(*r)) =~= seq![resource_view(*res)]);
                        members.push(g);
                    },
                }
            } else {
                assert(res.mode@ != "managed"@);
            }
            k = k + 1;
        }
        assert(rv.take(self.resources.len() as int) =~= rv);
        let mut out: Vec<(String, Vec<&TfStateResource>)> = Vec::new();
        let ghost target = group_by_type(rv);
        while members.len() > 0
            invariant
                types@.len() == members@.len(),
                target.len() == out@.len() + types@.len(),
                forall|i: int|
                    0 <= i < types@.len() ==> (#[trigger] target[out@.len() + i]) == (
                        types@[i]@,
                        members@[i]@.map_values(|r: &TfStateResource| resource_view(*r)),
                    ),
                groups_view(out@) == target.take(out@.len() as int),
            decreases members.len(),
        {
            let ghost ot = types@;
            let ghost om = members@;
            assert(target[out@.len() + 0int] == (ot[0]@, om[0]@.map_values(|r: &TfStateResource| resource_view(*r))));
            let t = types.remove(0);
            let m = members.remove(0);
            let ghost prev = out@;
            out.push((t, m));
            assert forall|i: int| 0 <= i < types@.len() implies (#[trigger] target[out@.len() + i]) == (
                types@[i]@,
                members@[i]@.map_values(|r: &TfStateResource| resource_view(*r)),
            ) by {
                assert(types@[i] == ot[i + 1]);
                assert(members@[i] == om[i + 1]);
                assert(target[prev.len() + (i + 1)] == (ot[i + 1]@, om[i + 1]@.map_values(|r: &TfStateResource| resource_view(*r))));
                assert(out@.len() + i == prev.len() + (i + 1));
            }
            assert(groups_view(out@) =~= groups_view(prev).push((t@, m@.map_values(|r: &TfStateResource| resource_view(*r)))));
            assert(target.take(out@.len() as int) =~= target.take(prev.len() as int).push(target[prev.len() as int]));
        }
        assert(target.take(out@.len() as int) =~= target);
        out
    }
}

/// A state that reads successfully has format version 4.
pub proof fn law_parsed_state_is_version_four(text: Seq<char>)
    requires
        parse_state_spec(text) is Ok,
    ensures
        parse_state_spec(text)->Ok_0.version == 4,
{
}

/// A decoded state takes its fields from the JSON object: an absent
/// `terraform_version` or `lineage` is empty text, an absent `serial` is 0
/// and absent `resources` are none.
pub proof fn law_state_defaults(j: JsonV)
    requires
        decode_state(j) is Some,
    ensures
        j is Object,
        j.get("terraform_version"@) is None ==> decode_state(j)->Some_0.terraform_version == Seq::<char>::empty(),
        j.get("lineage"@) is None ==> decode_state(j)->Some_0.lineage == Seq::<char>::empty(),
        j.get("serial"@) is None ==> decode_state(j)->Some_0.serial == 0,
        j.get("resources"@) is None ==> decode_state(j)->Some_0.resources == Seq::<ResourceV>::empty(),
        j.get("terraform_version"@) matches Some(JsonV::Str(t)) ==> decode_state(j)->Some_0.terraform_version == t,
        j.get("lineage"@) matches Some(JsonV::Str(t)) ==> decode_state(j)->Some_0.lineage == t,
{
}

/// Reading a state file fails with the parse error when the text is not
/// JSON that decodes to a state, with the version error when the state has
/// another format version, and succeeds with the decoded state otherwise.
pub proof fn law_state_parse_outcomes(text: Seq<char>)
    ensures
        json_parsed(text) is None ==> parse_state_spec(text) == Err::<StateV, Seq<char>>(parse_error()),
        json_parsed(text) matches Some(j) ==> match decode_state(j) {
            None => parse_state_spec(text) == Err::<StateV, Seq<char>>(parse_error()),
            Some(s) => parse_state_spec(text) == if s.version == 4 {
                Ok::<StateV, Seq<char>>(s)
            } else {
                Err::<StateV, Seq<char>>(version_error(s.version))
            },
        },
{
}

/// Grouping by type keeps only managed resources, puts each under its own
/// type, and names each type once.
pub proof fn law_groups_hold_managed_resources_of_their_type(rs: Seq<ResourceV>)
    ensures
        forall|i: int, j: int|
            0 <= i < group_by_type(rs).len() && 0 <= j < group_by_type(rs)[i].1.len() ==> (#[trigger] group_by_type(rs)[i].1[j]).mode == "managed"@
                && group_by_type(rs)[i].1[j].resource_type == group_by_type(rs)[i].0,
        forall|i: int, j: int|
            0 <= i < j < group_by_type(rs).len() ==> (#[trigger] group_by_type(rs)[i]).0 != (#[trigger] group_by_type(rs)[j]).0,
    decreases rs.len(),
{
    if rs.len() > 0 {
        law_groups_hold_managed_resources_of_their_type(rs.drop_last());
        let g = group_by_type(rs.drop_last());
        let r = rs.last();
        if r.mode == "managed"@ {
            match group_index(g, r.resource_type) {
                Some(k) => {
                    lemma_group_index_found(g, r.resource_type, 0);
                },
                None => {
                    lemma_group_index_absent(g, r.resource_type, 0);
                },
            }
        }
    }
}

proof fn lemma_group_index_found(g: Seq<(Seq<char>, Seq<ResourceV>)>, t: Seq<char>, k: int)
    requires
        0 <= k,
        group_index_from(g, t, k) is Some,
    ensures
        0 <= group_index_from(g, t, k)->Some_0 < g.len(),
        g[group_index_from(g, t, k)->Some_0].0 == t,
    decreases g.len() - k,
{
    if k < g.len() && g[k].0 != t {
        lemma_group_index_found(g, t, k + 1);
    }
}

proof fn lemma_group_index_absent(g: Seq<(Seq<char>, Seq<ResourceV>)>, t: Seq<char>, k: int)
    requires
        0 <= k,
        group_index_from(g, t, k) is None,
    ensures
        forall|i: int| k <= i < g.len() ==> (#[trigger] g[i]).0 != t,
    decreases g.len() - k,
{
    if k < g.len() {
        lemma_group_index_absent(g, t, k + 1);
    }
}

} // verus!
