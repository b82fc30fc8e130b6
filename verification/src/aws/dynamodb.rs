use vstd::prelude::*;
use std::sync::Arc;
use crate::aws::iam::{num, number};
use crate::aws::record::{entry_if, opt_num, opt_text, push_opt_num, push_opt_text, texts_json};
use crate::json::{insert_entry, insert_spec, jv_entries, jv_list, push_entry, push_item, text, text_array, Json, JsonV, lemma_jv_list};
use crate::models::request::{name_prefix_ok, target_on, ScanConfig};
use crate::aws::progress::{events_view, ScanProgress};
use crate::aws::targets::{error_of, listed_view, outcome, outcome_of, outcome_view, record_targets, targets_spec, targets_view, OutcomeV, TargetOutcome};

verus! {

/// A DynamoDB table as described by AWS.
#[derive(Debug)]
pub struct DynamoDBTableInfo {
    pub table_name: String,
    pub table_arn: Option<String>,
    pub status: Option<String>,
    pub billing_mode: Option<String>,
    pub read_capacity: Option<i64>,
    pub write_capacity: Option<i64>,
    pub key_schema: Vec<KeySchemaElementInfo>,
    pub attribute_definitions: Vec<AttributeDefinitionInfo>,
    pub global_secondary_indexes: Vec<GSIInfo>,
    pub local_secondary_indexes: Vec<LSIInfo>,
    pub stream_enabled: bool,
    pub stream_view_type: Option<String>,
    pub tags: Vec<(String, String)>,
}

/// One element of a key schema.
#[derive(Debug)]
pub struct KeySchemaElementInfo {
    pub attribute_name: String,
    pub key_type: String,
}

/// One attribute definition.
#[derive(Debug)]
pub struct AttributeDefinitionInfo {
    pub attribute_name: String,
    pub attribute_type: String,
}

/// A global secondary index.
#[derive(Debug)]
pub struct GSIInfo {
    pub index_name: String,
    pub key_schema: Vec<KeySchemaElementInfo>,
    pub projection_type: String,
    pub non_key_attributes: Vec<String>,
    pub read_capacity: Option<i64>,
    pub write_capacity: Option<i64>,
}

/// A local secondary index.
#[derive(Debug)]
pub struct LSIInfo {
    pub index_name: String,
    pub key_schema: Vec<KeySchemaElementInfo>,
    pub projection_type: String,
    pub non_key_attributes: Vec<String>,
}

/// The time-to-live setting of a table.
#[derive(Debug)]
pub struct TTLInfo {
    pub attribute_name: Option<String>,
    pub enabled: bool,
}

/// The DynamoDB calls a scan makes; implemented over the AWS SDK by the
/// application and by test doubles.
pub trait DynamoDBClientOps {
    fn list_table_names(&self) -> Result<Vec<String>, String>;

    fn describe_table(&self, table_name: &str) -> Result<DynamoDBTableInfo, String>;

    fn describe_ttl(&self, table_name: &str) -> Result<TTLInfo, String>;
}

/// One key schema element as an object.
pub open spec fn key_elem_spec(k: KeySchemaElementInfo) -> JsonV {
    JsonV::Object(
        seq![
            ("attribute_name"@, JsonV::Str(k.attribute_name@)),
            ("key_type"@, JsonV::Str(k.key_type@)),
        ],
    )
}

/// A key schema as a list of objects.
pub open spec fn key_schema_spec(ks: Seq<KeySchemaElementInfo>) -> JsonV {
    JsonV::Array(ks.map_values(|k: KeySchemaElementInfo| key_elem_spec(k)))
}

/// One attribute definition as an object.
pub open spec fn attribute_spec(a: AttributeDefinitionInfo) -> JsonV {
    JsonV::Object(
        seq![
            ("attribute_name"@, JsonV::Str(a.attribute_name@)),
            ("attribute_type"@, JsonV::Str(a.attribute_type@)),
        ],
    )
}

/// Attribute definitions as a list of objects.
pub open spec fn attributes_spec(ad: Seq<AttributeDefinitionInfo>) -> JsonV {
    JsonV::Array(ad.map_values(|a: AttributeDefinitionInfo| attribute_spec(a)))
}

/// The record of a global secondary index.
pub open spec fn gsi_spec(g: GSIInfo) -> JsonV {
    JsonV::Object(
        seq![
            ("index_name"@, JsonV::Str(g.index_name@)),
            ("key_schema"@, key_schema_spec(g.key_schema@)),
            ("projection_type"@, JsonV::Str(g.projection_type@)),
        ] + entry_if(
            g.non_key_attributes@.len() > 0,
            "non_key_attributes"@,
            texts_json(g.non_key_attributes@),
        ) + opt_num("read_capacity"@, g.read_capacity) + opt_num(
            "write_capacity"@,
            g.write_capacity,
        ),
    )
}

/// The record of a local secondary index.
pub open spec fn lsi_spec(l: LSIInfo) -> JsonV {
    JsonV::Object(
        seq![
            ("index_name"@, JsonV::Str(l.index_name@)),
            ("key_schema"@, key_schema_spec(l.key_schema@)),
            ("projection_type"@, JsonV::Str(l.projection_type@)),
        ] + entry_if(
            l.non_key_attributes@.len() > 0,
            "non_key_attributes"@,
            texts_json(l.non_key_attributes@),
        ),
    )
}

/// One tag as a key/value object.
pub open spec fn tag_spec(p: (String, String)) -> JsonV {
    JsonV::Object(seq![("key"@, JsonV::Str(p.0@)), ("value"@, JsonV::Str(p.1@))])
}

/// Tags as a list of key/value objects.
pub open spec fn tag_list_spec(tags: Seq<(String, String)>) -> JsonV {
    JsonV::Array(tags.map_values(|p: (String, String)| tag_spec(p)))
}

/// The stream entries: the flag and the view type, only when streaming.
pub open spec fn stream_entries(t: DynamoDBTableInfo) -> Seq<(Seq<char>, JsonV)> {
    if t.stream_enabled {
        seq![("stream_enabled"@, JsonV::Bool(true))] + opt_text(
            "stream_view_type"@,
            t.stream_view_type,
        )
    } else {
        Seq::empty()
    }
}

/// The time-to-live entry: the attribute, only when TTL is on.
pub open spec fn ttl_entries(ttl: Option<TTLInfo>) -> Seq<(Seq<char>, JsonV)> {
    match ttl {
        Some(t) => if t.enabled {
            opt_text("ttl_attribute"@, t.attribute_name)
        } else {
            Seq::empty()
        },
        None => Seq::empty(),
    }
}

/// The scan record of a table; its time-to-live setting when it was read.
pub open spec fn table_spec(t: DynamoDBTableInfo, ttl: Option<TTLInfo>) -> JsonV {
    JsonV::Object(
        seq![("table_name"@, JsonV::Str(t.table_name@))] + opt_text("arn"@, t.table_arn) + opt_text(
            "status"@,
            t.status,
        ) + opt_text("billing_mode"@, t.billing_mode) + opt_num("read_capacity"@, t.read_capacity)
            + opt_num("write_capacity"@, t.write_capacity) + entry_if(
            t.key_schema@.len() > 0,
            "key_schema"@,
            key_schema_spec(t.key_schema@),
        ) + entry_if(
            t.attribute_definitions@.len() > 0,
            "attribute_definitions"@,
            attributes_spec(t.attribute_definitions@),
        ) + entry_if(
            t.global_secondary_indexes@.len() > 0,
            "global_secondary_indexes"@,
            JsonV::Array(t.global_secondary_indexes@.map_values(|g: GSIInfo| gsi_spec(g))),
        ) + entry_if(
            t.local_secondary_indexes@.len() > 0,
            "local_secondary_indexes"@,
            JsonV::Array(t.local_secondary_indexes@.map_values(|l: LSIInfo| lsi_spec(l))),
        ) + stream_entries(t) + ttl_entries(ttl) + entry_if(
            t.tags@.len() > 0,
            "tags"@,
            tag_list_spec(t.tags@),
        ),
    )
}

/// A key schema as a list of objects.
pub fn key_schema_json(ks: &Vec<KeySchemaElementInfo>) -> (r: Json)
    ensures
        r@ == key_schema_spec(ks@),
{
    let mut out: Vec<Json> = Vec::new();
    let mut i: usize = 0;
    assert(ks@.take(0).map_values(|k: KeySchemaElementInfo| key_elem_spec(k)) =~= Seq::<JsonV>::empty());
    while i < ks.len()
        invariant
            i <= ks.len(),
            jv_list(out@) == ks@.take(i as int).map_values(|k: KeySchemaElementInfo| key_elem_spec(k)),
        decreases ks.len() - i,
    {
        let mut e: Vec<(String, Json)> = Vec::new();
        push_entry(&mut e, "attribute_name", text(ks[i].attribute_name.as_str()));
        push_entry(&mut e, "key_type", text(ks[i].key_type.as_str()));
        let ghost ev = jv_entries(e@);
        push_item(&mut out, Json::Object(e));
        assert(ks@.take(i + 1) =~= ks@.take(i as int).push(ks@[i as int]));
        assert(ev =~= seq![
            ("attribute_name"@, JsonV::Str(ks@[i as int].attribute_name@)),
            ("key_type"@, JsonV::Str(ks@[i as int].key_type@)),
        ]);
        assert(ks@.take(i + 1).map_values(|k: KeySchemaElementInfo| key_elem_spec(k)) =~= ks@.take(
            i as int,
        ).map_values(|k: KeySchemaElementInfo| key_elem_spec(k)).push(key_elem_spec(ks@[i as int])));
        i = i + 1;
    }
    assert(ks@.take(ks.len() as int) =~= ks@);
    Json::Array(out)
}

/// Attribute definitions as a list of objects.
pub fn attributes_json(ad: &Vec<AttributeDefinitionInfo>) -> (r: Json)
    ensures
        r@ == attributes_spec(ad@),
{
    let mut out: Vec<Json> = Vec::new();
    let mut i: usize = 0;
    assert(ad@.take(0).map_values(|a: AttributeDefinitionInfo| attribute_spec(a)) =~= Seq::<JsonV>::empty());
    while i < ad.len()
        invariant
            i <= ad.len(),
            jv_list(out@) == ad@.take(i as int).map_values(|a: AttributeDefinitionInfo| attribute_spec(a)),
        decreases ad.len() - i,
    {
        let mut e: Vec<(String, Json)> = Vec::new();
        push_entry(&mut e, "attribute_name", text(ad[i].attribute_name.as_str()));
        push_entry(&mut e, "attribute_type", text(ad[i].attribute_type.as_str()));
        let ghost ev = jv_entries(e@);
        push_item(&mut out, Json::Object(e));
        assert(ad@.take(i + 1) =~= ad@.take(i as int).push(ad@[i as int]));
        assert(ev =~= seq![
            ("attribute_name"@, JsonV::Str(ad@[i as int].attribute_name@)),
            ("attribute_type"@, JsonV::Str(ad@[i as int].attribute_type@)),
        ]);
        assert(ad@.take(i + 1).map_values(|a: AttributeDefinitionInfo| attribute_spec(a)) =~= ad@.take(
            i as int,
        ).map_values(|a: AttributeDefinitionInfo| attribute_spec(a)).push(attribute_spec(ad@[i as int])));
        i = i + 1;
    }
    assert(ad@.take(ad.len() as int) =~= ad@);
    Json::Array(out)
}

/// The record of a global secondary index.
pub fn gsi_json(g: &GSIInfo) -> (r: Json)
    ensures
        r@ == gsi_spec(*g),
{
    let mut e: Vec<(String, Json)> = Vec::new();
    push_entry(&mut e, "index_name", text(g.index_name.as_str()));
    push_entry(&mut e, "key_schema", key_schema_json(&g.key_schema));
    push_entry(&mut e, "projection_type", text(g.projection_type.as_str()));
    let ghost e0 = jv_entries(e@);
    assert(e0 =~= seq![
        ("index_name"@, JsonV::Str(g.index_name@)),
        ("key_schema"@, key_schema_spec(g.key_schema@)),
        ("projection_type"@, JsonV::Str(g.projection_type@)),
    ]);
    if g.non_key_attributes.len() > 0 {
        push_entry(&mut e, "non_key_attributes", text_array(&g.non_key_attributes));
    }
    assert(jv_entries(e@) =~= e0 + entry_if(
        g.non_key_attributes@.len() > 0,
        "non_key_attributes"@,
        texts_json(g.non_key_attributes@),
    ));
    push_opt_num(&mut e, "read_capacity", g.read_capacity);
    push_opt_num(&mut e, "write_capacity", g.write_capacity);
    Json::Object(e)
}

/// The record of a local secondary index.
pub fn lsi_json(l: &LSIInfo) -> (r: Json)
    ensures
        r@ == lsi_spec(*l),
{
    let mut e: Vec<(String, Json)> = Vec::new();
    push_entry(&mut e, "index_name", text(l.index_name.as_str()));
    push_entry(&mut e, "key_schema", key_schema_json(&l.key_schema));
    push_entry(&mut e, "projection_type", text(l.projection_type.as_str()));
    let ghost e0 = jv_entries(e@);
    assert(e0 =~= seq![
        ("index_name"@, JsonV::Str(l.index_name@)),
        ("key_schema"@, key_schema_spec(l.key_schema@)),
        ("projection_type"@, JsonV::Str(l.projection_type@)),
    ]);
    if l.non_key_attributes.len() > 0 {
        push_entry(&mut e, "non_key_attributes", text_array(&l.non_key_attributes));
    }
    assert(jv_entries(e@) =~= e0 + entry_if(
        l.non_key_attributes@.len() > 0,
        "non_key_attributes"@,
        texts_json(l.non_key_attributes@),
    ));
    Json::Object(e)
}

/// Tags as a list of key/value objects.
pub fn tag_list_json(tags: &Vec<(String, String)>) -> (r: Json)
    ensures
        r@ == tag_list_spec(tags@),
{
    let mut out: Vec<Json> = Vec::new();
    let mut i: usize = 0;
    assert(tags@.take(0).map_values(|p: (String, String)| tag_spec(p)) =~= Seq::<JsonV>::empty());
    while i < tags.len()
        invariant
            i <= tags.len(),
            jv_list(out@) == tags@.take(i as int).map_values(|p: (String, String)| tag_spec(p)),
        decreases tags.len() - i,
    {
        let mut e: Vec<(String, Json)> = Vec::new();
        push_entry(&mut e, "key", text(tags[i].0.as_str()));
        push_entry(&mut e, "value", text(tags[i].1.as_str()));
        let ghost ev = jv_entries(e@);
        push_item(&mut out, Json::Object(e));
        assert(tags@.take(i + 1) =~= tags@.take(i as int).push(tags@[i as int]));
        assert(ev =~= seq![
            ("key"@, JsonV::Str(tags@[i as int].0@)),
            ("value"@, JsonV::Str(tags@[i as int].1@)),
        ]);
        assert(tags@.take(i + 1).map_values(|p: (String, String)| tag_spec(p)) =~= tags@.take(
            i as int,
        ).map_values(|p: (String, String)| tag_spec(p)).push(tag_spec(tags@[i as int])));
        i = i + 1;
    }
    assert(tags@.take(tags.len() as int) =~= tags@);
    Json::Array(out)
}

/// The scan record of a table, with its time-to-live setting when it was
/// read.
#[verifier::rlimit(50)]
pub fn table_json(t: &DynamoDBTableInfo, ttl: &Option<TTLInfo>) -> (r: Json)
    ensures
        r@ == table_spec(*t, *ttl),
{
    let mut e: Vec<(String, Json)> = Vec::new();
    push_entry(&mut e, "table_name", text(t.table_name.as_str()));
    push_opt_text(&mut e, "arn", &t.table_arn);
    push_opt_text(&mut e, "status", &t.status);
    push_opt_text(&mut e, "billing_mode", &t.billing_mode);
    push_opt_num(&mut e, "read_capacity", t.read_capacity);
    push_opt_num(&mut e, "write_capacity", t.write_capacity);
    let ghost e1 = jv_entries(e@);
    if t.key_schema.len() > 0 {
        push_entry(&mut e, "key_schema", key_schema_json(&t.key_schema));
    }
    assert(jv_entries(e@) =~= e1 + entry_if(
        t.key_schema@.len() > 0,
        "key_schema"@,
        key_schema_spec(t.key_schema@),
    ));
    let ghost e2 = jv_entries(e@);
    if t.attribute_definitions.len() > 0 {
        push_entry(&mut e, "attribute_definitions", attributes_json(&t.attribute_definitions));
    }
    assert(jv_entries(e@) =~= e2 + entry_if(
        t.attribute_definitions@.len() > 0,
        "attribute_definitions"@,
        attributes_spec(t.attribute_definitions@),
    ));
    let ghost e3 = jv_entries(e@);
    if t.global_secondary_indexes.len() > 0 {
        let mut gs: Vec<Json> = Vec::new();
        let mut i: usize = 0;
        while i < t.global_secondary_indexes.len()
            invariant
                i <= t.global_secondary_indexes.len(),
                jv_list(gs@) == t.global_secondary_indexes@.take(i as int).map_values(
                    |g: GSIInfo| gsi_spec(g),
                ),
            decreases t.global_secondary_indexes.len() - i,
        {
            push_item(&mut gs, gsi_json(&t.global_secondary_indexes[i]));
            assert(t.global_secondary_indexes@.take(i + 1).map_values(|g: GSIInfo| gsi_spec(g))
                =~= t.global_secondary_indexes@.take(i as int).map_values(
                |g: GSIInfo| gsi_spec(g),
            ).push(gsi_spec(t.global_secondary_indexes@[i as int])));
            i = i + 1;
        }
        assert(t.global_secondary_indexes@.take(t.global_secondary_indexes.len() as int)
            =~= t.global_secondary_indexes@);
        push_entry(&mut e, "global_secondary_indexes", Json::Array(gs));
    }
    assert(jv_entries(e@) =~= e3 + entry_if(
        t.global_secondary_indexes@.len() > 0,
        "global_secondary_indexes"@,
        JsonV::Array(t.global_secondary_indexes@.map_values(|g: GSIInfo| gsi_spec(g))),
    ));
    let ghost e4 = jv_entries(e@);
    if t.local_secondary_indexes.len() > 0 {
        let mut ls: Vec<Json> = Vec::new();
        let mut i: usize = 0;
        while i < t.local_secondary_indexes.len()
            invariant
                i <= t.local_secondary_indexes.len(),
                jv_list(ls@) == t.local_secondary_indexes@.take(i as int).map_values(
                    |l: LSIInfo| lsi_spec(l),
                ),
            decreases t.local_secondary_indexes.len() - i,
        {
            push_item(&mut ls, lsi_json(&t.local_secondary_indexes[i]));
            assert(t.local_secondary_indexes@.take(i + 1).map_values(|l: LSIInfo| lsi_spec(l))
                =~= t.local_secondary_indexes@.take(i as int).map_values(
                |l: LSIInfo| lsi_spec(l),
            ).push(lsi_spec(t.local_secondary_indexes@[i as int])));
            i = i + 1;
        }
        assert(t.local_secondary_indexes@.take(t.local_secondary_indexes.len() as int)
            =~= t.local_secondary_indexes@);
        push_entry(&mut e, "local_secondary_indexes", Json::Array(ls));
    }
    assert(jv_entries(e@) =~= e4 + entry_if(
        t.local_secondary_indexes@.len() > 0,
        "local_secondary_indexes"@,
        JsonV::Array(t.local_secondary_indexes@.map_values(|l: LSIInfo| lsi_spec(l))),
    ));
    let ghost e5 = jv_entries(e@);
    if t.stream_enabled {
        push_entry(&mut e, "stream_enabled", Json::Bool(true));
        push_opt_text(&mut e, "stream_view_type", &t.stream_view_type);
    }
    assert(jv_entries(e@) =~= e5 + stream_entries(*t));
    let ghost e6 = jv_entries(e@);
    match ttl {
        Some(x) => {
            if x.enabled {
                push_opt_text(&mut e, "ttl_attribute", &x.attribute_name);
            }
        },
        None => {},
    }
    assert(jv_entries(e@) =~= e6 + ttl_entries(*ttl));
    let ghost e7 = jv_entries(e@);
    if t.tags.len() > 0 {
        push_entry(&mut e, "tags", tag_list_json(&t.tags));
    }
    assert(jv_entries(e@) =~= e7 + entry_if(t.tags@.len() > 0, "tags"@, tag_list_spec(t.tags@)));
    Json::Object(e)
}

/// Scans DynamoDB tables through a client.
pub struct AwsDynamoDBScanner<C: DynamoDBClientOps> {
    config: ScanConfig,
    dynamodb_client: Arc<C>,
}

/// What each target of this scanner gave.
pub struct DynamoDBFound {
    pub dynamodb_tables: Result<Vec<Json>, String>,
}

/// This scanner's targets: result key and progress label, in order.
pub open spec fn dynamodb_targets() -> Seq<(Seq<char>, Seq<char>)> {
    seq![
        ("dynamodb_tables"@, "DynamoDB Tables"@),
    ]
}

/// The outcome of each target of this scanner under a request.
pub open spec fn dynamodb_outcomes(c: ScanConfig, f: DynamoDBFound) -> Seq<OutcomeV> {
    seq![
        outcome_of(target_on(c.scan_targets@, "dynamodb_tables"@), listed_view(f.dynamodb_tables)),
    ]
}

/// Whether each target's records are what its scan can give.
pub open spec fn dynamodb_fit(c: ScanConfig, f: DynamoDBFound) -> bool {
    (f.dynamodb_tables is Ok ==> dynamodb_tables_slot(c, JsonV::Array(jv_list(f.dynamodb_tables->Ok_0@))))
}

impl<C: DynamoDBClientOps> AwsDynamoDBScanner<C> {
    /// The scan request this scanner serves.
    pub closed spec fn config_spec(&self) -> ScanConfig {
        self.config
    }

    /// The client this scanner makes its calls through.
    pub closed spec fn client_spec(&self) -> C {
        *self.dynamodb_client
    }

    /// A scanner over a shared client.
    pub fn new(config: ScanConfig, client: Arc<C>) -> (r: Self)
        ensures
            r.config_spec() == config,
            r.client_spec() == *client,
    {
        AwsDynamoDBScanner { config, dynamodb_client: client }
    }

    /// A scanner over the given client.
    pub fn new_with_client(config: ScanConfig, client: C) -> (r: Self)
        ensures
            r.config_spec() == config,
            r.client_spec() == client,
    {
        AwsDynamoDBScanner { config, dynamodb_client: Arc::new(client) }
    }

    /// Whether a name passes the request's `name_prefix` filter.
    pub fn apply_name_prefix_filter(&self, name: &str) -> (r: bool)
        ensures
            r == name_prefix_ok(self.config_spec().filters@, name@),
    {
        self.config.name_passes(name)
    }

    /// Lists the tables and describes each whose name passes the filter;
    /// a table whose description fails is left out, and its time-to-live
    /// attribute is added when that setting can be read and is on. A
    /// failing listing fails the scan.
    pub fn scan_tables(&self) -> (r: Result<Vec<Json>, String>)
        ensures
            r is Ok ==> exists|n: Seq<String>, d: Seq<Option<(DynamoDBTableInfo, Option<TTLInfo>)>>|
                #[trigger] tables_spec(self.config_spec().filters@, n, d) == jv_list(r->Ok_0@),
    {
        self.tables_of_listing(self.dynamodb_client.list_table_names()).0
    }

    /// The scan of the tables once they are listed: a failed listing is the
    /// scan's error; otherwise each listed name that passes the filter is
    /// described, and the scan succeeds with the records of those whose
    /// description succeeded, whatever the other descriptions gave. Beside
    /// the result come the names that were described (and whose time-to-live
    /// setting was read), in order: exactly the listed names that pass the
    /// filter.
    pub fn tables_of_listing(&self, listing: Result<Vec<String>, String>) -> (r: (
        Result<Vec<Json>, String>,
        Ghost<Seq<Seq<char>>>,
    ))
        ensures
            match listing {
                Err(e) => r.0 == Err::<Vec<Json>, String>(e) && r.1@ == Seq::<Seq<char>>::empty(),
                Ok(n) => r.0 is Ok && r.1@ == described_names(self.config_spec().filters@, n@, n@.len() as int)
                    && exists|d: Seq<Option<(DynamoDBTableInfo, Option<TTLInfo>)>>|
                    d.len() == n@.len() && #[trigger] tables_spec(self.config_spec().filters@, n@, d) == jv_list(
                        r.0->Ok_0@,
                    ),
            },
    {
        let names = match listing {
            Ok(n) => n,
            Err(e) => return (Err(e), Ghost(Seq::empty())),
        };
        let ghost mut asked: Seq<Seq<char>> = Seq::empty();
        let mut described: Vec<Option<(DynamoDBTableInfo, Option<TTLInfo>)>> = Vec::new();
        let mut i: usize = 0;
        while i < names.len()
            invariant
                i <= names.len(),
                described@.len() == i,
                asked == described_names(self.config_spec().filters@, names@, i as int),
            decreases names.len() - i,
        {
            let name = names[i].as_str();
            if self.apply_name_prefix_filter(name) {
                proof {
                    asked = asked.push(name@);
                }
                match self.dynamodb_client.describe_table(name) {
                    Ok(info) => {
                        let ttl = match self.dynamodb_client.describe_ttl(name) {
                            Ok(t) => Some(t),
                            Err(_) => None,
                        };
                        described.push(Some((info, ttl)));
                    },
                    Err(_) => described.push(None),
                }
            } else {
                described.push(None);
            }
            i = i + 1;
        }
        let out = self.tables_from(&names, &described);
        proof {
            assert(tables_spec(self.config_spec().filters@, names@, described@) == jv_list(out@));
        }
        (Ok(out), Ghost(asked))
    }

    /// The records of the listed tables that pass the name filter and whose
    /// description succeeded, in listing order; `described[i]` is what
    /// describing `names[i]` gave, with its time-to-live setting.
    pub fn tables_from(&self, names: &Vec<String>, described: &Vec<Option<(DynamoDBTableInfo, Option<TTLInfo>)>>) -> (r: Vec<Json>)
        ensures
            jv_list(r@) == tables_spec(self.config_spec().filters@, names@, described@),
    {
        let mut out: Vec<Json> = Vec::new();
        let mut i: usize = 0;
        while i < names.len()
            invariant
                i <= names.len(),
                jv_list(out@) == tables_upto(self.config_spec().filters@, names@, described@, i as int),
            decreases names.len() - i,
        {
            if self.apply_name_prefix_filter(names[i].as_str()) && i < described.len() {
                match &described[i] {
                    Some(d) => push_item(&mut out, table_json(&d.0, &d.1)),
                    None => {},
                }
            }
            i = i + 1;
        }
        out
    }

    /// Adds the list of each resource type of this scanner to a scan
    /// result: the records of its scan when the type is switched on, an
    /// empty list otherwise. The first failing scan fails the whole; the types
    /// after it are not scanned.
    pub fn scan_into(&self, results: &mut Vec<(String, Json)>, progress: &mut ScanProgress) -> (r: Result<(), String>)
        ensures
            final(progress).total == old(progress).total,
            exists|f: DynamoDBFound|
                dynamodb_fit(self.config_spec(), f) && targets_spec(
                (jv_entries(old(results)@), events_view(old(progress).events@), old(progress).completed),
                old(progress).total,
                dynamodb_targets(),
                #[trigger] dynamodb_outcomes(self.config_spec(), f),
            ) == ((jv_entries(final(results)@), events_view(final(progress).events@), final(progress).completed), error_of(r)),
    {
        let mut failed = false;
        let dynamodb_tables = if !self.config.target_enabled("dynamodb_tables") {
            Ok(Vec::new())
        } else if failed {
            Err(String::new())
        } else {
            let r = self.scan_tables();
            failed = r.is_err();
            r
        };
        let found = DynamoDBFound { dynamodb_tables };
        proof {
            assert(jv_list(Seq::<Json>::empty()) =~= Seq::<JsonV>::empty());
        }
        self.scan_into_from(results, progress, found)
    }

    /// Writes what each target's scan gave into a scan result and its
    /// progress: for each target in order, an empty list when it is off, else
    /// its records, with a report at its start and end; the first failed
    /// scan ends the whole with its error.
    pub fn scan_into_from(&self, results: &mut Vec<(String, Json)>, progress: &mut ScanProgress, found: DynamoDBFound) -> (r: Result<(), String>)
        ensures
            final(progress).total == old(progress).total,
            targets_spec(
                (jv_entries(old(results)@), events_view(old(progress).events@), old(progress).completed),
                old(progress).total,
                dynamodb_targets(),
                dynamodb_outcomes(self.config_spec(), found),
            ) == ((jv_entries(final(results)@), events_view(final(progress).events@), final(progress).completed), error_of(r)),
    {
        let ghost f = found;
        let mut outs: Vec<TargetOutcome> = Vec::new();
        outs.push(outcome(self.config.target_enabled("dynamodb_tables"), found.dynamodb_tables));
        let mut targets: Vec<(&str, &str)> = Vec::new();
        targets.push(("dynamodb_tables", "DynamoDB Tables"));
        assert(targets_view(targets@) =~= dynamodb_targets());
        assert(outs@.map_values(|o: TargetOutcome| outcome_view(o)) =~= dynamodb_outcomes(self.config_spec(), f));
        record_targets(results, progress, &targets, outs)
    }
}

/// The listed names that pass the name filter, among the first `i`: the
/// tables that are described, in order.
pub open spec fn described_names(f: Seq<(String, String)>, names: Seq<String>, i: int) -> Seq<Seq<char>>
    decreases i,
{
    if i <= 0 {
        Seq::empty()
    } else {
        let r = described_names(f, names, i - 1);
        if name_prefix_ok(f, names[i - 1]@) {
            r.push(names[i - 1]@)
        } else {
            r
        }
    }
}

/// The records of the first `i` listed tables: those that pass the name
/// filter and whose description succeeded.
pub open spec fn tables_upto(
    f: Seq<(String, String)>,
    names: Seq<String>,
    described: Seq<Option<(DynamoDBTableInfo, Option<TTLInfo>)>>,
    i: int,
) -> Seq<JsonV>
    decreases i,
{
    if i <= 0 {
        Seq::empty()
    } else {
        let rest = tables_upto(f, names, described, i - 1);
        if name_prefix_ok(f, names[i - 1]@) && i - 1 < described.len() {
            match described[i - 1] {
                Some(d) => rest.push(table_spec(d.0, d.1)),
                None => rest,
            }
        } else {
            rest
        }
    }
}

/// The records of a table listing: in order, each listed table that passes
/// the name filter and whose description succeeded.
pub open spec fn tables_spec(
    f: Seq<(String, String)>,
    names: Seq<String>,
    described: Seq<Option<(DynamoDBTableInfo, Option<TTLInfo>)>>,
) -> Seq<JsonV> {
    tables_upto(f, names, described, names.len() as int)
}

/// What a scan result holds under `dynamodb_tables`: the records of a listing when
/// the request asks for them, an empty list otherwise.
pub open spec fn dynamodb_tables_slot(c: ScanConfig, v: JsonV) -> bool {
    match v {
        JsonV::Array(s) => if target_on(c.scan_targets@, "dynamodb_tables"@) {
            exists|n: Seq<String>, d: Seq<Option<(DynamoDBTableInfo, Option<TTLInfo>)>>|
                #[trigger] tables_spec(c.filters@, n, d) == s
        } else {
            s.len() == 0
        },
        _ => false,
    }
}

} // verus!
