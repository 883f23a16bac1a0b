//! How the models are written as documents, and read back.
//!
//! Every model is written as a document with one field for each of its
//! attributes, under the name of the attribute. Reading a document that was
//! written from a model gives the model back.
use crate::models::cluster::ClusterDiscovery;
use crate::models::cluster::ClusterDiscoveryView;
use crate::models::cluster::ClusterMeta;
use crate::models::cluster::ClusterMetaView;
use crate::models::datastore::CommitOffset;
use crate::models::datastore::CommitOffsetView;
use crate::models::datastore::CommitUnit;
use crate::models::datastore::CommitUnitView;
use crate::models::datastore::Node;
use crate::models::datastore::NodeView;
use crate::models::datastore::Shard;
use crate::models::datastore::ShardRole;
use crate::models::datastore::ShardRoleView;
use crate::models::datastore::ShardView;
use crate::store::document::get;
use crate::store::document::get_value;
use crate::store::document::value_field;
use crate::store::document::doc_view;
use crate::store::document::field;
use crate::store::document::field_from;
use crate::store::document::fields_of;
use crate::store::document::get_fields;
use crate::store::document::get_int;
use crate::store::document::get_optional_text;
use crate::store::document::get_text;
use crate::store::document::get_texts;
use crate::store::document::int_field;
use crate::store::document::lemma_fields_view_push;
use crate::store::document::optional_text_field;
use crate::store::document::text_field;
use crate::store::document::texts_field;
use crate::store::document::DecodeError;
use crate::store::document::DecodeErrorView;
use crate::store::document::Fields;
use crate::store::document::Value;
use crate::store::document::ValueView;
use crate::text::clone_strings;
use crate::text::result_view;
use vstd::prelude::*;
use vstd::string::*;

verus! {

/// Add the field `name` with the given value to the fields of a document.
pub fn put(fields: &mut Vec<(String, Value)>, name: &str, value: Value)
    ensures
        doc_view(final(fields)) == doc_view(old(fields)).push((name@, value@)),
{
    let ghost before = fields@;
    let named = (name.to_owned(), value);
    proof {
        lemma_fields_view_push(before, named);
    }
    fields.push(named);
}

/// No fields.
pub fn no_fields() -> (fields: Vec<(String, Value)>)
    ensures
        doc_view(&fields) == Seq::<(Seq<char>, ValueView)>::empty(),
{
    Vec::new()
}

/// The document for the record of a node.
pub open spec fn encoded_node(node: NodeView) -> ValueView {
    ValueView::Doc(
        seq![
            ("cluster_display_name"@, ValueView::Text(node.cluster_display_name)),
            ("cluster_id"@, ValueView::Text(node.cluster_id)),
            ("kind"@, ValueView::Text(node.kind)),
            ("node_id"@, ValueView::Text(node.node_id)),
            ("version"@, ValueView::Text(node.version)),
        ],
    )
}

/// The record of a node that a document holds, or why it holds none.
pub open spec fn decoded_node(value: ValueView) -> core::result::Result<NodeView, DecodeErrorView> {
    match fields_of(value) {
        Err(error) => Err(error),
        Ok(fields) => match text_field(fields, "cluster_display_name"@) {
            Err(error) => Err(error),
            Ok(cluster_display_name) => match text_field(fields, "cluster_id"@) {
                Err(error) => Err(error),
                Ok(cluster_id) => match text_field(fields, "kind"@) {
                    Err(error) => Err(error),
                    Ok(kind) => match text_field(fields, "node_id"@) {
                        Err(error) => Err(error),
                        Ok(node_id) => match text_field(fields, "version"@) {
                            Err(error) => Err(error),
                            Ok(version) => Ok(
                                NodeView { cluster_display_name, cluster_id, kind, node_id, version },
                            ),
                        },
                    },
                },
            },
        },
    }
}

/// Write the record of a node as a document.
pub fn encode_node(node: &Node) -> (value: Value)
    ensures
        value@ == encoded_node(node@),
{
    let mut fields = no_fields();
    put(&mut fields, "cluster_display_name", Value::Text(node.cluster_display_name.clone()));
    put(&mut fields, "cluster_id", Value::Text(node.cluster_id.clone()));
    put(&mut fields, "kind", Value::Text(node.kind.clone()));
    put(&mut fields, "node_id", Value::Text(node.node_id.clone()));
    put(&mut fields, "version", Value::Text(node.version.clone()));
    assert(doc_view(&fields) =~= encoded_node(node@)->Doc_0);
    Value::Doc(fields)
}

/// Read the record of a node from a document.
pub fn decode_node(value: &Value) -> (node: core::result::Result<Node, DecodeError>)
    ensures
        result_view(node) == decoded_node(value@),
{
    let fields = match get_fields(value) {
        Ok(fields) => fields,
        Err(error) => {
            return Err(error);
        },
    };
    let cluster_display_name = match get_text(fields, "cluster_display_name") {
        Ok(text) => text,
        Err(error) => {
            return Err(error);
        },
    };
    let cluster_id = match get_text(fields, "cluster_id") {
        Ok(text) => text,
        Err(error) => {
            return Err(error);
        },
    };
    let kind = match get_text(fields, "kind") {
        Ok(text) => text,
        Err(error) => {
            return Err(error);
        },
    };
    let node_id = match get_text(fields, "node_id") {
        Ok(text) => text,
        Err(error) => {
            return Err(error);
        },
    };
    let version = match get_text(fields, "version") {
        Ok(text) => text,
        Err(error) => {
            return Err(error);
        },
    };
    Ok(Node { cluster_display_name, cluster_id, kind, node_id, version })
}

/// What the names of the attributes of a node are made of.
proof fn reveal_node_names()
    ensures
        "cluster_display_name"@.len() == 20,
        "cluster_id"@.len() == 10,
        "kind"@.len() == 4,
        "node_id"@.len() == 7,
        "node_id"@[0] == 'n',
        "version"@.len() == 7,
        "version"@[0] == 'v',
{
    reveal_strlit("cluster_display_name");
    reveal_strlit("cluster_id");
    reveal_strlit("kind");
    reveal_strlit("node_id");
    reveal_strlit("version");
}

/// Reading the document that was written from the record of a node gives
/// the record back.
pub proof fn lemma_node_round_trip(node: NodeView)
    ensures
        decoded_node(encoded_node(node)) == Ok::<NodeView, DecodeErrorView>(node),
{
    reveal_node_names();
    reveal_with_fuel(field_from, 6);
}


/// The document for a discovery record.
pub open spec fn encoded_discovery(discovery: ClusterDiscoveryView) -> ValueView {
    ValueView::Doc(
        seq![
            ("cluster_id"@, ValueView::Text(discovery.cluster_id)),
            (
                "display_name"@,
                match discovery.display_name {
                    Some(name) => ValueView::Text(name),
                    None => ValueView::Null,
                },
            ),
            ("nodes"@, ValueView::Texts(discovery.nodes)),
        ],
    )
}

/// The discovery record that a document holds, or why it holds none.
pub open spec fn decoded_discovery(value: ValueView) -> core::result::Result<
    ClusterDiscoveryView,
    DecodeErrorView,
> {
    match fields_of(value) {
        Err(error) => Err(error),
        Ok(fields) => match text_field(fields, "cluster_id"@) {
            Err(error) => Err(error),
            Ok(cluster_id) => match optional_text_field(fields, "display_name"@) {
                Err(error) => Err(error),
                Ok(display_name) => match texts_field(fields, "nodes"@) {
                    Err(error) => Err(error),
                    Ok(nodes) => Ok(ClusterDiscoveryView { cluster_id, display_name, nodes }),
                },
            },
        },
    }
}

/// Write a discovery record as a document.
pub fn encode_discovery(discovery: &ClusterDiscovery) -> (value: Value)
    ensures
        value@ == encoded_discovery(discovery@),
{
    let mut fields = no_fields();
    put(&mut fields, "cluster_id", Value::Text(discovery.cluster_id.clone()));
    put(
        &mut fields,
        "display_name",
        match &discovery.display_name {
            Some(name) => Value::Text(name.clone()),
            None => Value::Null,
        },
    );
    put(&mut fields, "nodes", Value::Texts(clone_strings(&discovery.nodes)));
    assert(doc_view(&fields) =~= encoded_discovery(discovery@)->Doc_0);
    Value::Doc(fields)
}

/// Read a discovery record from a document.
pub fn decode_discovery(value: &Value) -> (discovery: core::result::Result<
    ClusterDiscovery,
    DecodeError,
>)
    ensures
        result_view(discovery) == decoded_discovery(value@),
{
    let fields = match get_fields(value) {
        Ok(fields) => fields,
        Err(error) => {
            return Err(error);
        },
    };
    let cluster_id = match get_text(fields, "cluster_id") {
        Ok(text) => text,
        Err(error) => {
            return Err(error);
        },
    };
    let display_name = match get_optional_text(fields, "display_name") {
        Ok(text) => text,
        Err(error) => {
            return Err(error);
        },
    };
    let nodes = match get_texts(fields, "nodes") {
        Ok(texts) => texts,
        Err(error) => {
            return Err(error);
        },
    };
    Ok(ClusterDiscovery { cluster_id, display_name, nodes })
}

/// Reading the document that was written from a discovery record gives the
/// record back.
pub proof fn lemma_discovery_round_trip(discovery: ClusterDiscoveryView)
    ensures
        decoded_discovery(encoded_discovery(discovery)) == Ok::<
            ClusterDiscoveryView,
            DecodeErrorView,
        >(discovery),
{
    reveal_strlit("cluster_id");
    reveal_strlit("display_name");
    reveal_strlit("nodes");
    assert("cluster_id"@.len() == 10 && "display_name"@.len() == 12 && "nodes"@.len() == 5);
    reveal_with_fuel(field_from, 4);
}

/// The document for the metadata of a cluster.
pub open spec fn encoded_meta(meta: ClusterMetaView) -> ValueView {
    ValueView::Doc(
        seq![
            ("cluster_id"@, ValueView::Text(meta.cluster_id)),
            ("display_name"@, ValueView::Text(meta.display_name)),
            ("kinds"@, ValueView::Texts(meta.kinds)),
            ("nodes"@, ValueView::Int(meta.nodes as i64)),
        ],
    )
}

/// The metadata of a cluster that a document holds, or why it holds none.
/// The number of nodes must fit in 32 bits.
pub open spec fn decoded_meta(value: ValueView) -> core::result::Result<
    ClusterMetaView,
    DecodeErrorView,
> {
    match fields_of(value) {
        Err(error) => Err(error),
        Ok(fields) => match text_field(fields, "cluster_id"@) {
            Err(error) => Err(error),
            Ok(cluster_id) => match text_field(fields, "display_name"@) {
                Err(error) => Err(error),
                Ok(display_name) => match texts_field(fields, "kinds"@) {
                    Err(error) => Err(error),
                    Ok(kinds) => match int_field(fields, "nodes"@) {
                        Err(error) => Err(error),
                        Ok(nodes) => if i32::MIN <= nodes <= i32::MAX {
                            Ok(
                                ClusterMetaView {
                                    cluster_id,
                                    display_name,
                                    kinds,
                                    nodes: nodes as int,
                                },
                            )
                        } else {
                            Err(DecodeErrorView::InvalidField("nodes"@))
                        },
                    },
                },
            },
        },
    }
}

/// Write the metadata of a cluster as a document.
pub fn encode_meta(meta: &ClusterMeta) -> (value: Value)
    ensures
        value@ == encoded_meta(meta@),
{
    let mut fields = no_fields();
    put(&mut fields, "cluster_id", Value::Text(meta.cluster_id.clone()));
    put(&mut fields, "display_name", Value::Text(meta.display_name.clone()));
    put(&mut fields, "kinds", Value::Texts(clone_strings(&meta.kinds)));
    put(&mut fields, "nodes", Value::Int(meta.nodes as i64));
    assert(doc_view(&fields) =~= encoded_meta(meta@)->Doc_0);
    Value::Doc(fields)
}

/// Read the metadata of a cluster from a document.
pub fn decode_meta(value: &Value) -> (meta: core::result::Result<ClusterMeta, DecodeError>)
    ensures
        result_view(meta) == decoded_meta(value@),
{
    let fields = match get_fields(value) {
        Ok(fields) => fields,
        Err(error) => {
            return Err(error);
        },
    };
    let cluster_id = match get_text(fields, "cluster_id") {
        Ok(text) => text,
        Err(error) => {
            return Err(error);
        },
    };
    let display_name = match get_text(fields, "display_name") {
        Ok(text) => text,
        Err(error) => {
            return Err(error);
        },
    };
    let kinds = match get_texts(fields, "kinds") {
        Ok(texts) => texts,
        Err(error) => {
            return Err(error);
        },
    };
    let nodes = match get_int(fields, "nodes") {
        Ok(nodes) => nodes,
        Err(error) => {
            return Err(error);
        },
    };
    if nodes < i32::MIN as i64 || nodes > i32::MAX as i64 {
        return Err(DecodeError::InvalidField("nodes"));
    }
    Ok(ClusterMeta { cluster_id, display_name, kinds, nodes: nodes as i32 })
}

/// Reading the document that was written from the metadata of a cluster
/// gives the metadata back.
pub proof fn lemma_meta_round_trip(meta: ClusterMeta)
    ensures
        decoded_meta(encoded_meta(meta@)) == Ok::<ClusterMetaView, DecodeErrorView>(meta@),
{
    reveal_strlit("cluster_id");
    reveal_strlit("display_name");
    reveal_strlit("kinds");
    reveal_strlit("nodes");
    assert("cluster_id"@.len() == 10 && "display_name"@.len() == 12);
    assert("kinds"@.len() == 5 && "nodes"@.len() == 5);
    assert("kinds"@[0] == 'k' && "nodes"@[0] == 'n');
    reveal_with_fuel(field_from, 5);
}


/// The value for the unit of a commit offset.
pub open spec fn encoded_unit(unit: CommitUnitView) -> ValueView {
    match unit {
        CommitUnitView::Seconds => ValueView::Text("seconds"@),
        CommitUnitView::Unit(name) => ValueView::Doc(seq![("unit"@, ValueView::Text(name))]),
    }
}

/// The unit of a commit offset that a value holds, or why it holds none.
pub open spec fn decoded_unit(value: ValueView) -> core::result::Result<
    CommitUnitView,
    DecodeErrorView,
> {
    match value {
        ValueView::Text(text) => if text == "seconds"@ {
            Ok(CommitUnitView::Seconds)
        } else {
            Err(DecodeErrorView::InvalidField("unit"@))
        },
        ValueView::Doc(fields) => match text_field(fields, "unit"@) {
            Err(error) => Err(error),
            Ok(name) => Ok(CommitUnitView::Unit(name)),
        },
        _ => Err(DecodeErrorView::InvalidField("unit"@)),
    }
}

/// The value for a commit offset.
pub open spec fn encoded_offset(offset: CommitOffsetView) -> ValueView {
    ValueView::Doc(
        seq![("unit"@, encoded_unit(offset.unit)), ("value"@, ValueView::Int(offset.value as i64))],
    )
}

/// The commit offset that a value holds, or why it holds none.
pub open spec fn decoded_offset(value: ValueView) -> core::result::Result<
    CommitOffsetView,
    DecodeErrorView,
> {
    match fields_of(value) {
        Err(error) => Err(error),
        Ok(fields) => match value_field(fields, "unit"@) {
            Err(error) => Err(error),
            Ok(unit) => match decoded_unit(unit) {
                Err(error) => Err(error),
                Ok(unit) => match int_field(fields, "value"@) {
                    Err(error) => Err(error),
                    Ok(value) => Ok(CommitOffsetView { unit, value: value as int }),
                },
            },
        },
    }
}

/// The value for a commit offset that may be missing.
pub open spec fn encoded_optional_offset(offset: Option<CommitOffsetView>) -> ValueView {
    match offset {
        Some(offset) => encoded_offset(offset),
        None => ValueView::Null,
    }
}

/// The commit offset that the field `name` holds, if it holds one: a field
/// that is missing, or present without a value, holds none.
pub open spec fn optional_offset_field(fields: Fields, name: Seq<char>) -> core::result::Result<
    Option<CommitOffsetView>,
    DecodeErrorView,
> {
    match field(fields, name) {
        None => Ok(None),
        Some(ValueView::Null) => Ok(None),
        Some(value) => match decoded_offset(value) {
            Err(error) => Err(error),
            Ok(offset) => Ok(Some(offset)),
        },
    }
}

/// The value for the role of a node for a shard.
pub open spec fn encoded_role(role: ShardRoleView) -> ValueView {
    match role {
        ShardRoleView::Primary => ValueView::Text("primary"@),
        ShardRoleView::Secondary => ValueView::Text("secondary"@),
        ShardRoleView::Unknown(name) => ValueView::Doc(seq![("unknown"@, ValueView::Text(name))]),
    }
}

/// The role of a node for a shard that a value holds, or why it holds none.
pub open spec fn decoded_role(value: ValueView) -> core::result::Result<
    ShardRoleView,
    DecodeErrorView,
> {
    match value {
        ValueView::Text(text) => if text == "primary"@ {
            Ok(ShardRoleView::Primary)
        } else if text == "secondary"@ {
            Ok(ShardRoleView::Secondary)
        } else {
            Err(DecodeErrorView::InvalidField("role"@))
        },
        ValueView::Doc(fields) => match text_field(fields, "unknown"@) {
            Err(error) => Err(error),
            Ok(name) => Ok(ShardRoleView::Unknown(name)),
        },
        _ => Err(DecodeErrorView::InvalidField("role"@)),
    }
}

/// The document for the record of a shard.
pub open spec fn encoded_shard(shard: ShardView) -> ValueView {
    ValueView::Doc(
        seq![
            ("cluster_id"@, ValueView::Text(shard.cluster_id)),
            ("commit_offset"@, encoded_optional_offset(shard.commit_offset)),
            ("lag"@, encoded_optional_offset(shard.lag)),
            ("node_id"@, ValueView::Text(shard.node_id)),
            ("role"@, encoded_role(shard.role)),
            ("shard_id"@, ValueView::Text(shard.shard_id)),
        ],
    )
}

/// The record of a shard that a document holds, or why it holds none.
pub open spec fn decoded_shard(value: ValueView) -> core::result::Result<
    ShardView,
    DecodeErrorView,
> {
    match fields_of(value) {
        Err(error) => Err(error),
        Ok(fields) => match text_field(fields, "cluster_id"@) {
            Err(error) => Err(error),
            Ok(cluster_id) => match optional_offset_field(fields, "commit_offset"@) {
                Err(error) => Err(error),
                Ok(commit_offset) => match optional_offset_field(fields, "lag"@) {
                    Err(error) => Err(error),
                    Ok(lag) => match text_field(fields, "node_id"@) {
                        Err(error) => Err(error),
                        Ok(node_id) => match value_field(fields, "role"@) {
                            Err(error) => Err(error),
                            Ok(role) => match decoded_role(role) {
                                Err(error) => Err(error),
                                Ok(role) => match text_field(fields, "shard_id"@) {
                                    Err(error) => Err(error),
                                    Ok(shard_id) => Ok(
                                        ShardView {
                                            cluster_id,
                                            commit_offset,
                                            lag,
                                            node_id,
                                            role,
                                            shard_id,
                                        },
                                    ),
                                },
                            },
                        },
                    },
                },
            },
        },
    }
}

fn encode_unit(unit: &CommitUnit) -> (value: Value)
    ensures
        value@ == encoded_unit(unit@),
{
    match unit {
        CommitUnit::Seconds => Value::Text("seconds".to_owned()),
        CommitUnit::Unit(name) => {
            let mut fields = no_fields();
            put(&mut fields, "unit", Value::Text(name.clone()));
            assert(doc_view(&fields) =~= encoded_unit(unit@)->Doc_0);
            Value::Doc(fields)
        },
    }
}

fn decode_unit(value: &Value) -> (unit: core::result::Result<CommitUnit, DecodeError>)
    ensures
        match unit {
            Ok(unit) => decoded_unit(value@) == Ok::<CommitUnitView, DecodeErrorView>(unit@),
            Err(error) => decoded_unit(value@) == Err::<CommitUnitView, DecodeErrorView>(error@),
        },
{
    match value {
        Value::Text(text) => {
            if crate::text::str_eq(text.as_str(), "seconds") {
                Ok(CommitUnit::Seconds)
            } else {
                Err(DecodeError::InvalidField("unit"))
            }
        },
        Value::Doc(fields) => match get_text(fields, "unit") {
            Ok(name) => Ok(CommitUnit::Unit(name)),
            Err(error) => Err(error),
        },
        _ => Err(DecodeError::InvalidField("unit")),
    }
}

/// Write a commit offset as a value.
pub fn encode_offset(offset: &CommitOffset) -> (value: Value)
    ensures
        value@ == encoded_offset(offset@),
{
    let mut fields = no_fields();
    put(&mut fields, "unit", encode_unit(&offset.unit));
    put(&mut fields, "value", Value::Int(offset.value));
    assert(doc_view(&fields) =~= encoded_offset(offset@)->Doc_0);
    Value::Doc(fields)
}

/// Read a commit offset from a value.
pub fn decode_offset(value: &Value) -> (offset: core::result::Result<CommitOffset, DecodeError>)
    ensures
        result_view(offset) == decoded_offset(value@),
{
    let fields = match get_fields(value) {
        Ok(fields) => fields,
        Err(error) => {
            return Err(error);
        },
    };
    let unit = match get_value(fields, "unit") {
        Ok(unit) => unit,
        Err(error) => {
            return Err(error);
        },
    };
    let unit = match decode_unit(unit) {
        Ok(unit) => unit,
        Err(error) => {
            return Err(error);
        },
    };
    let value = match get_int(fields, "value") {
        Ok(value) => value,
        Err(error) => {
            return Err(error);
        },
    };
    Ok(CommitOffset { unit, value })
}

fn encode_optional_offset(offset: &Option<CommitOffset>) -> (value: Value)
    ensures
        value@ == encoded_optional_offset(offset.deep_view()),
{
    match offset {
        Some(offset) => encode_offset(offset),
        None => Value::Null,
    }
}

fn get_optional_offset(fields: &Vec<(String, Value)>, name: &'static str) -> (offset:
    core::result::Result<Option<CommitOffset>, DecodeError>)
    ensures
        result_view(offset) == optional_offset_field(doc_view(fields), name@),
{
    match get(fields, name) {
        None => Ok(None),
        Some(Value::Null) => Ok(None),
        Some(value) => match decode_offset(value) {
            Ok(offset) => Ok(Some(offset)),
            Err(error) => Err(error),
        },
    }
}

fn encode_role(role: &ShardRole) -> (value: Value)
    ensures
        value@ == encoded_role(role@),
{
    match role {
        ShardRole::Primary => Value::Text("primary".to_owned()),
        ShardRole::Secondary => Value::Text("secondary".to_owned()),
        ShardRole::Unknown(name) => {
            let mut fields = no_fields();
            put(&mut fields, "unknown", Value::Text(name.clone()));
            assert(doc_view(&fields) =~= encoded_role(role@)->Doc_0);
            Value::Doc(fields)
        },
    }
}

fn decode_role(value: &Value) -> (role: core::result::Result<ShardRole, DecodeError>)
    ensures
        match role {
            Ok(role) => decoded_role(value@) == Ok::<ShardRoleView, DecodeErrorView>(role@),
            Err(error) => decoded_role(value@) == Err::<ShardRoleView, DecodeErrorView>(error@),
        },
{
    match value {
        Value::Text(text) => {
            if crate::text::str_eq(text.as_str(), "primary") {
                Ok(ShardRole::Primary)
            } else if crate::text::str_eq(text.as_str(), "secondary") {
                Ok(ShardRole::Secondary)
            } else {
                Err(DecodeError::InvalidField("role"))
            }
        },
        Value::Doc(fields) => match get_text(fields, "unknown") {
            Ok(name) => Ok(ShardRole::Unknown(name)),
            Err(error) => Err(error),
        },
        _ => Err(DecodeError::InvalidField("role")),
    }
}

/// Write the record of a shard as a document.
pub fn encode_shard(shard: &Shard) -> (value: Value)
    ensures
        value@ == encoded_shard(shard@),
{
    let mut fields = no_fields();
    put(&mut fields, "cluster_id", Value::Text(shard.cluster_id.clone()));
    put(&mut fields, "commit_offset", encode_optional_offset(&shard.commit_offset));
    put(&mut fields, "lag", encode_optional_offset(&shard.lag));
    put(&mut fields, "node_id", Value::Text(shard.node_id.clone()));
    put(&mut fields, "role", encode_role(&shard.role));
    put(&mut fields, "shard_id", Value::Text(shard.shard_id.clone()));
    assert(doc_view(&fields) =~= encoded_shard(shard@)->Doc_0);
    Value::Doc(fields)
}

/// Read the record of a shard from a document.
pub fn decode_shard(value: &Value) -> (shard: core::result::Result<Shard, DecodeError>)
    ensures
        result_view(shard) == decoded_shard(value@),
{
    let fields = match get_fields(value) {
        Ok(fields) => fields,
        Err(error) => {
            return Err(error);
        },
    };
    let cluster_id = match get_text(fields, "cluster_id") {
        Ok(text) => text,
        Err(error) => {
            return Err(error);
        },
    };
    let commit_offset = match get_optional_offset(fields, "commit_offset") {
        Ok(offset) => offset,
        Err(error) => {
            return Err(error);
        },
    };
    let lag = match get_optional_offset(fields, "lag") {
        Ok(offset) => offset,
        Err(error) => {
            return Err(error);
        },
    };
    let node_id = match get_text(fields, "node_id") {
        Ok(text) => text,
        Err(error) => {
            return Err(error);
        },
    };
    let role = match get_value(fields, "role") {
        Ok(role) => role,
        Err(error) => {
            return Err(error);
        },
    };
    let role = match decode_role(role) {
        Ok(role) => role,
        Err(error) => {
            return Err(error);
        },
    };
    let shard_id = match get_text(fields, "shard_id") {
        Ok(text) => text,
        Err(error) => {
            return Err(error);
        },
    };
    Ok(Shard { cluster_id, commit_offset, lag, node_id, role, shard_id })
}

/// Reading the value that was written from a commit offset gives the offset back.
pub proof fn lemma_offset_round_trip(offset: CommitOffset)
    ensures
        decoded_offset(encoded_offset(offset@)) == Ok::<CommitOffsetView, DecodeErrorView>(
            offset@,
        ),
        !(encoded_offset(offset@) is Null),
{
    reveal_strlit("unit");
    reveal_strlit("value");
    assert("unit"@.len() == 4 && "value"@.len() == 5);
    reveal_with_fuel(field_from, 3);
}

/// Reading the value that was written from a role gives the role back.
pub proof fn lemma_role_round_trip(role: ShardRoleView)
    ensures
        decoded_role(encoded_role(role)) == Ok::<ShardRoleView, DecodeErrorView>(role),
{
    reveal_strlit("primary");
    reveal_strlit("secondary");
    reveal_strlit("unknown");
    assert("primary"@.len() == 7 && "secondary"@.len() == 9);
    reveal_with_fuel(field_from, 2);
}

/// Reading the document that was written from the record of a shard gives
/// the record back.
pub proof fn lemma_shard_round_trip(shard: Shard)
    ensures
        decoded_shard(encoded_shard(shard@)) == Ok::<ShardView, DecodeErrorView>(shard@),
{
    match shard.commit_offset {
        Some(offset) => lemma_offset_round_trip(offset),
        None => {},
    }
    match shard.lag {
        Some(offset) => lemma_offset_round_trip(offset),
        None => {},
    }
    lemma_role_round_trip(shard@.role);
    reveal_strlit("cluster_id");
    reveal_strlit("commit_offset");
    reveal_strlit("lag");
    reveal_strlit("node_id");
    reveal_strlit("role");
    reveal_strlit("shard_id");
    assert("cluster_id"@.len() == 10 && "commit_offset"@.len() == 13 && "lag"@.len() == 3);
    assert("node_id"@.len() == 7 && "role"@.len() == 4 && "shard_id"@.len() == 8);
    reveal_with_fuel(field_from, 7);
}

} // verus!
