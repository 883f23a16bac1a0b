//! How events are written as documents, and read back.
//!
//! An event is written with the name of its kind, the instant at which it
//! happened, and a payload: the document of the model that the event is
//! about, or, for a change, the documents of the model before and after.
use crate::clock::Timestamp;
use crate::models::agent::Agent;
use crate::models::agent::AgentInfo;
use crate::models::agent::AgentInfoView;
use crate::models::agent::AgentStatus;
use crate::models::agent::AgentStatusView;
use crate::models::agent::AgentView;
use crate::models::events::Event;
use crate::models::events::EventPayload;
use crate::models::events::EventPayloadView;
use crate::models::events::EventView;
use crate::store::codec::decode_discovery;
use crate::store::codec::decode_node;
use crate::store::codec::decode_shard;
use crate::store::codec::decoded_discovery;
use crate::store::codec::decoded_node;
use crate::store::codec::decoded_shard;
use crate::store::codec::encode_discovery;
use crate::store::codec::encode_node;
use crate::store::codec::encode_shard;
use crate::store::codec::encoded_discovery;
use crate::store::codec::encoded_node;
use crate::store::codec::encoded_shard;
use crate::store::codec::lemma_discovery_round_trip;
use crate::store::codec::lemma_node_round_trip;
use crate::store::codec::lemma_shard_round_trip;
use crate::store::codec::no_fields;
use crate::store::codec::put;
use crate::store::document::doc_view;
use crate::store::document::field_from;
use crate::store::document::fields_of;
use crate::store::document::get_fields;
use crate::store::document::get_int;
use crate::store::document::get_optional_text;
use crate::store::document::get_text;
use crate::store::document::get_value;
use crate::store::document::int_field;
use crate::store::document::optional_text_field;
use crate::store::document::text_field;
use crate::store::document::value_field;
use crate::store::document::DecodeError;
use crate::store::document::DecodeErrorView;
use crate::store::document::Value;
use crate::store::document::ValueView;
use crate::text::result_view;
use crate::text::str_eq;
use vstd::prelude::*;
use vstd::string::*;

verus! {

/// The document for the status of an agent.
pub open spec fn encoded_status(status: AgentStatusView) -> ValueView {
    match status {
        AgentStatusView::Up => ValueView::Doc(
            seq![("code"@, ValueView::Text("UP"@)), ("message"@, ValueView::Null)],
        ),
        AgentStatusView::AgentDown(message) => ValueView::Doc(
            seq![("code"@, ValueView::Text("AGENT_DOWN"@)), ("message"@, ValueView::Text(message))],
        ),
        AgentStatusView::NodeDown(message) => ValueView::Doc(
            seq![("code"@, ValueView::Text("NODE_DOWN"@)), ("message"@, ValueView::Text(message))],
        ),
    }
}

/// The status of an agent that a document holds, or why it holds none.
pub open spec fn decoded_status(value: ValueView) -> core::result::Result<
    AgentStatusView,
    DecodeErrorView,
> {
    match fields_of(value) {
        Err(error) => Err(error),
        Ok(fields) => match text_field(fields, "code"@) {
            Err(error) => Err(error),
            Ok(code) => match optional_text_field(fields, "message"@) {
                Err(error) => Err(error),
                Ok(message) => if code == "UP"@ {
                    Ok(AgentStatusView::Up)
                } else if code == "AGENT_DOWN"@ {
                    match message {
                        Some(message) => Ok(AgentStatusView::AgentDown(message)),
                        None => Err(DecodeErrorView::MissingField("message"@)),
                    }
                } else if code == "NODE_DOWN"@ {
                    match message {
                        Some(message) => Ok(AgentStatusView::NodeDown(message)),
                        None => Err(DecodeErrorView::MissingField("message"@)),
                    }
                } else {
                    Err(DecodeErrorView::InvalidField("code"@))
                },
            },
        },
    }
}

/// Write the status of an agent as a document.
pub fn encode_status(status: &AgentStatus) -> (value: Value)
    ensures
        value@ == encoded_status(status@),
{
    let mut fields = no_fields();
    match status {
        AgentStatus::Up => {
            put(&mut fields, "code", Value::Text("UP".to_owned()));
            put(&mut fields, "message", Value::Null);
        },
        AgentStatus::AgentDown(message) => {
            put(&mut fields, "code", Value::Text("AGENT_DOWN".to_owned()));
            put(&mut fields, "message", Value::Text(message.clone()));
        },
        AgentStatus::NodeDown(message) => {
            put(&mut fields, "code", Value::Text("NODE_DOWN".to_owned()));
            put(&mut fields, "message", Value::Text(message.clone()));
        },
    }
    assert(doc_view(&fields) =~= encoded_status(status@)->Doc_0);
    Value::Doc(fields)
}

/// Read the status of an agent from a document.
pub fn decode_status(value: &Value) -> (status: core::result::Result<AgentStatus, DecodeError>)
    ensures
        result_view(status) == decoded_status(value@),
{
    let fields = match get_fields(value) {
        Ok(fields) => fields,
        Err(error) => {
            return Err(error);
        },
    };
    let code = match get_text(fields, "code") {
        Ok(code) => code,
        Err(error) => {
            return Err(error);
        },
    };
    let message = match get_optional_text(fields, "message") {
        Ok(message) => message,
        Err(error) => {
            return Err(error);
        },
    };
    if str_eq(code.as_str(), "UP") {
        Ok(AgentStatus::Up)
    } else if str_eq(code.as_str(), "AGENT_DOWN") {
        match message {
            Some(message) => Ok(AgentStatus::AgentDown(message)),
            None => Err(DecodeError::MissingField("message")),
        }
    } else if str_eq(code.as_str(), "NODE_DOWN") {
        match message {
            Some(message) => Ok(AgentStatus::NodeDown(message)),
            None => Err(DecodeError::MissingField("message")),
        }
    } else {
        Err(DecodeError::InvalidField("code"))
    }
}

/// Reading the document that was written from the status of an agent gives
/// the status back.
pub proof fn lemma_status_round_trip(status: AgentStatusView)
    ensures
        decoded_status(encoded_status(status)) == Ok::<AgentStatusView, DecodeErrorView>(status),
{
    reveal_strlit("code");
    reveal_strlit("message");
    reveal_strlit("UP");
    reveal_strlit("AGENT_DOWN");
    reveal_strlit("NODE_DOWN");
    assert("code"@.len() == 4 && "message"@.len() == 7);
    assert("UP"@.len() == 2 && "AGENT_DOWN"@.len() == 10 && "NODE_DOWN"@.len() == 9);
    reveal_with_fuel(field_from, 3);
}

/// The document for the record of an agent.
pub open spec fn encoded_agent(agent: AgentView) -> ValueView {
    ValueView::Doc(
        seq![
            ("cluster_id"@, ValueView::Text(agent.cluster_id)),
            ("host"@, ValueView::Text(agent.host)),
            ("status"@, encoded_status(agent.status)),
        ],
    )
}

/// The record of an agent that a document holds, or why it holds none.
pub open spec fn decoded_agent(value: ValueView) -> core::result::Result<
    AgentView,
    DecodeErrorView,
> {
    match fields_of(value) {
        Err(error) => Err(error),
        Ok(fields) => match text_field(fields, "cluster_id"@) {
            Err(error) => Err(error),
            Ok(cluster_id) => match text_field(fields, "host"@) {
                Err(error) => Err(error),
                Ok(host) => match value_field(fields, "status"@) {
                    Err(error) => Err(error),
                    Ok(status) => match decoded_status(status) {
                        Err(error) => Err(error),
                        Ok(status) => Ok(AgentView { cluster_id, host, status }),
                    },
                },
            },
        },
    }
}

/// Write the record of an agent as a document.
pub fn encode_agent(agent: &Agent) -> (value: Value)
    ensures
        value@ == encoded_agent(agent@),
{
    let mut fields = no_fields();
    put(&mut fields, "cluster_id", Value::Text(agent.cluster_id.clone()));
    put(&mut fields, "host", Value::Text(agent.host.clone()));
    put(&mut fields, "status", encode_status(&agent.status));
    assert(doc_view(&fields) =~= encoded_agent(agent@)->Doc_0);
    Value::Doc(fields)
}

/// Read the record of an agent from a document.
pub fn decode_agent(value: &Value) -> (agent: core::result::Result<Agent, DecodeError>)
    ensures
        result_view(agent) == decoded_agent(value@),
{
    let fields = match get_fields(value) {
        Ok(fields) => fields,
        Err(error) => {
            return Err(error);
        },
    };
    let cluster_id = match get_text(fields, "cluster_id") {
        Ok(text) => text,
        Err(error) => {
            return Err(error);
        },
    };
    let host = match get_text(fields, "host") {
        Ok(text) => text,
        Err(error) => {
            return Err(error);
        },
    };
    let status = match get_value(fields, "status") {
        Ok(status) => status,
        Err(error) => {
            return Err(error);
        },
    };
    let status = match decode_status(status) {
        Ok(status) => status,
        Err(error) => {
            return Err(error);
        },
    };
    Ok(Agent { cluster_id, host, status })
}

/// Reading the document that was written from the record of an agent gives
/// the record back.
pub proof fn lemma_agent_round_trip(agent: AgentView)
    ensures
        decoded_agent(encoded_agent(agent)) == Ok::<AgentView, DecodeErrorView>(agent),
{
    lemma_status_round_trip(agent.status);
    reveal_strlit("cluster_id");
    reveal_strlit("host");
    reveal_strlit("status");
    assert("cluster_id"@.len() == 10 && "host"@.len() == 4 && "status"@.len() == 6);
    reveal_with_fuel(field_from, 4);
}

/// The document for the record of the build of an agent.
pub open spec fn encoded_agent_info(info: AgentInfoView) -> ValueView {
    ValueView::Doc(
        seq![
            ("cluster_id"@, ValueView::Text(info.cluster_id)),
            ("host"@, ValueView::Text(info.host)),
            ("version_checkout"@, ValueView::Text(info.version_checkout)),
            ("version_number"@, ValueView::Text(info.version_number)),
            ("version_taint"@, ValueView::Text(info.version_taint)),
        ],
    )
}

/// The record of the build of an agent that a document holds, or why it
/// holds none.
pub open spec fn decoded_agent_info(value: ValueView) -> core::result::Result<
    AgentInfoView,
    DecodeErrorView,
> {
    match fields_of(value) {
        Err(error) => Err(error),
        Ok(fields) => match text_field(fields, "cluster_id"@) {
            Err(error) => Err(error),
            Ok(cluster_id) => match text_field(fields, "host"@) {
                Err(error) => Err(error),
                Ok(host) => match text_field(fields, "version_checkout"@) {
                    Err(error) => Err(error),
                    Ok(version_checkout) => match text_field(fields, "version_number"@) {
                        Err(error) => Err(error),
                        Ok(version_number) => match text_field(fields, "version_taint"@) {
                            Err(error) => Err(error),
                            Ok(version_taint) => Ok(
                                AgentInfoView {
                                    cluster_id,
                                    host,
                                    version_checkout,
                                    version_number,
                                    version_taint,
                                },
                            ),
                        },
                    },
                },
            },
        },
    }
}

/// Write the record of the build of an agent as a document.
pub fn encode_agent_info(info: &AgentInfo) -> (value: Value)
    ensures
        value@ == encoded_agent_info(info@),
{
    let mut fields = no_fields();
    put(&mut fields, "cluster_id", Value::Text(info.cluster_id.clone()));
    put(&mut fields, "host", Value::Text(info.host.clone()));
    put(&mut fields, "version_checkout", Value::Text(info.version_checkout.clone()));
    put(&mut fields, "version_number", Value::Text(info.version_number.clone()));
    put(&mut fields, "version_taint", Value::Text(info.version_taint.clone()));
    assert(doc_view(&fields) =~= encoded_agent_info(info@)->Doc_0);
    Value::Doc(fields)
}

/// Read the record of the build of an agent from a document.
pub fn decode_agent_info(value: &Value) -> (info: core::result::Result<AgentInfo, DecodeError>)
    ensures
        result_view(info) == decoded_agent_info(value@),
{
    let fields = match get_fields(value) {
        Ok(fields) => fields,
        Err(error) => {
            return Err(error);
        },
    };
    let cluster_id = match get_text(fields, "cluster_id") {
        Ok(text) => text,
        Err(error) => {
            return Err(error);
        },
    };
    let host = match get_text(fields, "host") {
        Ok(text) => text,
        Err(error) => {
            return Err(error);
        },
    };
    let version_checkout = match get_text(fields, "version_checkout") {
        Ok(text) => text,
        Err(error) => {
            return Err(error);
        },
    };
    let version_number = match get_text(fields, "version_number") {
        Ok(text) => text,
        Err(error) => {
            return Err(error);
        },
    };
    let version_taint = match get_text(fields, "version_taint") {
        Ok(text) => text,
        Err(error) => {
            return Err(error);
        },
    };
    Ok(AgentInfo { cluster_id, host, version_checkout, version_number, version_taint })
}

/// Reading the document that was written from the record of the build of an
/// agent gives the record back.
pub proof fn lemma_agent_info_round_trip(info: AgentInfoView)
    ensures
        decoded_agent_info(encoded_agent_info(info)) == Ok::<AgentInfoView, DecodeErrorView>(
            info,
        ),
{
    reveal_strlit("cluster_id");
    reveal_strlit("host");
    reveal_strlit("version_checkout");
    reveal_strlit("version_number");
    reveal_strlit("version_taint");
    assert("cluster_id"@.len() == 10 && "host"@.len() == 4);
    assert("version_checkout"@.len() == 16 && "version_number"@.len() == 14);
    assert("version_taint"@.len() == 13);
    reveal_with_fuel(field_from, 6);
}

/// The document for an instant.
pub open spec fn encoded_timestamp(timestamp: Timestamp) -> ValueView {
    ValueView::Doc(
        seq![
            ("secs"@, ValueView::Int(timestamp.secs)),
            ("nanos"@, ValueView::Int(timestamp.nanos as i64)),
        ],
    )
}

/// The instant that a document holds, or why it holds none. The nanoseconds
/// must fit in 32 bits without a sign.
pub open spec fn decoded_timestamp(value: ValueView) -> core::result::Result<
    Timestamp,
    DecodeErrorView,
> {
    match fields_of(value) {
        Err(error) => Err(error),
        Ok(fields) => match int_field(fields, "secs"@) {
            Err(error) => Err(error),
            Ok(secs) => match int_field(fields, "nanos"@) {
                Err(error) => Err(error),
                Ok(nanos) => if 0 <= nanos <= u32::MAX {
                    Ok(Timestamp { secs, nanos: nanos as u32 })
                } else {
                    Err(DecodeErrorView::InvalidField("nanos"@))
                },
            },
        },
    }
}

/// Write an instant as a document.
pub fn encode_timestamp(timestamp: &Timestamp) -> (value: Value)
    ensures
        value@ == encoded_timestamp(*timestamp),
{
    let mut fields = no_fields();
    put(&mut fields, "secs", Value::Int(timestamp.secs));
    put(&mut fields, "nanos", Value::Int(timestamp.nanos as i64));
    assert(doc_view(&fields) =~= encoded_timestamp(*timestamp)->Doc_0);
    Value::Doc(fields)
}

/// Read an instant from a document.
pub fn decode_timestamp(value: &Value) -> (timestamp: core::result::Result<Timestamp, DecodeError>)
    ensures
        match timestamp {
            Ok(timestamp) => decoded_timestamp(value@) == Ok::<Timestamp, DecodeErrorView>(
                timestamp,
            ),
            Err(error) => decoded_timestamp(value@) == Err::<Timestamp, DecodeErrorView>(error@),
        },
{
    let fields = match get_fields(value) {
        Ok(fields) => fields,
        Err(error) => {
            return Err(error);
        },
    };
    let secs = match get_int(fields, "secs") {
        Ok(secs) => secs,
        Err(error) => {
            return Err(error);
        },
    };
    let nanos = match get_int(fields, "nanos") {
        Ok(nanos) => nanos,
        Err(error) => {
            return Err(error);
        },
    };
    if nanos < 0 || nanos > u32::MAX as i64 {
        return Err(DecodeError::InvalidField("nanos"));
    }
    Ok(Timestamp { secs, nanos: nanos as u32 })
}

/// Reading the document that was written from an instant gives the instant back.
pub proof fn lemma_timestamp_round_trip(timestamp: Timestamp)
    ensures
        decoded_timestamp(encoded_timestamp(timestamp)) == Ok::<Timestamp, DecodeErrorView>(
            timestamp,
        ),
{
    reveal_strlit("secs");
    reveal_strlit("nanos");
    assert("secs"@.len() == 4 && "nanos"@.len() == 5);
    reveal_with_fuel(field_from, 3);
}

/// The document for a change: what was before, and what is after.
pub open spec fn encoded_change(before: ValueView, after: ValueView) -> ValueView {
    ValueView::Doc(seq![("before"@, before), ("after"@, after)])
}

/// The payload of an event, as a value.
pub open spec fn encoded_payload(payload: EventPayloadView) -> ValueView {
    match payload {
        EventPayloadView::ClusterNew(discovery) => encoded_discovery(discovery),
        EventPayloadView::ClusterChanged { before, after } => encoded_change(
            encoded_discovery(before),
            encoded_discovery(after),
        ),
        EventPayloadView::AgentNew(agent) => encoded_agent(agent),
        EventPayloadView::NodeNew(node) => encoded_node(node),
        EventPayloadView::NodeChanged { before, after } => encoded_change(
            encoded_node(before),
            encoded_node(after),
        ),
        EventPayloadView::ShardAllocationNew(shard) => encoded_shard(shard),
        EventPayloadView::ShardAllocationChanged { before, after } => encoded_change(
            encoded_shard(before),
            encoded_shard(after),
        ),
        EventPayloadView::SnapshotAgent(agent) => encoded_agent(agent),
        EventPayloadView::SnapshotAgentInfo(info) => encoded_agent_info(info),
        EventPayloadView::SnapshotDiscovery(discovery) => encoded_discovery(discovery),
        EventPayloadView::SnapshotNode(node) => encoded_node(node),
        EventPayloadView::SnapshotShard(shard) => encoded_shard(shard),
    }
}

/// The two sides of a change that a document holds.
pub open spec fn decoded_change(value: ValueView) -> core::result::Result<
    (ValueView, ValueView),
    DecodeErrorView,
> {
    match fields_of(value) {
        Err(error) => Err(error),
        Ok(fields) => match value_field(fields, "before"@) {
            Err(error) => Err(error),
            Ok(before) => match value_field(fields, "after"@) {
                Err(error) => Err(error),
                Ok(after) => Ok((before, after)),
            },
        },
    }
}

/// The payload of an event of the kind called `code` that a value holds, or
/// why it holds none.
pub open spec fn decoded_payload(code: Seq<char>, value: ValueView) -> core::result::Result<
    EventPayloadView,
    DecodeErrorView,
> {
    if code == "CLUSTER_NEW"@ {
        match decoded_discovery(value) {
            Err(error) => Err(error),
            Ok(discovery) => Ok(EventPayloadView::ClusterNew(discovery)),
        }
    } else if code == "CLUSTER_CHANGED"@ {
        match decoded_change(value) {
            Err(error) => Err(error),
            Ok(sides) => match decoded_discovery(sides.0) {
                Err(error) => Err(error),
                Ok(before) => match decoded_discovery(sides.1) {
                    Err(error) => Err(error),
                    Ok(after) => Ok(EventPayloadView::ClusterChanged { before, after }),
                },
            },
        }
    } else if code == "AGENT_NEW"@ {
        match decoded_agent(value) {
            Err(error) => Err(error),
            Ok(agent) => Ok(EventPayloadView::AgentNew(agent)),
        }
    } else if code == "NODE_NEW"@ {
        match decoded_node(value) {
            Err(error) => Err(error),
            Ok(node) => Ok(EventPayloadView::NodeNew(node)),
        }
    } else if code == "NODE_CHANGED"@ {
        match decoded_change(value) {
            Err(error) => Err(error),
            Ok(sides) => match decoded_node(sides.0) {
                Err(error) => Err(error),
                Ok(before) => match decoded_node(sides.1) {
                    Err(error) => Err(error),
                    Ok(after) => Ok(EventPayloadView::NodeChanged { before, after }),
                },
            },
        }
    } else if code == "SHARD_ALLOCATION_NEW"@ {
        match decoded_shard(value) {
            Err(error) => Err(error),
            Ok(shard) => Ok(EventPayloadView::ShardAllocationNew(shard)),
        }
    } else if code == "SHARD_ALLOCATION_CHANGED"@ {
        match decoded_change(value) {
            Err(error) => Err(error),
            Ok(sides) => match decoded_shard(sides.0) {
                Err(error) => Err(error),
                Ok(before) => match decoded_shard(sides.1) {
                    Err(error) => Err(error),
                    Ok(after) => Ok(EventPayloadView::ShardAllocationChanged { before, after }),
                },
            },
        }
    } else if code == "SNAPSHOT_AGENT"@ {
        match decoded_agent(value) {
            Err(error) => Err(error),
            Ok(agent) => Ok(EventPayloadView::SnapshotAgent(agent)),
        }
    } else if code == "SNAPSHOT_AGENT_INFO"@ {
        match decoded_agent_info(value) {
            Err(error) => Err(error),
            Ok(info) => Ok(EventPayloadView::SnapshotAgentInfo(info)),
        }
    } else if code == "SNAPSHOT_DISCOVERY"@ {
        match decoded_discovery(value) {
            Err(error) => Err(error),
            Ok(discovery) => Ok(EventPayloadView::SnapshotDiscovery(discovery)),
        }
    } else if code == "SNAPSHOT_NODE"@ {
        match decoded_node(value) {
            Err(error) => Err(error),
            Ok(node) => Ok(EventPayloadView::SnapshotNode(node)),
        }
    } else if code == "SNAPSHOT_SHARD"@ {
        match decoded_shard(value) {
            Err(error) => Err(error),
            Ok(shard) => Ok(EventPayloadView::SnapshotShard(shard)),
        }
    } else {
        Err(DecodeErrorView::InvalidField("event"@))
    }
}

/// The document for an event.
pub open spec fn encoded_event(event: EventView) -> ValueView {
    ValueView::Doc(
        seq![
            ("event"@, ValueView::Text(event.payload.code())),
            ("payload"@, encoded_payload(event.payload)),
            ("timestamp"@, encoded_timestamp(event.timestamp)),
        ],
    )
}

/// The event that a document holds, or why it holds none.
pub open spec fn decoded_event(value: ValueView) -> core::result::Result<
    EventView,
    DecodeErrorView,
> {
    match fields_of(value) {
        Err(error) => Err(error),
        Ok(fields) => match text_field(fields, "event"@) {
            Err(error) => Err(error),
            Ok(code) => match value_field(fields, "payload"@) {
                Err(error) => Err(error),
                Ok(payload) => match decoded_payload(code, payload) {
                    Err(error) => Err(error),
                    Ok(payload) => match value_field(fields, "timestamp"@) {
                        Err(error) => Err(error),
                        Ok(timestamp) => match decoded_timestamp(timestamp) {
                            Err(error) => Err(error),
                            Ok(timestamp) => Ok(EventView { payload, timestamp }),
                        },
                    },
                },
            },
        },
    }
}

fn encode_change(before: Value, after: Value) -> (value: Value)
    ensures
        value@ == encoded_change(before@, after@),
{
    let mut fields = no_fields();
    put(&mut fields, "before", before);
    put(&mut fields, "after", after);
    assert(doc_view(&fields) =~= encoded_change(before@, after@)->Doc_0);
    Value::Doc(fields)
}

fn decode_change(value: &Value) -> (sides: core::result::Result<(&Value, &Value), DecodeError>)
    ensures
        match sides {
            Ok(sides) => decoded_change(value@) == Ok::<(ValueView, ValueView), DecodeErrorView>(
                (sides.0@, sides.1@),
            ),
            Err(error) => decoded_change(value@) == Err::<
                (ValueView, ValueView),
                DecodeErrorView,
            >(error@),
        },
{
    let fields = match get_fields(value) {
        Ok(fields) => fields,
        Err(error) => {
            return Err(error);
        },
    };
    let before = match get_value(fields, "before") {
        Ok(before) => before,
        Err(error) => {
            return Err(error);
        },
    };
    let after = match get_value(fields, "after") {
        Ok(after) => after,
        Err(error) => {
            return Err(error);
        },
    };
    Ok((before, after))
}

/// Write the payload of an event as a value.
pub fn encode_payload(payload: &EventPayload) -> (value: Value)
    ensures
        value@ == encoded_payload(payload@),
{
    match payload {
        EventPayload::ClusterNew(discovery) => encode_discovery(discovery),
        EventPayload::ClusterChanged { before, after } => encode_change(
            encode_discovery(before),
            encode_discovery(after),
        ),
        EventPayload::AgentNew(agent) => encode_agent(agent),
        EventPayload::NodeNew(node) => encode_node(node),
        EventPayload::NodeChanged { before, after } => encode_change(
            encode_node(before),
            encode_node(after),
        ),
        EventPayload::ShardAllocationNew(shard) => encode_shard(shard),
        EventPayload::ShardAllocationChanged { before, after } => encode_change(
            encode_shard(before),
            encode_shard(after),
        ),
        EventPayload::SnapshotAgent(agent) => encode_agent(agent),
        EventPayload::SnapshotAgentInfo(info) => encode_agent_info(info),
        EventPayload::SnapshotDiscovery(discovery) => encode_discovery(discovery),
        EventPayload::SnapshotNode(node) => encode_node(node),
        EventPayload::SnapshotShard(shard) => encode_shard(shard),
    }
}

/// Read the payload of an event of the kind called `code` from a value.
pub fn decode_payload(code: &str, value: &Value) -> (payload: core::result::Result<
    EventPayload,
    DecodeError,
>)
    ensures
        result_view(payload) == decoded_payload(code@, value@),
{
    if str_eq(code, "CLUSTER_NEW") {
        match decode_discovery(value) {
            Ok(discovery) => Ok(EventPayload::ClusterNew(discovery)),
            Err(error) => Err(error),
        }
    } else if str_eq(code, "CLUSTER_CHANGED") {
        let sides = match decode_change(value) {
            Ok(sides) => sides,
            Err(error) => {
                return Err(error);
            },
        };
        let before = match decode_discovery(sides.0) {
            Ok(before) => before,
            Err(error) => {
                return Err(error);
            },
        };
        match decode_discovery(sides.1) {
            Ok(after) => Ok(EventPayload::ClusterChanged { before, after }),
            Err(error) => Err(error),
        }
    } else if str_eq(code, "AGENT_NEW") {
        match decode_agent(value) {
            Ok(agent) => Ok(EventPayload::AgentNew(agent)),
            Err(error) => Err(error),
        }
    } else if str_eq(code, "NODE_NEW") {
        match decode_node(value) {
            Ok(node) => Ok(EventPayload::NodeNew(node)),
            Err(error) => Err(error),
        }
    } else if str_eq(code, "NODE_CHANGED") {
        let sides = match decode_change(value) {
            Ok(sides) => sides,
            Err(error) => {
                return Err(error);
            },
        };
        let before = match decode_node(sides.0) {
            Ok(before) => before,
            Err(error) => {
                return Err(error);
            },
        };
        match decode_node(sides.1) {
            Ok(after) => Ok(EventPayload::NodeChanged { before, after }),
            Err(error) => Err(error),
        }
    } else if str_eq(code, "SHARD_ALLOCATION_NEW") {
        match decode_shard(value) {
            Ok(shard) => Ok(EventPayload::ShardAllocationNew(shard)),
            Err(error) => Err(error),
        }
    } else if str_eq(code, "SHARD_ALLOCATION_CHANGED") {
        let sides = match decode_change(value) {
            Ok(sides) => sides,
            Err(error) => {
                return Err(error);
            },
        };
        let before = match decode_shard(sides.0) {
            Ok(before) => before,
            Err(error) => {
                return Err(error);
            },
        };
        match decode_shard(sides.1) {
            Ok(after) => Ok(EventPayload::ShardAllocationChanged { before, after }),
            Err(error) => Err(error),
        }
    } else if str_eq(code, "SNAPSHOT_AGENT") {
        match decode_agent(value) {
            Ok(agent) => Ok(EventPayload::SnapshotAgent(agent)),
            Err(error) => Err(error),
        }
    } else if str_eq(code, "SNAPSHOT_AGENT_INFO") {
        match decode_agent_info(value) {
            Ok(info) => Ok(EventPayload::SnapshotAgentInfo(info)),
            Err(error) => Err(error),
        }
    } else if str_eq(code, "SNAPSHOT_DISCOVERY") {
        match decode_discovery(value) {
            Ok(discovery) => Ok(EventPayload::SnapshotDiscovery(discovery)),
            Err(error) => Err(error),
        }
    } else if str_eq(code, "SNAPSHOT_NODE") {
        match decode_node(value) {
            Ok(node) => Ok(EventPayload::SnapshotNode(node)),
            Err(error) => Err(error),
        }
    } else if str_eq(code, "SNAPSHOT_SHARD") {
        match decode_shard(value) {
            Ok(shard) => Ok(EventPayload::SnapshotShard(shard)),
            Err(error) => Err(error),
        }
    } else {
        Err(DecodeError::InvalidField("event"))
    }
}

/// Write an event as a document.
pub fn encode_event(event: &Event) -> (value: Value)
    ensures
        value@ == encoded_event(event@),
{
    let mut fields = no_fields();
    put(&mut fields, "event", Value::Text(event.payload.code().to_owned()));
    put(&mut fields, "payload", encode_payload(&event.payload));
    put(&mut fields, "timestamp", encode_timestamp(&event.timestamp));
    assert(doc_view(&fields) =~= encoded_event(event@)->Doc_0);
    Value::Doc(fields)
}

/// Read an event from a document.
pub fn decode_event(value: &Value) -> (event: core::result::Result<Event, DecodeError>)
    ensures
        result_view(event) == decoded_event(value@),
{
    let fields = match get_fields(value) {
        Ok(fields) => fields,
        Err(error) => {
            return Err(error);
        },
    };
    let code = match get_text(fields, "event") {
        Ok(code) => code,
        Err(error) => {
            return Err(error);
        },
    };
    let payload = match get_value(fields, "payload") {
        Ok(payload) => payload,
        Err(error) => {
            return Err(error);
        },
    };
    let payload = match decode_payload(code.as_str(), payload) {
        Ok(payload) => payload,
        Err(error) => {
            return Err(error);
        },
    };
    let timestamp = match get_value(fields, "timestamp") {
        Ok(timestamp) => timestamp,
        Err(error) => {
            return Err(error);
        },
    };
    let timestamp = match decode_timestamp(timestamp) {
        Ok(timestamp) => timestamp,
        Err(error) => {
            return Err(error);
        },
    };
    Ok(Event { payload, timestamp })
}

/// Reading the two sides of a change that was written gives them back.
pub proof fn lemma_change_round_trip(before: ValueView, after: ValueView)
    ensures
        decoded_change(encoded_change(before, after)) == Ok::<
            (ValueView, ValueView),
            DecodeErrorView,
        >((before, after)),
{
    reveal_strlit("before");
    reveal_strlit("after");
    assert("before"@.len() == 6 && "after"@.len() == 5);
    reveal_with_fuel(field_from, 3);
}

/// The names of the kinds of events differ from one another.
pub proof fn lemma_codes_differ()
    ensures
        "CLUSTER_NEW"@.len() == 11,
        "CLUSTER_CHANGED"@.len() == 15,
        "AGENT_NEW"@.len() == 9,
        "NODE_NEW"@.len() == 8,
        "NODE_CHANGED"@.len() == 12,
        "SHARD_ALLOCATION_NEW"@.len() == 20,
        "SHARD_ALLOCATION_CHANGED"@.len() == 24,
        "SNAPSHOT_AGENT"@.len() == 14,
        "SNAPSHOT_AGENT_INFO"@.len() == 19,
        "SNAPSHOT_DISCOVERY"@.len() == 18,
        "SNAPSHOT_NODE"@.len() == 13,
        "SNAPSHOT_SHARD"@.len() == 14,
        "SNAPSHOT_AGENT"@[9] == 'A',
        "SNAPSHOT_SHARD"@[9] == 'S',
{
    reveal_strlit("CLUSTER_NEW");
    reveal_strlit("CLUSTER_CHANGED");
    reveal_strlit("AGENT_NEW");
    reveal_strlit("NODE_NEW");
    reveal_strlit("NODE_CHANGED");
    reveal_strlit("SHARD_ALLOCATION_NEW");
    reveal_strlit("SHARD_ALLOCATION_CHANGED");
    reveal_strlit("SNAPSHOT_AGENT");
    reveal_strlit("SNAPSHOT_AGENT_INFO");
    reveal_strlit("SNAPSHOT_DISCOVERY");
    reveal_strlit("SNAPSHOT_NODE");
    reveal_strlit("SNAPSHOT_SHARD");
}

/// Reading the value that was written from the payload of an event, under
/// the name of the kind of the event, gives the payload back.
pub proof fn lemma_payload_round_trip(payload: EventPayload)
    ensures
        decoded_payload(payload@.code(), encoded_payload(payload@)) == Ok::<
            EventPayloadView,
            DecodeErrorView,
        >(payload@),
{
    lemma_codes_differ();
    match payload {
        EventPayload::ClusterNew(discovery) => {
            lemma_discovery_round_trip(discovery@);
        },
        EventPayload::ClusterChanged { before, after } => {
            lemma_discovery_round_trip(before@);
            lemma_discovery_round_trip(after@);
            lemma_change_round_trip(encoded_discovery(before@), encoded_discovery(after@));
        },
        EventPayload::AgentNew(agent) => {
            lemma_agent_round_trip(agent@);
        },
        EventPayload::NodeNew(node) => {
            lemma_node_round_trip(node@);
        },
        EventPayload::NodeChanged { before, after } => {
            lemma_node_round_trip(before@);
            lemma_node_round_trip(after@);
            lemma_change_round_trip(encoded_node(before@), encoded_node(after@));
        },
        EventPayload::ShardAllocationNew(shard) => {
            lemma_shard_round_trip(shard);
        },
        EventPayload::ShardAllocationChanged { before, after } => {
            lemma_shard_round_trip(before);
            lemma_shard_round_trip(after);
            lemma_change_round_trip(encoded_shard(before@), encoded_shard(after@));
        },
        EventPayload::SnapshotAgent(agent) => {
            lemma_agent_round_trip(agent@);
        },
        EventPayload::SnapshotAgentInfo(info) => {
            lemma_agent_info_round_trip(info@);
        },
        EventPayload::SnapshotDiscovery(discovery) => {
            lemma_discovery_round_trip(discovery@);
        },
        EventPayload::SnapshotNode(node) => {
            lemma_node_round_trip(node@);
        },
        EventPayload::SnapshotShard(shard) => {
            lemma_shard_round_trip(shard);
        },
    }
}

/// Reading the document that was written from an event gives the event back.
pub proof fn lemma_event_round_trip(event: Event)
    ensures
        decoded_event(encoded_event(event@)) == Ok::<EventView, DecodeErrorView>(event@),
{
    lemma_payload_round_trip(event.payload);
    lemma_timestamp_round_trip(event.timestamp);
    reveal_strlit("event");
    reveal_strlit("payload");
    reveal_strlit("timestamp");
    assert("event"@.len() == 5 && "payload"@.len() == 7 && "timestamp"@.len() == 9);
    reveal_with_fuel(field_from, 4);
}

} // verus!
