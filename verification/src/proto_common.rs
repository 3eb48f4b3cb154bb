//! Common Dapr protocol messages (package `dapr.proto.common.v1`).

use std::collections::HashMap;

use vstd::prelude::*;

use crate::text::str_eq;

verus! {

/// A ProtoBuf `Any`: a serialized message with the URL of its type.
#[derive(Clone, Debug, PartialEq, Eq, Default)]
pub struct Any {
    /// URL identifying the type of the serialized message.
    pub type_url: String,
    /// The serialized message.
    pub value: Vec<u8>,
}

/// HTTP verb and query string, when the Dapr runtime delivers HTTP content.
#[derive(Clone, Debug, PartialEq, Eq, Default)]
pub struct HttpExtension {
    /// Required. HTTP verb (a [`Verb`] value).
    pub verb: i32,
    /// Optional. Encoded query string, `name=value&name2=value2`.
    pub querystring: String,
}

/// Type of HTTP 1.1 methods (RFC 7231, RFC 5789).
#[derive(Clone, Copy, Debug, PartialEq, Eq, Hash, PartialOrd, Ord, Structural)]
pub enum Verb {
    Unset,
    Get,
    Head,
    Post,
    Put,
    Delete,
    Connect,
    Options,
    Trace,
    Patch,
}

/// The ProtoBuf name of each `Verb` value.
pub open spec fn verb_name(v: Verb) -> Seq<char> {
    match v {
        Verb::Unset => "NONE"@,
        Verb::Get => "GET"@,
        Verb::Head => "HEAD"@,
        Verb::Post => "POST"@,
        Verb::Put => "PUT"@,
        Verb::Delete => "DELETE"@,
        Verb::Connect => "CONNECT"@,
        Verb::Options => "OPTIONS"@,
        Verb::Trace => "TRACE"@,
        Verb::Patch => "PATCH"@,
    }
}

/// The `Verb` value whose ProtoBuf name is `s`, if any.
pub open spec fn verb_from_name(s: Seq<char>) -> Option<Verb> {
    if s == "NONE"@ {
        Some(Verb::Unset)
    } else if s == "GET"@ {
        Some(Verb::Get)
    } else if s == "HEAD"@ {
        Some(Verb::Head)
    } else if s == "POST"@ {
        Some(Verb::Post)
    } else if s == "PUT"@ {
        Some(Verb::Put)
    } else if s == "DELETE"@ {
        Some(Verb::Delete)
    } else if s == "CONNECT"@ {
        Some(Verb::Connect)
    } else if s == "OPTIONS"@ {
        Some(Verb::Options)
    } else if s == "TRACE"@ {
        Some(Verb::Trace)
    } else if s == "PATCH"@ {
        Some(Verb::Patch)
    } else {
        None
    }
}

/// Each verb's name reads back as that verb, and a name reads as a verb only if it is that verb's name.
pub proof fn lemma_verb_name_round_trip(v: Verb, s: Seq<char>)
    ensures
        verb_from_name(verb_name(v)) == Some(v),
        verb_from_name(s) == Some(v) ==> verb_name(v) == s,
{
    reveal_strlit("NONE");
    reveal_strlit("GET");
    reveal_strlit("HEAD");
    reveal_strlit("POST");
    reveal_strlit("PUT");
    reveal_strlit("DELETE");
    reveal_strlit("CONNECT");
    reveal_strlit("OPTIONS");
    reveal_strlit("TRACE");
    reveal_strlit("PATCH");
    assert("NONE"@.len() != "GET"@.len());
    assert("NONE"@[0] != "HEAD"@[0]);
    assert("NONE"@[0] != "POST"@[0]);
    assert("NONE"@.len() != "PUT"@.len());
    assert("NONE"@.len() != "DELETE"@.len());
    assert("NONE"@.len() != "CONNECT"@.len());
    assert("NONE"@.len() != "OPTIONS"@.len());
    assert("NONE"@.len() != "TRACE"@.len());
    assert("NONE"@.len() != "PATCH"@.len());
    assert("GET"@.len() != "HEAD"@.len());
    assert("GET"@.len() != "POST"@.len());
    assert("GET"@[0] != "PUT"@[0]);
    assert("GET"@.len() != "DELETE"@.len());
    assert("GET"@.len() != "CONNECT"@.len());
    assert("GET"@.len() != "OPTIONS"@.len());
    assert("GET"@.len() != "TRACE"@.len());
    assert("GET"@.len() != "PATCH"@.len());
    assert("HEAD"@[0] != "POST"@[0]);
    assert("HEAD"@.len() != "PUT"@.len());
    assert("HEAD"@.len() != "DELETE"@.len());
    assert("HEAD"@.len() != "CONNECT"@.len());
    assert("HEAD"@.len() != "OPTIONS"@.len());
    assert("HEAD"@.len() != "TRACE"@.len());
    assert("HEAD"@.len() != "PATCH"@.len());
    assert("POST"@.len() != "PUT"@.len());
    assert("POST"@.len() != "DELETE"@.len());
    assert("POST"@.len() != "CONNECT"@.len());
    assert("POST"@.len() != "OPTIONS"@.len());
    assert("POST"@.len() != "TRACE"@.len());
    assert("POST"@.len() != "PATCH"@.len());
    assert("PUT"@.len() != "DELETE"@.len());
    assert("PUT"@.len() != "CONNECT"@.len());
    assert("PUT"@.len() != "OPTIONS"@.len());
    assert("PUT"@.len() != "TRACE"@.len());
    assert("PUT"@.len() != "PATCH"@.len());
    assert("DELETE"@.len() != "CONNECT"@.len());
    assert("DELETE"@.len() != "OPTIONS"@.len());
    assert("DELETE"@.len() != "TRACE"@.len());
    assert("DELETE"@.len() != "PATCH"@.len());
    assert("CONNECT"@[0] != "OPTIONS"@[0]);
    assert("CONNECT"@.len() != "TRACE"@.len());
    assert("CONNECT"@.len() != "PATCH"@.len());
    assert("OPTIONS"@.len() != "TRACE"@.len());
    assert("OPTIONS"@.len() != "PATCH"@.len());
    assert("TRACE"@[0] != "PATCH"@[0]);
}

impl Verb {
    /// String value of the enum field name used in the ProtoBuf definition.
    pub fn as_str_name(&self) -> (r: &'static str)
        ensures
            r@ == verb_name(*self),
    {
        match self {
            Verb::Unset => "NONE",
            Verb::Get => "GET",
            Verb::Head => "HEAD",
            Verb::Post => "POST",
            Verb::Put => "PUT",
            Verb::Delete => "DELETE",
            Verb::Connect => "CONNECT",
            Verb::Options => "OPTIONS",
            Verb::Trace => "TRACE",
            Verb::Patch => "PATCH",
        }
    }

    /// The value whose ProtoBuf field name is `value`, if any.
    pub fn from_str_name(value: &str) -> (r: Option<Self>)
        ensures
            r == verb_from_name(value@),
    {
        if str_eq(value, "NONE") {
            Some(Verb::Unset)
        } else if str_eq(value, "GET") {
            Some(Verb::Get)
        } else if str_eq(value, "HEAD") {
            Some(Verb::Head)
        } else if str_eq(value, "POST") {
            Some(Verb::Post)
        } else if str_eq(value, "PUT") {
            Some(Verb::Put)
        } else if str_eq(value, "DELETE") {
            Some(Verb::Delete)
        } else if str_eq(value, "CONNECT") {
            Some(Verb::Connect)
        } else if str_eq(value, "OPTIONS") {
            Some(Verb::Options)
        } else if str_eq(value, "TRACE") {
            Some(Verb::Trace)
        } else if str_eq(value, "PATCH") {
            Some(Verb::Patch)
        } else {
            None
        }
    }
}

/// The message to invoke a method with its data.
#[derive(Clone, Debug, PartialEq, Eq, Default)]
pub struct InvokeRequest {
    /// Required. The method to invoke.
    pub method: String,
    /// Bytes value or ProtoBuf message that the caller sent.
    pub data: Option<Any>,
    /// The type of data content.
    pub content_type: String,
    /// HTTP specific fields, for HTTP-compatible requests.
    pub http_extension: Option<HttpExtension>,
}

/// The response to an invocation: data and its content type.
#[derive(Clone, Debug, PartialEq, Eq, Default)]
pub struct InvokeResponse {
    /// The content body of the response.
    pub data: Option<Any>,
    /// The type of data content.
    pub content_type: String,
}

/// A chunk of data sent in a streaming request or response.
#[derive(Clone, Debug, PartialEq, Eq, Default)]
pub struct StreamPayload {
    /// Data sent in the chunk.
    pub data: Vec<u8>,
    /// Sequence number, counting chunks from 0.
    pub seq: u64,
}

/// A state key, its value, and the options to save it with.
#[derive(Clone, Debug, Default)]
pub struct StateItem {
    /// Required. The state key.
    pub key: String,
    /// Required. The state data for the key.
    pub value: Vec<u8>,
    /// The entity tag of the version of the data.
    pub etag: Option<Etag>,
    /// Metadata passed to the state store component.
    pub metadata: HashMap<String, String>,
    /// Concurrency and consistency options for saving the state.
    pub options: Option<StateOptions>,
}

/// A state item version.
#[derive(Clone, Debug, PartialEq, Eq, Default)]
pub struct Etag {
    /// The etag value.
    pub value: String,
}

/// Concurrency and consistency for state operations.
#[derive(Clone, Copy, Debug, PartialEq, Eq, Default)]
pub struct StateOptions {
    /// A [`StateConcurrency`] value.
    pub concurrency: i32,
    /// A [`StateConsistency`] value.
    pub consistency: i32,
}

/// The supported concurrency for state.
#[derive(Clone, Copy, Debug, PartialEq, Eq, Hash, PartialOrd, Ord, Structural)]
pub enum StateConcurrency {
    ConcurrencyUnspecified,
    ConcurrencyFirstWrite,
    ConcurrencyLastWrite,
}

/// The ProtoBuf name of each `StateConcurrency` value.
pub open spec fn state_concurrency_name(v: StateConcurrency) -> Seq<char> {
    match v {
        StateConcurrency::ConcurrencyUnspecified => "CONCURRENCY_UNSPECIFIED"@,
        StateConcurrency::ConcurrencyFirstWrite => "CONCURRENCY_FIRST_WRITE"@,
        StateConcurrency::ConcurrencyLastWrite => "CONCURRENCY_LAST_WRITE"@,
    }
}

/// The `StateConcurrency` value whose ProtoBuf name is `s`, if any.
pub open spec fn state_concurrency_from_name(s: Seq<char>) -> Option<StateConcurrency> {
    if s == "CONCURRENCY_UNSPECIFIED"@ {
        Some(StateConcurrency::ConcurrencyUnspecified)
    } else if s == "CONCURRENCY_FIRST_WRITE"@ {
        Some(StateConcurrency::ConcurrencyFirstWrite)
    } else if s == "CONCURRENCY_LAST_WRITE"@ {
        Some(StateConcurrency::ConcurrencyLastWrite)
    } else {
        None
    }
}

/// Each concurrency's name reads back as that concurrency, and a name reads as a concurrency only if it is its name.
pub proof fn lemma_state_concurrency_name_round_trip(v: StateConcurrency, s: Seq<char>)
    ensures
        state_concurrency_from_name(state_concurrency_name(v)) == Some(v),
        state_concurrency_from_name(s) == Some(v) ==> state_concurrency_name(v) == s,
{
    reveal_strlit("CONCURRENCY_UNSPECIFIED");
    reveal_strlit("CONCURRENCY_FIRST_WRITE");
    reveal_strlit("CONCURRENCY_LAST_WRITE");
    assert("CONCURRENCY_UNSPECIFIED"@[12] != "CONCURRENCY_FIRST_WRITE"@[12]);
    assert("CONCURRENCY_UNSPECIFIED"@.len() != "CONCURRENCY_LAST_WRITE"@.len());
    assert("CONCURRENCY_FIRST_WRITE"@.len() != "CONCURRENCY_LAST_WRITE"@.len());
}

impl StateConcurrency {
    /// String value of the enum field name used in the ProtoBuf definition.
    pub fn as_str_name(&self) -> (r: &'static str)
        ensures
            r@ == state_concurrency_name(*self),
    {
        match self {
            StateConcurrency::ConcurrencyUnspecified => "CONCURRENCY_UNSPECIFIED",
            StateConcurrency::ConcurrencyFirstWrite => "CONCURRENCY_FIRST_WRITE",
            StateConcurrency::ConcurrencyLastWrite => "CONCURRENCY_LAST_WRITE",
        }
    }

    /// The value whose ProtoBuf field name is `value`, if any.
    pub fn from_str_name(value: &str) -> (r: Option<Self>)
        ensures
            r == state_concurrency_from_name(value@),
    {
        if str_eq(value, "CONCURRENCY_UNSPECIFIED") {
            Some(StateConcurrency::ConcurrencyUnspecified)
        } else if str_eq(value, "CONCURRENCY_FIRST_WRITE") {
            Some(StateConcurrency::ConcurrencyFirstWrite)
        } else if str_eq(value, "CONCURRENCY_LAST_WRITE") {
            Some(StateConcurrency::ConcurrencyLastWrite)
        } else {
            None
        }
    }
}

/// The supported consistency for state.
#[derive(Clone, Copy, Debug, PartialEq, Eq, Hash, PartialOrd, Ord, Structural)]
pub enum StateConsistency {
    ConsistencyUnspecified,
    ConsistencyEventual,
    ConsistencyStrong,
}

/// The ProtoBuf name of each `StateConsistency` value.
pub open spec fn state_consistency_name(v: StateConsistency) -> Seq<char> {
    match v {
        StateConsistency::ConsistencyUnspecified => "CONSISTENCY_UNSPECIFIED"@,
        StateConsistency::ConsistencyEventual => "CONSISTENCY_EVENTUAL"@,
        StateConsistency::ConsistencyStrong => "CONSISTENCY_STRONG"@,
    }
}

/// The `StateConsistency` value whose ProtoBuf name is `s`, if any.
pub open spec fn state_consistency_from_name(s: Seq<char>) -> Option<StateConsistency> {
    if s == "CONSISTENCY_UNSPECIFIED"@ {
        Some(StateConsistency::ConsistencyUnspecified)
    } else if s == "CONSISTENCY_EVENTUAL"@ {
        Some(StateConsistency::ConsistencyEventual)
    } else if s == "CONSISTENCY_STRONG"@ {
        Some(StateConsistency::ConsistencyStrong)
    } else {
        None
    }
}

/// Each consistency's name reads back as that consistency, and a name reads as a consistency only if it is its name.
pub proof fn lemma_state_consistency_name_round_trip(v: StateConsistency, s: Seq<char>)
    ensures
        state_consistency_from_name(state_consistency_name(v)) == Some(v),
        state_consistency_from_name(s) == Some(v) ==> state_consistency_name(v) == s,
{
    reveal_strlit("CONSISTENCY_UNSPECIFIED");
    reveal_strlit("CONSISTENCY_EVENTUAL");
    reveal_strlit("CONSISTENCY_STRONG");
    assert("CONSISTENCY_UNSPECIFIED"@.len() != "CONSISTENCY_EVENTUAL"@.len());
    assert("CONSISTENCY_UNSPECIFIED"@.len() != "CONSISTENCY_STRONG"@.len());
    assert("CONSISTENCY_EVENTUAL"@.len() != "CONSISTENCY_STRONG"@.len());
}

impl StateConsistency {
    /// String value of the enum field name used in the ProtoBuf definition.
    pub fn as_str_name(&self) -> (r: &'static str)
        ensures
            r@ == state_consistency_name(*self),
    {
        match self {
            StateConsistency::ConsistencyUnspecified => "CONSISTENCY_UNSPECIFIED",
            StateConsistency::ConsistencyEventual => "CONSISTENCY_EVENTUAL",
            StateConsistency::ConsistencyStrong => "CONSISTENCY_STRONG",
        }
    }

    /// The value whose ProtoBuf field name is `value`, if any.
    pub fn from_str_name(value: &str) -> (r: Option<Self>)
        ensures
            r == state_consistency_from_name(value@),
    {
        if str_eq(value, "CONSISTENCY_UNSPECIFIED") {
            Some(StateConsistency::ConsistencyUnspecified)
        } else if str_eq(value, "CONSISTENCY_EVENTUAL") {
            Some(StateConsistency::ConsistencyEventual)
        } else if str_eq(value, "CONSISTENCY_STRONG") {
            Some(StateConsistency::ConsistencyStrong)
        } else {
            None
        }
    }
}

/// A configuration value with its version and metadata.
#[derive(Clone, Debug, Default)]
pub struct ConfigurationItem {
    /// Required. The value of the configuration item.
    pub value: String,
    /// Version; response only.
    pub version: String,
    /// Metadata passed to or from the configuration store component.
    pub metadata: HashMap<String, String>,
}

} // verus!
