//! Schema metadata and schema type definitions for Danube messages.

use vstd::prelude::*;

use crate::error::prefixed;
use crate::text::{ascii_lower, lower_eq, matches_lower};

verus! {

/// Schema metadata fetched from the schema registry for a message.
#[derive(Debug, Clone)]
pub struct SchemaInfo {
    /// Schema ID (identifies the subject)
    pub schema_id: u64,
    /// Subject name
    pub subject: String,
    /// Schema version number
    pub version: u32,
    /// Schema type (avro, json, protobuf, etc.)
    pub schema_type: String,
    /// Schema definition as bytes
    pub schema_definition: Vec<u8>,
    /// Fingerprint for deduplication
    pub fingerprint: String,
}

} // verus!

verus! {

/// Schema type for Danube messages: how a payload is encoded.
#[derive(Debug, Clone, Copy, PartialEq, Eq, Structural)]
pub enum SchemaType {
    /// Raw bytes - no specific encoding
    Bytes,
    /// UTF-8 encoded string
    String,
    /// 64-bit signed integer
    Int64,
    /// JSON-encoded data
    Json,
}

/// The name a schema type is displayed with.
pub open spec fn schema_type_name(t: SchemaType) -> Seq<char> {
    match t {
        SchemaType::Bytes => "Bytes"@,
        SchemaType::String => "String"@,
        SchemaType::Int64 => "Int64"@,
        SchemaType::Json => "Json"@,
    }
}

/// The schema type a name denotes, compared case-insensitively.
pub open spec fn schema_type_named(s: Seq<char>) -> Option<SchemaType> {
    if lower_eq(s, "bytes"@) {
        Some(SchemaType::Bytes)
    } else if lower_eq(s, "string"@) {
        Some(SchemaType::String)
    } else if lower_eq(s, "int64"@) {
        Some(SchemaType::Int64)
    } else if lower_eq(s, "json"@) {
        Some(SchemaType::Json)
    } else {
        None
    }
}

impl SchemaType {
    /// Check if this schema type represents structured data (JSON).
    pub fn is_structured(&self) -> (b: bool)
        ensures
            b == (*self == SchemaType::Json),
    {
        match self {
            SchemaType::Json => true,
            _ => false,
        }
    }

    /// Check if this schema type represents text data.
    pub fn is_text(&self) -> (b: bool)
        ensures
            b == (*self == SchemaType::String || *self == SchemaType::Json),
    {
        match self {
            SchemaType::String | SchemaType::Json => true,
            _ => false,
        }
    }

    /// Check if this schema type represents numeric data.
    pub fn is_numeric(&self) -> (b: bool)
        ensures
            b == (*self == SchemaType::Int64),
    {
        match self {
            SchemaType::Int64 => true,
            _ => false,
        }
    }

    /// Check if this schema type represents raw binary data.
    pub fn is_binary(&self) -> (b: bool)
        ensures
            b == (*self == SchemaType::Bytes),
    {
        match self {
            SchemaType::Bytes => true,
            _ => false,
        }
    }

    /// Get a human-readable description of this schema type.
    pub fn description(&self) -> (s: &'static str)
        ensures
            s@ == (match *self {
                SchemaType::Bytes => "Raw binary data"@,
                SchemaType::String => "UTF-8 encoded string"@,
                SchemaType::Int64 => "64-bit signed integer"@,
                SchemaType::Json => "JSON-encoded structured data"@,
            }),
    {
        match self {
            SchemaType::Bytes => "Raw binary data",
            SchemaType::String => "UTF-8 encoded string",
            SchemaType::Int64 => "64-bit signed integer",
            SchemaType::Json => "JSON-encoded structured data",
        }
    }

    /// The name this schema type is displayed with (its `Display` form).
    pub fn display_name(&self) -> (s: &'static str)
        ensures
            s@ == schema_type_name(*self),
    {
        match self {
            SchemaType::Bytes => "Bytes",
            SchemaType::String => "String",
            SchemaType::Int64 => "Int64",
            SchemaType::Json => "Json",
        }
    }

    /// Parse a schema type name, ignoring ASCII case (its `FromStr` form).
    pub fn parse(s: &str) -> (r: Result<SchemaType, String>)
        ensures
            match schema_type_named(s@) {
                Some(t) => r == Ok::<SchemaType, String>(t),
                None => r matches Err(m) && m@ == "Unknown schema type: "@ + s@,
            },
    {
        if matches_lower(s, "bytes") {
            Ok(SchemaType::Bytes)
        } else if matches_lower(s, "string") {
            Ok(SchemaType::String)
        } else if matches_lower(s, "int64") {
            Ok(SchemaType::Int64)
        } else if matches_lower(s, "json") {
            Ok(SchemaType::Json)
        } else {
            Err(prefixed("Unknown schema type: ", s))
        }
    }
}

impl Default for SchemaType {
    fn default() -> (t: Self)
        ensures
            t == SchemaType::Bytes,
    {
        SchemaType::Bytes
    }
}

impl core::str::FromStr for SchemaType {
    type Err = String;

    fn from_str(s: &str) -> (r: Result<Self, Self::Err>)
        ensures
            match schema_type_named(s@) {
                Some(t) => r == Ok::<SchemaType, String>(t),
                None => r matches Err(m) && m@ == "Unknown schema type: "@ + s@,
            },
    {
        SchemaType::parse(s)
    }
}

/// Parsing the displayed name of a schema type gives that schema type back.
pub proof fn lemma_schema_type_name_roundtrip(t: SchemaType)
    ensures
        schema_type_named(schema_type_name(t)) == Some(t),
{
    reveal_strlit("Bytes");
    reveal_strlit("String");
    reveal_strlit("Int64");
    reveal_strlit("Json");
    reveal_strlit("bytes");
    reveal_strlit("string");
    reveal_strlit("int64");
    reveal_strlit("json");
    let n = schema_type_name(t);
    match t {
        SchemaType::Bytes => {
            assert(lower_eq(n, "bytes"@));
        },
        SchemaType::String => {
            assert(!lower_eq(n, "bytes"@)) by {
                assert(ascii_lower(n[0]) != "bytes"@[0]);
            }
            assert(lower_eq(n, "string"@));
        },
        SchemaType::Int64 => {
            assert(!lower_eq(n, "bytes"@)) by {
                assert(ascii_lower(n[0]) != "bytes"@[0]);
            }
            assert(!lower_eq(n, "string"@));
            assert(lower_eq(n, "int64"@));
        },
        SchemaType::Json => {
            assert(!lower_eq(n, "bytes"@));
            assert(!lower_eq(n, "string"@));
            assert(!lower_eq(n, "int64"@));
            assert(lower_eq(n, "json"@));
        },
    }
}

} // verus!
