use danube_connect_core::{decode_payload, serialize_with_schema, ConnectorError, SchemaInfo};
use serde_json::Value;

fn schema(schema_type: &str) -> Option<SchemaInfo> {
    Some(SchemaInfo {
        schema_id: 3,
        subject: "subject".to_string(),
        version: 1,
        schema_type: schema_type.to_string(),
        schema_definition: vec![],
        fingerprint: String::new(),
    })
}

fn decode(bytes: &[u8], schema_type: &str) -> Result<Value, ConnectorError> {
    decode_payload(bytes, schema(schema_type), &None).map(|(v, _)| v)
}

#[test]
fn no_schema_parses_json_or_wraps_raw_bytes() {
    let (v, s) = decode_payload(br#"{"a":1}"#, None, &None).unwrap();
    assert_eq!(v["a"], 1);
    assert!(s.is_none());
    let (v, _) = decode_payload(&[0xff, 0x00], None, &None).unwrap();
    assert_eq!(v["raw"], "/wA=");
    assert_eq!(v["size"], 2);
}

#[test]
fn each_schema_type_decodes_its_way() {
    assert_eq!(decode(b"[1,2]", "JSON_SCHEMA").unwrap()[1], 2);
    assert_eq!(decode(b"7", "number").unwrap(), Value::from(7));
    assert_eq!(decode("grüß".as_bytes(), "String").unwrap(), Value::from("grüß"));
    let b = decode(&[1, 2, 3], "bytes").unwrap();
    assert_eq!(b["data"], "AQID");
    assert_eq!(b["size"], 3);
    assert_eq!(decode(b"{}", "avro").unwrap(), Value::Object(Default::default()));
    assert_eq!(decode(b"true", "custom").unwrap(), Value::Bool(true));
    assert_eq!(decode(b"oops", "custom").unwrap()["raw"], "b29wcw==");
}

#[test]
fn decoding_errors_name_their_cause() {
    match decode(b"{", "json") {
        Err(ConnectorError::InvalidData { message, payload }) => {
            assert!(message.starts_with("JSON deserialization failed: "));
            assert_eq!(payload, b"{".to_vec());
        }
        other => panic!("unexpected {:?}", other),
    }
    match decode(b"x", "avro") {
        Err(ConnectorError::InvalidData { message, .. }) => {
            assert!(message.starts_with("Avro (JSON) deserialization failed: "))
        }
        other => panic!("unexpected {:?}", other),
    }
    match decode(b"x", "number") {
        Err(ConnectorError::InvalidData { message, .. }) => {
            assert!(message.starts_with("Number deserialization failed: "))
        }
        other => panic!("unexpected {:?}", other),
    }
    match decode(&[0xc3, 0x28], "string") {
        Err(ConnectorError::InvalidData { message, payload }) => {
            assert!(message.starts_with("UTF-8 decode failed: "));
            assert_eq!(payload, vec![0xc3, 0x28]);
        }
        other => panic!("unexpected {:?}", other),
    }
    match decode(b"", "protobuf") {
        Err(ConnectorError::Configuration(m)) => {
            assert_eq!(m, "Protobuf deserialization not yet implemented")
        }
        other => panic!("unexpected {:?}", other),
    }
}

#[test]
fn each_schema_type_encodes_its_way() {
    let obj: Value = serde_json::from_str(r#"{"k":[1,"x"]}"#).unwrap();
    assert_eq!(serialize_with_schema(&obj, "json").unwrap(), br#"{"k":[1,"x"]}"#.to_vec());
    assert_eq!(serialize_with_schema(&obj, "unknown").unwrap(), br#"{"k":[1,"x"]}"#.to_vec());
    assert_eq!(serialize_with_schema(&Value::from(5), "NUMBER").unwrap(), b"5".to_vec());
    assert_eq!(serialize_with_schema(&Value::from("hi"), "string").unwrap(), b"hi".to_vec());
    assert_eq!(serialize_with_schema(&obj, "string").unwrap(), br#"{"k":[1,"x"]}"#.to_vec());
    assert_eq!(serialize_with_schema(&Value::from("AQID"), "bytes").unwrap(), vec![1, 2, 3]);
    let wrapped: Value = serde_json::from_str(r#"{"data":"AQID","size":3}"#).unwrap();
    assert_eq!(serialize_with_schema(&wrapped, "bytes").unwrap(), vec![1, 2, 3]);
}

#[test]
fn encoding_errors_name_their_cause() {
    let expect_serialization = |r: Result<Vec<u8>, ConnectorError>, text: &str, exact: bool| match r {
        Err(ConnectorError::Serialization(m)) => {
            if exact {
                assert_eq!(m, text)
            } else {
                assert!(m.starts_with(text))
            }
        }
        other => panic!("unexpected {:?}", other),
    };
    expect_serialization(serialize_with_schema(&Value::from("!!"), "bytes"), "Invalid base64: ", false);
    let no_data: Value = serde_json::from_str(r#"{"raw":"AQID"}"#).unwrap();
    expect_serialization(
        serialize_with_schema(&no_data, "bytes"),
        "Expected 'data' field with base64 string",
        true,
    );
    let bad_data: Value = serde_json::from_str(r#"{"data":5}"#).unwrap();
    expect_serialization(
        serialize_with_schema(&bad_data, "bytes"),
        "Expected 'data' field with base64 string",
        true,
    );
    expect_serialization(serialize_with_schema(&Value::from(1), "bytes"), "Cannot convert to bytes", true);
    match serialize_with_schema(&Value::Null, "avro") {
        Err(ConnectorError::Configuration(m)) => assert_eq!(m, "Avro serialization not yet implemented"),
        other => panic!("unexpected {:?}", other),
    }
    match serialize_with_schema(&Value::Null, "Protobuf") {
        Err(ConnectorError::Configuration(m)) => {
            assert_eq!(m, "Protobuf serialization not yet implemented")
        }
        other => panic!("unexpected {:?}", other),
    }
}

#[test]
fn text_and_bytes_round_trip_through_the_codec() {
    for (bytes, t) in [(&b"plain text"[..], "string"), (&[0u8, 255, 7][..], "bytes")] {
        let v = decode(bytes, t).unwrap();
        assert_eq!(serialize_with_schema(&v, t).unwrap(), bytes.to_vec());
    }
}
