use danube_connect_core::SchemaType;

#[test]
fn test_schema_type_checks() {
    assert!(SchemaType::Json.is_structured());
    assert!(!SchemaType::String.is_structured());

    assert!(SchemaType::String.is_text());
    assert!(SchemaType::Json.is_text());
    assert!(!SchemaType::Bytes.is_text());

    assert!(SchemaType::Int64.is_numeric());
    assert!(!SchemaType::String.is_numeric());

    assert!(SchemaType::Bytes.is_binary());
    assert!(!SchemaType::Json.is_binary());
}

#[test]
fn test_schema_type_from_str() {
    assert_eq!("json".parse::<SchemaType>().unwrap(), SchemaType::Json);
    assert_eq!("Json".parse::<SchemaType>().unwrap(), SchemaType::Json);
    assert_eq!("JSON".parse::<SchemaType>().unwrap(), SchemaType::Json);
    assert_eq!("bytes".parse::<SchemaType>().unwrap(), SchemaType::Bytes);
    assert_eq!("string".parse::<SchemaType>().unwrap(), SchemaType::String);
    assert_eq!("int64".parse::<SchemaType>().unwrap(), SchemaType::Int64);

    assert!("invalid".parse::<SchemaType>().is_err());
}

#[test]
fn test_schema_type_display() {
    assert_eq!(SchemaType::Json.display_name(), "Json");
    assert_eq!(SchemaType::Bytes.display_name(), "Bytes");
    assert_eq!(SchemaType::String.display_name(), "String");
    assert_eq!(SchemaType::Int64.display_name(), "Int64");
}

#[test]
fn parse_error_names_the_input_and_display_names_parse_back() {
    assert_eq!(SchemaType::parse("Avro"), Err("Unknown schema type: Avro".to_string()));
    for t in [SchemaType::Bytes, SchemaType::String, SchemaType::Int64, SchemaType::Json] {
        assert_eq!(SchemaType::parse(t.display_name()), Ok(t));
    }
    assert_eq!(SchemaType::default(), SchemaType::Bytes);
    assert_eq!(SchemaType::Int64.description(), "64-bit signed integer");
    assert_eq!(SchemaType::Json.description(), "JSON-encoded structured data");
}
