use batiskaf::column::columns;
use batiskaf::definition::{
    add_trait_bounds, Annotation, Attribute, Capability, FieldDefinition, GenericParam,
    TypeDefinition,
};
use batiskaf::directive::{parse_attributes, FieldDirective};
use batiskaf::text::{join_strings, same_text};
use batiskaf::{derive_sql_param, derive_sql_result, SchemaError};

fn flag(name: &str) -> Annotation {
    Annotation { name: name.to_string(), value: None }
}

fn column(name: &str) -> Annotation {
    Annotation { name: "column".to_string(), value: Some(name.to_string()) }
}

fn attribute(path: &str, items: Vec<Annotation>) -> Attribute {
    Attribute { path: path.to_string(), items }
}

fn field(ident: &str, items: Vec<Annotation>) -> FieldDefinition {
    FieldDefinition { ident: ident.to_string(), attrs: vec![attribute("batiskaf", items)] }
}

fn record(ident: &str, fields: Vec<FieldDefinition>) -> TypeDefinition {
    TypeDefinition { ident: ident.to_string(), attrs: vec![], generics: vec![], fields }
}

fn plain() -> FieldDirective {
    FieldDirective {
        rename: None,
        skip: false,
        primary_key: false,
        autogenerated: false,
        default_on_missing: false,
    }
}

#[test]
fn no_attributes_no_directives() {
    assert_eq!(parse_attributes(&vec![]), Ok(plain()));
    assert_eq!(parse_attributes(&vec![attribute("batiskaf", vec![])]), Ok(plain()));
}

#[test]
fn every_directive_is_read() {
    let attrs = vec![attribute(
        "batiskaf",
        vec![
            flag("skip"),
            flag("primary_key"),
            flag("autogenerated"),
            flag("default"),
            column("full_name"),
        ],
    )];
    assert_eq!(
        parse_attributes(&attrs),
        Ok(FieldDirective {
            rename: Some("full_name".to_string()),
            skip: true,
            primary_key: true,
            autogenerated: true,
            default_on_missing: true,
        })
    );
}

#[test]
fn directives_are_gathered_over_attributes() {
    let attrs = vec![
        attribute("batiskaf", vec![flag("skip")]),
        attribute("doc", vec![flag("hidden")]),
        attribute("batiskaf", vec![flag("default"), flag("skip")]),
    ];
    assert_eq!(
        parse_attributes(&attrs),
        Ok(FieldDirective { skip: true, default_on_missing: true, ..plain() })
    );
}

#[test]
fn other_attributes_are_not_read() {
    let attrs = vec![
        attribute("serde", vec![flag("skip"), flag("anything")]),
        attribute("Batiskaf", vec![flag("primary_key")]),
    ];
    assert_eq!(parse_attributes(&attrs), Ok(plain()));
}

#[test]
fn later_rename_overrides_earlier() {
    let attrs = vec![
        attribute("batiskaf", vec![column("first"), column("second")]),
        attribute("batiskaf", vec![column("third"), flag("skip")]),
    ];
    assert_eq!(
        parse_attributes(&attrs),
        Ok(FieldDirective { rename: Some("third".to_string()), skip: true, ..plain() })
    );
}

#[test]
fn first_unknown_item_is_named() {
    let attrs = vec![
        attribute("batiskaf", vec![flag("skip"), flag("unique")]),
        attribute("batiskaf", vec![flag("indexed")]),
    ];
    assert_eq!(parse_attributes(&attrs), Err("unique".to_string()));
}

#[test]
fn directive_in_wrong_shape_is_unknown() {
    assert_eq!(
        parse_attributes(&vec![attribute("batiskaf", vec![flag("column")])]),
        Err("column".to_string())
    );
    let valued_skip = Annotation { name: "skip".to_string(), value: Some("yes".to_string()) };
    assert_eq!(
        parse_attributes(&vec![attribute("batiskaf", vec![valued_skip])]),
        Err("skip".to_string())
    );
    assert_eq!(
        parse_attributes(&vec![attribute("batiskaf", vec![flag("Skip")])]),
        Err("Skip".to_string())
    );
    assert_eq!(
        parse_attributes(&vec![attribute("batiskaf", vec![flag("")])]),
        Err("".to_string())
    );
}

#[test]
fn schema_keeps_field_order() {
    let person = record(
        "Person",
        vec![
            field("id", vec![flag("primary_key"), flag("autogenerated")]),
            field("name", vec![column("full_name")]),
            field("age", vec![flag("default")]),
            field("cache", vec![flag("skip")]),
        ],
    );
    let schema = columns(&person).unwrap();
    assert_eq!(schema.record(), "Person");
    assert!(!schema.default());
    let names: Vec<&str> = schema.columns().iter().map(|c| c.name().as_str()).collect();
    assert_eq!(names, vec!["id", "full_name", "age", "cache"]);
    let fields: Vec<&str> = schema.columns().iter().map(|c| c.source_field().as_str()).collect();
    assert_eq!(fields, vec!["id", "name", "age", "cache"]);
    let keys: Vec<bool> = schema.columns().iter().map(|c| c.primary_key()).collect();
    assert_eq!(keys, vec![true, false, false, false]);
    let generated: Vec<bool> = schema.columns().iter().map(|c| c.autogenerated()).collect();
    assert_eq!(generated, vec![true, false, false, false]);
    let skipped: Vec<bool> = schema.columns().iter().map(|c| c.skip()).collect();
    assert_eq!(skipped, vec![false, false, false, true]);
    let defaults: Vec<bool> = schema.columns().iter().map(|c| c.default()).collect();
    assert_eq!(defaults, vec![false, false, true, false]);
}

#[test]
fn type_default_reaches_every_field() {
    let mut person = record("Person", vec![field("id", vec![]), field("age", vec![flag("skip")])]);
    person.attrs = vec![attribute("batiskaf", vec![flag("default")])];
    let schema = columns(&person).unwrap();
    assert!(schema.default());
    assert!(schema.columns().iter().all(|c| c.default()));
}

#[test]
fn identifier_is_lowered_in_ascii_only() {
    let odd = record("Odd", vec![field("MixedCASE_1", vec![]), field("ÄB", vec![])]);
    let schema = columns(&odd).unwrap();
    assert_eq!(schema.columns()[0].name(), "mixedcase_1");
    assert_eq!(schema.columns()[1].name(), "Äb");
    assert_eq!(schema.columns()[0].source_field(), "MixedCASE_1");
}

#[test]
fn duplicate_column_is_rejected() {
    let twice = record("Twice", vec![field("name", vec![]), field("title", vec![column("name")])]);
    assert_eq!(
        columns(&twice),
        Err(SchemaError::DuplicateColumn { record: "Twice".to_string(), column: "name".to_string() })
    );
    let lowered = record("Twice", vec![field("name", vec![]), field("Name", vec![])]);
    assert_eq!(
        columns(&lowered),
        Err(SchemaError::DuplicateColumn { record: "Twice".to_string(), column: "name".to_string() })
    );
    let skipped =
        record("Twice", vec![field("name", vec![flag("skip")]), field("name", vec![flag("skip")])]);
    assert!(columns(&skipped).is_err());
}

#[test]
fn first_field_at_fault_decides() {
    let both = record(
        "Both",
        vec![
            field("a", vec![]),
            field("b", vec![column("a")]),
            field("c", vec![flag("unique")]),
        ],
    );
    assert_eq!(
        columns(&both),
        Err(SchemaError::DuplicateColumn { record: "Both".to_string(), column: "a".to_string() })
    );
    let other = record(
        "Both",
        vec![
            field("a", vec![]),
            field("c", vec![flag("unique")]),
            field("b", vec![column("a")]),
        ],
    );
    assert_eq!(
        columns(&other),
        Err(SchemaError::UnknownDirective {
            record: "Both".to_string(),
            directive: "unique".to_string()
        })
    );
}

#[test]
fn fault_on_the_type_comes_first() {
    let mut odd = record("Odd", vec![field("a", vec![flag("unique")])]);
    odd.attrs = vec![attribute("batiskaf", vec![flag("table")])];
    assert_eq!(
        columns(&odd),
        Err(SchemaError::UnknownDirective { record: "Odd".to_string(), directive: "table".to_string() })
    );
}

#[test]
fn messages_name_the_type_and_the_rule() {
    let name = "Person".to_string();
    assert_eq!(
        SchemaError::MissingPrimaryKey { record: name.clone() }.message(),
        "struct Person must contain `primary_key` field"
    );
    assert_eq!(
        SchemaError::MissingUpdatableColumn { record: name.clone() }.message(),
        "struct Person must contain non `primary_key` field"
    );
    assert_eq!(
        SchemaError::SkipWithoutDefault { record: name.clone(), field: "age".to_string() }.message(),
        "struct Person field age with `skip` attribute must have `default` attribute"
    );
    assert_eq!(
        SchemaError::UnknownDirective { record: name.clone(), directive: "unique".to_string() }
            .message(),
        "struct Person has unknown attribute `unique`"
    );
    assert_eq!(
        SchemaError::DuplicateColumn { record: name, column: "age".to_string() }.message(),
        "struct Person maps more than one field to column `age`"
    );
}

#[test]
fn join_places_the_separator_between() {
    let none: Vec<String> = vec![];
    assert_eq!(join_strings(&none, ", "), "");
    assert_eq!(join_strings(&vec!["a".to_string()], ", "), "a");
    assert_eq!(
        join_strings(&vec!["a".to_string(), "".to_string(), "c".to_string()], " AND "),
        "a AND  AND c"
    );
    assert_eq!(join_strings(&vec!["a".to_string(), "b".to_string()], ""), "ab");
}

#[test]
fn same_text_compares_characters() {
    assert!(same_text("skip", "skip"));
    assert!(!same_text("skip", "Skip"));
    assert!(!same_text("skip", "skip "));
    assert!(same_text("", ""));
}

fn type_param(name: &str, bounds: Vec<Capability>) -> GenericParam {
    GenericParam::Type { name: name.to_string(), bounds }
}

#[test]
fn bounds_go_to_type_parameters_only() {
    let generics = vec![
        GenericParam::Lifetime { name: "'a".to_string() },
        type_param("K", vec![]),
        GenericParam::Const { name: "N".to_string() },
        type_param("V", vec![Capability::HasDefault]),
    ];
    let bounded = add_trait_bounds(&generics, &vec![Capability::Decodable, Capability::HasDefault]);
    assert_eq!(
        bounded,
        vec![
            GenericParam::Lifetime { name: "'a".to_string() },
            type_param("K", vec![Capability::Decodable, Capability::HasDefault]),
            GenericParam::Const { name: "N".to_string() },
            type_param(
                "V",
                vec![Capability::HasDefault, Capability::Decodable, Capability::HasDefault]
            ),
        ]
    );
    assert_eq!(add_trait_bounds(&generics, &vec![]), generics);
    assert_eq!(add_trait_bounds(&vec![], &vec![Capability::Encodable]), vec![]);
}

#[test]
fn generic_record_asks_for_capabilities() {
    let mut key_value = record("KeyValue", vec![field("key", vec![]), field("value", vec![])]);
    key_value.generics = vec![type_param("T", vec![])];
    let binder = derive_sql_param(&key_value).unwrap();
    assert_eq!(binder.generics(), &vec![type_param("T", vec![Capability::Encodable])]);
    let mapper = derive_sql_result(&key_value).unwrap();
    assert_eq!(
        mapper.generics(),
        &vec![type_param("T", vec![Capability::Decodable, Capability::HasDefault])]
    );
}
