use crate_metadata::{CargoMetadata, DecodeError, Field, Package, SchemaError, Target};
use serde_json::Value;

fn json(text: &str) -> Value {
    serde_json::from_str(text).unwrap()
}

const WORKSPACE: &str = r#"{"packages":[{"name":"a","authors":[],"version":"0.1.0",
    "description":null,"manifest_path":"/w/a/Cargo.toml","targets":[],
    "metadata":null},{"name":"b","authors":[],"version":"0.2.0",
    "description":null,"manifest_path":"/w/b/Cargo.toml","targets":[],
    "metadata":null}],"target_directory":"/w/target"}"#;

const FULL_PACKAGE: &str = r#"{
    "name": "tool",
    "authors": ["Ann <ann@example.org>", "Bob"],
    "version": "1.2.3",
    "description": "A tool.",
    "manifest_path": "/w/tool/Cargo.toml",
    "targets": [
        {"kind": ["lib", "cdylib"], "crate_types": ["lib", "cdylib"], "name": "tool"},
        {"kind": ["bin"], "crate_types": ["bin"], "name": "tool-cli"}
    ],
    "metadata": {"kind": "thing", "n": 7}
}"#;

#[test]
fn text_of_a_workspace_decodes_in_order() {
    let root = CargoMetadata::from_text(WORKSPACE).unwrap();
    assert_eq!(root.target_directory, "/w/target");
    assert_eq!(root.packages.len(), 2);
    assert_eq!(
        root.packages[0],
        Package {
            name: "a".to_string(),
            authors: vec![],
            version: "0.1.0".to_string(),
            description: None,
            manifest_path: "/w/a/Cargo.toml".to_string(),
            targets: vec![],
            metadata: None,
        }
    );
    assert_eq!(root.packages[1].name, "b");
    assert_eq!(root.packages[1].version, "0.2.0");
    assert_eq!(root.packages[1].manifest_path, "/w/b/Cargo.toml");
}

#[test]
fn every_field_of_a_package_is_read() {
    let package = Package::from_json(&json(FULL_PACKAGE)).unwrap();
    assert_eq!(package.name, "tool");
    assert_eq!(package.authors, vec!["Ann <ann@example.org>".to_string(), "Bob".to_string()]);
    assert_eq!(package.version, "1.2.3");
    assert_eq!(package.description, Some("A tool.".to_string()));
    assert_eq!(package.manifest_path, "/w/tool/Cargo.toml");
    assert_eq!(
        package.targets,
        vec![
            Target {
                kind: vec!["lib".to_string(), "cdylib".to_string()],
                crate_types: vec!["lib".to_string(), "cdylib".to_string()],
                name: "tool".to_string(),
            },
            Target {
                kind: vec!["bin".to_string()],
                crate_types: vec!["bin".to_string()],
                name: "tool-cli".to_string(),
            },
        ]
    );
    assert_eq!(package.metadata, Some(json(r#"{"kind":"thing","n":7}"#)));
}

#[test]
fn target_is_read_field_by_field() {
    let target =
        Target::from_json(&json(r#"{"name":"x","crate_types":["rlib"],"kind":["lib"]}"#)).unwrap();
    assert_eq!(
        target,
        Target {
            kind: vec!["lib".to_string()],
            crate_types: vec!["rlib".to_string()],
            name: "x".to_string(),
        }
    );
}

#[test]
fn absent_optional_fields_decode_to_none() {
    let package = Package::from_json(&json(
        r#"{"name":"a","authors":[],"version":"0.1.0","manifest_path":"/a/Cargo.toml","targets":[]}"#,
    ))
    .unwrap();
    assert_eq!(package.description, None);
    assert_eq!(package.metadata, None);
}

#[test]
fn null_optional_fields_decode_to_none() {
    let package = Package::from_json(&json(
        r#"{"name":"a","authors":[],"version":"0.1.0","description":null,
            "manifest_path":"/a/Cargo.toml","targets":[],"metadata":null}"#,
    ))
    .unwrap();
    assert_eq!(package.description, None);
    assert_eq!(package.metadata, None);
}

#[test]
fn metadata_of_any_kind_is_kept_as_it_is() {
    for extra in ["7", "false", "\"text\"", "[1,[2],{}]", "{\"a\":{\"b\":null}}", "1.5e3"] {
        let text = format!(
            r#"{{"name":"a","authors":[],"version":"0.1.0","manifest_path":"/a/Cargo.toml",
                "targets":[],"metadata":{}}}"#,
            extra
        );
        let package = Package::from_json(&json(&text)).unwrap();
        assert_eq!(package.metadata, Some(json(extra)));
    }
}

#[test]
fn missing_required_field_is_reported_by_name() {
    let without = |field: &str| {
        let mut value = json(FULL_PACKAGE);
        value.as_object_mut().unwrap().remove(field);
        Package::from_json(&value)
    };
    assert_eq!(without("name"), Err(SchemaError::Missing(Field::Name)));
    assert_eq!(without("authors"), Err(SchemaError::Missing(Field::Authors)));
    assert_eq!(without("version"), Err(SchemaError::Missing(Field::Version)));
    assert_eq!(without("manifest_path"), Err(SchemaError::Missing(Field::ManifestPath)));
    assert_eq!(without("targets"), Err(SchemaError::Missing(Field::Targets)));
    assert!(without("description").is_ok());
    assert!(without("metadata").is_ok());
}

#[test]
fn missing_root_fields_are_reported() {
    assert_eq!(
        CargoMetadata::from_json(&json(r#"{"target_directory":"/t"}"#)),
        Err(SchemaError::Missing(Field::Packages))
    );
    assert_eq!(
        CargoMetadata::from_json(&json(r#"{"packages":[]}"#)),
        Err(SchemaError::Missing(Field::TargetDirectory))
    );
    assert_eq!(
        CargoMetadata::from_json(&json(r#"{}"#)),
        Err(SchemaError::Missing(Field::Packages))
    );
}

#[test]
fn missing_target_fields_are_reported() {
    assert_eq!(
        Target::from_json(&json(r#"{"crate_types":[],"name":"x"}"#)),
        Err(SchemaError::Missing(Field::Kind))
    );
    assert_eq!(
        Target::from_json(&json(r#"{"kind":[],"name":"x"}"#)),
        Err(SchemaError::Missing(Field::CrateTypes))
    );
    assert_eq!(
        Target::from_json(&json(r#"{"kind":[],"crate_types":[]}"#)),
        Err(SchemaError::Missing(Field::Name))
    );
}

#[test]
fn value_of_the_wrong_kind_is_a_mismatch() {
    let with = |field: &str, replacement: &str| {
        let mut value = json(FULL_PACKAGE);
        value.as_object_mut().unwrap().insert(field.to_string(), json(replacement));
        Package::from_json(&value)
    };
    assert_eq!(with("name", "1"), Err(SchemaError::Mismatch(Field::Name)));
    assert_eq!(with("name", "null"), Err(SchemaError::Mismatch(Field::Name)));
    assert_eq!(with("authors", "\"Ann\""), Err(SchemaError::Mismatch(Field::Authors)));
    assert_eq!(with("authors", "[\"Ann\", 2]"), Err(SchemaError::Mismatch(Field::Authors)));
    assert_eq!(with("version", "[]"), Err(SchemaError::Mismatch(Field::Version)));
    assert_eq!(with("description", "true"), Err(SchemaError::Mismatch(Field::Description)));
    assert_eq!(with("manifest_path", "{}"), Err(SchemaError::Mismatch(Field::ManifestPath)));
    assert_eq!(with("targets", "{}"), Err(SchemaError::Mismatch(Field::Targets)));
    assert_eq!(with("targets", "[1]"), Err(SchemaError::NotARecord));
    assert_eq!(
        with("targets", r#"[{"kind":["lib"],"crate_types":"lib","name":"x"}]"#),
        Err(SchemaError::Mismatch(Field::CrateTypes))
    );
}

#[test]
fn first_failing_item_gives_the_error() {
    let root = json(
        r#"{"packages":[
            {"name":"a","authors":[],"version":"1","manifest_path":"/a","targets":[]},
            {"name":"b","authors":[],"manifest_path":"/b","targets":[]},
            {"authors":[],"version":"1","manifest_path":"/c","targets":[]}
        ],"target_directory":"/t"}"#,
    );
    assert_eq!(CargoMetadata::from_json(&root), Err(SchemaError::Missing(Field::Version)));
}

#[test]
fn document_that_is_no_object_is_not_a_record() {
    for text in ["null", "true", "3", "\"packages\"", "[]", "[[], \"/t\"]"] {
        assert_eq!(CargoMetadata::from_json(&json(text)), Err(SchemaError::NotARecord));
        assert_eq!(Package::from_json(&json(text)), Err(SchemaError::NotARecord));
        assert_eq!(Target::from_json(&json(text)), Err(SchemaError::NotARecord));
    }
}

#[test]
fn text_that_is_not_json_is_a_syntax_error() {
    for text in ["", "{", "{\"packages\":[],}", "packages", "{} {}"] {
        assert!(matches!(CargoMetadata::from_text(text), Err(DecodeError::Syntax(_))));
    }
}

#[test]
fn json_that_does_not_fit_is_a_schema_error() {
    assert!(matches!(
        CargoMetadata::from_text(r#"{"packages":[]}"#),
        Err(DecodeError::Schema(SchemaError::Missing(Field::TargetDirectory)))
    ));
    assert!(matches!(
        CargoMetadata::from_text("[]"),
        Err(DecodeError::Schema(SchemaError::NotARecord))
    ));
}

#[test]
fn unknown_fields_do_not_change_what_is_decoded() {
    let plain = CargoMetadata::from_text(
        r#"{"packages":[{"name":"a","authors":["x"],"version":"0.1.0","description":"d",
            "manifest_path":"/w/a/Cargo.toml",
            "targets":[{"kind":["lib"],"crate_types":["lib"],"name":"a"}],
            "metadata":{"k":1}}],"target_directory":"/w/target"}"#,
    )
    .unwrap();
    let extended = CargoMetadata::from_text(
        r#"{"version":1,"workspace_root":"/w","packages":[{"name":"a","id":"a 0.1.0",
            "authors":["x"],"version":"0.1.0","description":"d","license":null,
            "manifest_path":"/w/a/Cargo.toml","edition":"2021",
            "targets":[{"kind":["lib"],"crate_types":["lib"],"name":"a","src_path":"/w/a/src/lib.rs",
                "doctest":true,"version":[1,2]}],
            "features":{},"metadata":{"k":1}}],"resolve":null,
            "target_directory":"/w/target"}"#,
    )
    .unwrap();
    assert_eq!(plain, extended);
    assert_eq!(plain.packages[0].targets[0].name, "a");
}

#[test]
fn field_names_are_those_of_the_tool() {
    assert_eq!(Field::Packages.name(), "packages");
    assert_eq!(Field::TargetDirectory.name(), "target_directory");
    assert_eq!(Field::Name.name(), "name");
    assert_eq!(Field::Authors.name(), "authors");
    assert_eq!(Field::Version.name(), "version");
    assert_eq!(Field::Description.name(), "description");
    assert_eq!(Field::ManifestPath.name(), "manifest_path");
    assert_eq!(Field::Targets.name(), "targets");
    assert_eq!(Field::Metadata.name(), "metadata");
    assert_eq!(Field::Kind.name(), "kind");
    assert_eq!(Field::CrateTypes.name(), "crate_types");
}

#[test]
fn order_of_items_is_kept() {
    let target = Target::from_json(&json(
        r#"{"kind":["z","a","m","a"],"crate_types":["b","b","a"],"name":"t"}"#,
    ))
    .unwrap();
    assert_eq!(target.kind, vec!["z", "a", "m", "a"]);
    assert_eq!(target.crate_types, vec!["b", "b", "a"]);
}
