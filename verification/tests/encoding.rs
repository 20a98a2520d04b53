use crate_metadata::{CargoMetadata, Package, Target};
use serde_json::Value;

fn json(text: &str) -> Value {
    serde_json::from_str(text).unwrap()
}

fn text(value: &str) -> Value {
    Value::String(value.to_string())
}

fn sample_target() -> Target {
    Target {
        kind: vec!["lib".to_string(), "cdylib".to_string()],
        crate_types: vec!["rlib".to_string()],
        name: "tool".to_string(),
    }
}

fn sample_package(metadata: Option<Value>) -> Package<Value> {
    Package {
        name: "tool".to_string(),
        authors: vec!["Ann".to_string(), "Bob".to_string()],
        version: "1.2.3".to_string(),
        description: Some("A tool.".to_string()),
        manifest_path: "/w/tool/Cargo.toml".to_string(),
        targets: vec![sample_target()],
        metadata,
    }
}

#[test]
fn target_encodes_to_its_three_fields() {
    let mut expected = serde_json::Map::new();
    expected.insert("kind".to_string(), Value::Array(vec![text("lib"), text("cdylib")]));
    expected.insert("crate_types".to_string(), Value::Array(vec![text("rlib")]));
    expected.insert("name".to_string(), text("tool"));
    assert_eq!(sample_target().to_json(), Value::Object(expected));
}

#[test]
fn package_encodes_to_its_seven_fields() {
    let encoded = sample_package(Some(json(r#"{"k":[1,2]}"#))).to_json();
    assert_eq!(
        encoded,
        json(
            r#"{"name":"tool","authors":["Ann","Bob"],"version":"1.2.3","description":"A tool.",
                "manifest_path":"/w/tool/Cargo.toml",
                "targets":[{"kind":["lib","cdylib"],"crate_types":["rlib"],"name":"tool"}],
                "metadata":{"k":[1,2]}}"#
        )
    );
    assert_eq!(encoded.as_object().unwrap().len(), 7);
}

#[test]
fn absent_fields_encode_to_null() {
    let mut package = sample_package(None);
    package.description = None;
    let encoded = package.to_json();
    assert_eq!(encoded.get("description"), Some(&Value::Null));
    assert_eq!(encoded.get("metadata"), Some(&Value::Null));
}

#[test]
fn document_encodes_to_its_two_fields() {
    let root = CargoMetadata {
        packages: vec![sample_package(None), sample_package(Some(text("m")))],
        target_directory: "/w/target".to_string(),
    };
    let encoded = root.to_json();
    assert_eq!(encoded.as_object().unwrap().len(), 2);
    assert_eq!(encoded.get("target_directory"), Some(&text("/w/target")));
    let packages = encoded.get("packages").unwrap().as_array().unwrap();
    assert_eq!(packages.len(), 2);
    assert_eq!(packages[0], sample_package(None).to_json());
    assert_eq!(packages[1], sample_package(Some(text("m"))).to_json());
}

#[test]
fn empty_document_encodes_to_empty_packages() {
    let root: CargoMetadata = CargoMetadata { packages: vec![], target_directory: String::new() };
    assert_eq!(root.to_json(), json(r#"{"packages":[],"target_directory":""}"#));
}

#[test]
fn decoded_document_survives_encoding_and_decoding() {
    let source = r#"{"packages":[
        {"name":"a","authors":["x","y"],"version":"0.1.0","description":"d",
         "manifest_path":"/w/a/Cargo.toml",
         "targets":[{"kind":["lib"],"crate_types":["lib"],"name":"a"},
                    {"kind":["bin"],"crate_types":["bin"],"name":"a-cli","extra":1}],
         "metadata":{"kind":"thing","n":7,"deep":[null,{"x":1.5}]}},
        {"name":"b","authors":[],"version":"0.2.0","description":null,
         "manifest_path":"/w/b/Cargo.toml","targets":[],"metadata":null},
        {"name":"c","authors":[],"version":"0.3.0",
         "manifest_path":"/w/c/Cargo.toml","targets":[],"metadata":false}
    ],"target_directory":"/w/target","version":1}"#;
    let first = CargoMetadata::from_text(source).unwrap();
    let second = CargoMetadata::from_json(&first.to_json()).unwrap();
    assert_eq!(first, second);
    let third = CargoMetadata::from_text(&first.to_json().to_string()).unwrap();
    assert_eq!(first, third);
    assert_eq!(second.packages[0].targets[1].name, "a-cli");
    assert_eq!(second.packages[2].metadata, Some(Value::Bool(false)));
}

#[test]
fn records_survive_encoding_and_decoding() {
    let target = sample_target();
    assert_eq!(Target::from_json(&target.to_json()), Ok(target));
    let package = sample_package(Some(json("[1]")));
    assert_eq!(Package::from_json(&package.to_json()), Ok(package));
    let package = sample_package(None);
    assert_eq!(Package::from_json(&package.to_json()), Ok(package));
}

#[test]
fn null_metadata_reads_back_as_none() {
    let package = sample_package(Some(Value::Null));
    let back = Package::from_json(&package.to_json()).unwrap();
    assert_eq!(back.metadata, None);
    assert_eq!(back.name, package.name);
}
