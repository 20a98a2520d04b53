//! The schema of a metadata document: which fields a record has, and what a
//! JSON document decodes to.
//!
//! A record is a JSON object. A required field that is absent, or a field
//! that holds the wrong kind of value, makes the record a mismatch; a field
//! that the schema does not name is not looked at.

use vstd::prelude::*;

use crate::json::Json;
use crate::model::{PackageView, RootView, TargetView};

verus! {

/// The fields that the schema names.
#[derive(Clone, Copy, Debug, PartialEq, Eq, Structural)]
pub enum Field {
    Packages,
    TargetDirectory,
    Name,
    Authors,
    Version,
    Description,
    ManifestPath,
    Targets,
    Metadata,
    Kind,
    CrateTypes,
}

/// Why a JSON document is not a record of the schema.
#[derive(Clone, Copy, Debug, PartialEq, Eq, Structural)]
pub enum SchemaError {
    /// What should be a record is not a JSON object.
    NotARecord,
    /// The record lacks a required field.
    Missing(Field),
    /// The field holds a value of the wrong kind.
    Mismatch(Field),
}

impl Field {
    /// The key of the field in a JSON object.
    pub open spec fn key(self) -> Seq<char> {
        match self {
            Field::Packages => "packages"@,
            Field::TargetDirectory => "target_directory"@,
            Field::Name => "name"@,
            Field::Authors => "authors"@,
            Field::Version => "version"@,
            Field::Description => "description"@,
            Field::ManifestPath => "manifest_path"@,
            Field::Targets => "targets"@,
            Field::Metadata => "metadata"@,
            Field::Kind => "kind"@,
            Field::CrateTypes => "crate_types"@,
        }
    }

    /// The key of the field in a JSON object.
    pub fn name(self) -> (r: &'static str)
        ensures
            r@ == self.key(),
    {
        match self {
            Field::Packages => "packages",
            Field::TargetDirectory => "target_directory",
            Field::Name => "name",
            Field::Authors => "authors",
            Field::Version => "version",
            Field::Description => "description",
            Field::ManifestPath => "manifest_path",
            Field::Targets => "targets",
            Field::Metadata => "metadata",
            Field::Kind => "kind",
            Field::CrateTypes => "crate_types",
        }
    }
}

/// The fields of a JSON object; no fields for any other document.
pub open spec fn fields_in(document: Json) -> Map<Seq<char>, Json> {
    match document {
        Json::Object(fields) => fields,
        _ => Map::empty(),
    }
}

/// The text of a JSON string that stands under `field`.
pub open spec fn text_of(document: Json, field: Field) -> Result<Seq<char>, SchemaError> {
    match document {
        Json::Text(text) => Ok(text),
        _ => Err(SchemaError::Mismatch(field)),
    }
}

/// The items of a JSON array that stands under `field`.
pub open spec fn items_of(document: Json, field: Field) -> Result<Seq<Json>, SchemaError> {
    match document {
        Json::Array(items) => Ok(items),
        _ => Err(SchemaError::Mismatch(field)),
    }
}

/// The value of a field that a record must have.
pub open spec fn required(fields: Map<Seq<char>, Json>, field: Field) -> Result<
    Json,
    SchemaError,
> {
    if fields.contains_key(field.key()) {
        Ok(fields[field.key()])
    } else {
        Err(SchemaError::Missing(field))
    }
}

/// The value of a field that a record may lack: `None` where the field is
/// absent or holds `null`.
pub open spec fn optional(fields: Map<Seq<char>, Json>, field: Field) -> Option<Json> {
    if fields.contains_key(field.key()) && !(fields[field.key()] is Null) {
        Some(fields[field.key()])
    } else {
        None
    }
}

/// Every item decoded by `one`, in order; the error of the first item that
/// has one.
pub open spec fn decode_each<T>(
    items: Seq<Json>,
    one: spec_fn(Json) -> Result<T, SchemaError>,
) -> Result<Seq<T>, SchemaError>
    decreases items.len(),
{
    if items.len() == 0 {
        Ok(Seq::empty())
    } else {
        match decode_each(items.drop_last(), one) {
            Err(e) => Err(e),
            Ok(front) => match one(items.last()) {
                Err(e) => Err(e),
                Ok(last) => Ok(front.push(last)),
            },
        }
    }
}

/// Once a prefix of the items has an error, the whole sequence has it.
pub proof fn lemma_error_stays<T>(
    items: Seq<Json>,
    n: int,
    one: spec_fn(Json) -> Result<T, SchemaError>,
)
    requires
        0 <= n <= items.len(),
        decode_each(items.take(n), one) is Err,
    ensures
        decode_each(items, one) == decode_each(items.take(n), one),
    decreases items.len() - n,
{
    if n == items.len() {
        assert(items.take(n) == items);
    } else {
        let longer = items.take(n + 1);
        assert(longer.drop_last() == items.take(n));
        lemma_error_stays(items, n + 1, one);
    }
}

/// How an item of the text list under `field` is read.
pub open spec fn text_reader(field: Field) -> spec_fn(Json) -> Result<Seq<char>, SchemaError> {
    |item: Json| text_of(item, field)
}

/// How an item of `targets` is read.
pub open spec fn target_reader() -> spec_fn(Json) -> Result<TargetView, SchemaError> {
    |item: Json| decode_target(item)
}

/// How an item of `packages` is read.
pub open spec fn package_reader() -> spec_fn(Json) -> Result<PackageView<Json>, SchemaError> {
    |item: Json| decode_package(item)
}

/// A required field that holds a JSON string.
pub open spec fn text_in(fields: Map<Seq<char>, Json>, field: Field) -> Result<
    Seq<char>,
    SchemaError,
> {
    match required(fields, field) {
        Err(e) => Err(e),
        Ok(found) => text_of(found, field),
    }
}

/// A field that holds a JSON string, `null`, or is absent.
pub open spec fn optional_text_in(fields: Map<Seq<char>, Json>, field: Field) -> Result<
    Option<Seq<char>>,
    SchemaError,
> {
    match optional(fields, field) {
        None => Ok(None),
        Some(found) => match text_of(found, field) {
            Err(e) => Err(e),
            Ok(text) => Ok(Some(text)),
        },
    }
}

/// A required field that holds a JSON array.
pub open spec fn items_in(fields: Map<Seq<char>, Json>, field: Field) -> Result<
    Seq<Json>,
    SchemaError,
> {
    match required(fields, field) {
        Err(e) => Err(e),
        Ok(found) => items_of(found, field),
    }
}

/// A required field that holds an array of JSON strings.
pub open spec fn text_list_in(fields: Map<Seq<char>, Json>, field: Field) -> Result<
    Seq<Seq<char>>,
    SchemaError,
> {
    match items_in(fields, field) {
        Err(e) => Err(e),
        Ok(items) => decode_each(items, text_reader(field)),
    }
}

/// The target that a JSON document describes.
pub open spec fn decode_target(document: Json) -> Result<TargetView, SchemaError> {
    match document {
        Json::Object(fields) => match text_list_in(fields, Field::Kind) {
            Err(e) => Err(e),
            Ok(kind) => match text_list_in(fields, Field::CrateTypes) {
                Err(e) => Err(e),
                Ok(crate_types) => match text_in(fields, Field::Name) {
                    Err(e) => Err(e),
                    Ok(name) => Ok(TargetView { kind, crate_types, name }),
                },
            },
        },
        _ => Err(SchemaError::NotARecord),
    }
}

/// The targets that the field `targets` of a package describes.
pub open spec fn targets_in(fields: Map<Seq<char>, Json>) -> Result<
    Seq<TargetView>,
    SchemaError,
> {
    match items_in(fields, Field::Targets) {
        Err(e) => Err(e),
        Ok(items) => decode_each(items, target_reader()),
    }
}

/// The package that a JSON document describes. Its extra metadata is the
/// document under `metadata`, whatever that is.
pub open spec fn decode_package(document: Json) -> Result<PackageView<Json>, SchemaError> {
    match document {
        Json::Object(fields) => match text_in(fields, Field::Name) {
            Err(e) => Err(e),
            Ok(name) => match text_list_in(fields, Field::Authors) {
                Err(e) => Err(e),
                Ok(authors) => match text_in(fields, Field::Version) {
                    Err(e) => Err(e),
                    Ok(version) => match optional_text_in(fields, Field::Description) {
                        Err(e) => Err(e),
                        Ok(description) => match text_in(fields, Field::ManifestPath) {
                            Err(e) => Err(e),
                            Ok(manifest_path) => match targets_in(fields) {
                                Err(e) => Err(e),
                                Ok(targets) => Ok(
                                    PackageView {
                                        name,
                                        authors,
                                        version,
                                        description,
                                        manifest_path,
                                        targets,
                                        metadata: optional(fields, Field::Metadata),
                                    },
                                ),
                            },
                        },
                    },
                },
            },
        },
        _ => Err(SchemaError::NotARecord),
    }
}

/// The packages that the field `packages` of a document describes.
pub open spec fn packages_in(fields: Map<Seq<char>, Json>) -> Result<
    Seq<PackageView<Json>>,
    SchemaError,
> {
    match items_in(fields, Field::Packages) {
        Err(e) => Err(e),
        Ok(items) => decode_each(items, package_reader()),
    }
}

/// The metadata document that a JSON document describes.
pub open spec fn decode_root(document: Json) -> Result<RootView<Json>, SchemaError> {
    match document {
        Json::Object(fields) => match packages_in(fields) {
            Err(e) => Err(e),
            Ok(packages) => match text_in(fields, Field::TargetDirectory) {
                Err(e) => Err(e),
                Ok(target_directory) => Ok(RootView { packages, target_directory }),
            },
        },
        _ => Err(SchemaError::NotARecord),
    }
}

/// How a text of a text list is written.
pub open spec fn text_writer() -> spec_fn(Seq<char>) -> Json {
    |text: Seq<char>| Json::Text(text)
}

/// How a target of `targets` is written.
pub open spec fn target_writer() -> spec_fn(TargetView) -> Json {
    |target: TargetView| encode_target(target)
}

/// How a package of `packages` is written.
pub open spec fn package_writer() -> spec_fn(PackageView<Json>) -> Json {
    |package: PackageView<Json>| encode_package(package)
}

/// A list of texts as a JSON array of strings.
pub open spec fn encode_text_list(list: Seq<Seq<char>>) -> Json {
    Json::Array(list.map_values(text_writer()))
}

/// A text that may be absent as a JSON string, or `null`.
pub open spec fn encode_optional_text(text: Option<Seq<char>>) -> Json {
    match text {
        Some(t) => Json::Text(t),
        None => Json::Null,
    }
}

/// Extra metadata as the document it is, or `null` where there is none.
pub open spec fn encode_extra(extra: Option<Json>) -> Json {
    match extra {
        Some(document) => document,
        None => Json::Null,
    }
}

/// The JSON document of a target: an object with the three fields of a
/// target.
pub open spec fn encode_target(target: TargetView) -> Json {
    Json::Object(
        Map::empty().insert(Field::Kind.key(), encode_text_list(target.kind)).insert(
            Field::CrateTypes.key(),
            encode_text_list(target.crate_types),
        ).insert(Field::Name.key(), Json::Text(target.name)),
    )
}

/// The JSON document of a package: an object with the seven fields of a
/// package, an absent description or metadata written as `null`.
pub open spec fn encode_package(package: PackageView<Json>) -> Json {
    Json::Object(
        Map::empty().insert(Field::Name.key(), Json::Text(package.name)).insert(
            Field::Authors.key(),
            encode_text_list(package.authors),
        ).insert(Field::Version.key(), Json::Text(package.version)).insert(
            Field::Description.key(),
            encode_optional_text(package.description),
        ).insert(Field::ManifestPath.key(), Json::Text(package.manifest_path)).insert(
            Field::Targets.key(),
            Json::Array(package.targets.map_values(target_writer())),
        ).insert(Field::Metadata.key(), encode_extra(package.metadata)),
    )
}

/// The JSON document of a metadata document: an object with its two fields.
pub open spec fn encode_root(root: RootView<Json>) -> Json {
    Json::Object(
        Map::empty().insert(
            Field::Packages.key(),
            Json::Array(root.packages.map_values(package_writer())),
        ).insert(Field::TargetDirectory.key(), Json::Text(root.target_directory)),
    )
}

} // verus!
