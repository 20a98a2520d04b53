//! Decoding: from a JSON value, or from a text, to the records.

use vstd::prelude::*;

use crate::json::{
    as_items, as_text, duplicate, field, is_null, is_object, json_of, jsons, parse, parsed,
};
use crate::model::{
    as_json, package_views, target_views, texts, CargoMetadata, Package, Target,
};
use crate::schema::{
    decode_each, decode_package, decode_root, decode_target, fields_in, items_in,
    lemma_error_stays, optional, optional_text_in, package_reader, packages_in, required,
    target_reader, targets_in, text_in, text_list_in, text_of, text_reader, Field, SchemaError,
};

verus! {

/// Why a text is not a metadata document.
#[derive(Debug)]
pub enum DecodeError {
    /// The text is not JSON; the error is the one of `serde_json`.
    Syntax(serde_json::Error),
    /// The text is JSON, and the document does not fit the schema.
    Schema(SchemaError),
}

/// A result of decoding, with the record replaced by its view.
pub open spec fn seen<T: View>(r: Result<T, SchemaError>) -> Result<T::V, SchemaError> {
    match r {
        Ok(record) => Ok(record@),
        Err(e) => Err(e),
    }
}

fn required_value<'a>(record: &'a serde_json::Value, field_name: Field) -> (r: Result<
    &'a serde_json::Value,
    SchemaError,
>)
    ensures
        match r {
            Ok(found) => required(fields_in(json_of(*record)), field_name) matches Ok(j) && j
                == json_of(*found),
            Err(e) => required(fields_in(json_of(*record)), field_name) matches Err(x) && x == e,
        },
{
    match field(record, field_name.name()) {
        Some(found) => Ok(found),
        None => Err(SchemaError::Missing(field_name)),
    }
}

fn optional_value<'a>(record: &'a serde_json::Value, field_name: Field) -> (r: Option<
    &'a serde_json::Value,
>)
    ensures
        match r {
            Some(found) => optional(fields_in(json_of(*record)), field_name) == Some(
                json_of(*found),
            ),
            None => optional(fields_in(json_of(*record)), field_name) is None,
        },
{
    match field(record, field_name.name()) {
        Some(found) => if is_null(found) {
            None
        } else {
            Some(found)
        },
        None => None,
    }
}

fn text(value: &serde_json::Value, field_name: Field) -> (r: Result<String, SchemaError>)
    ensures
        match r {
            Ok(found) => text_of(json_of(*value), field_name) matches Ok(t) && t == found@,
            Err(e) => text_of(json_of(*value), field_name) matches Err(x) && x == e,
        },
{
    match as_text(value) {
        Some(found) => Ok(found.to_owned()),
        None => Err(SchemaError::Mismatch(field_name)),
    }
}

fn required_text(record: &serde_json::Value, field_name: Field) -> (r: Result<
    String,
    SchemaError,
>)
    ensures
        match r {
            Ok(found) => text_in(fields_in(json_of(*record)), field_name) matches Ok(t) && t
                == found@,
            Err(e) => text_in(fields_in(json_of(*record)), field_name) matches Err(x) && x == e,
        },
{
    let found = required_value(record, field_name)?;
    text(found, field_name)
}

fn optional_text(record: &serde_json::Value, field_name: Field) -> (r: Result<
    Option<String>,
    SchemaError,
>)
    ensures
        match r {
            Ok(Some(found)) => optional_text_in(fields_in(json_of(*record)), field_name)
                matches Ok(Some(t)) && t == found@,
            Ok(None) => optional_text_in(fields_in(json_of(*record)), field_name) matches Ok(
                None,
            ),
            Err(e) => optional_text_in(fields_in(json_of(*record)), field_name) matches Err(x)
                && x == e,
        },
{
    match optional_value(record, field_name) {
        Some(found) => {
            let t = text(found, field_name)?;
            Ok(Some(t))
        },
        None => Ok(None),
    }
}

fn required_items<'a>(record: &'a serde_json::Value, field_name: Field) -> (r: Result<
    &'a Vec<serde_json::Value>,
    SchemaError,
>)
    ensures
        match r {
            Ok(found) => items_in(fields_in(json_of(*record)), field_name) matches Ok(items)
                && items == jsons(found@),
            Err(e) => items_in(fields_in(json_of(*record)), field_name) matches Err(x) && x == e,
        },
{
    let found = required_value(record, field_name)?;
    match as_items(found) {
        Some(items) => Ok(items),
        None => Err(SchemaError::Mismatch(field_name)),
    }
}

fn text_list(record: &serde_json::Value, field_name: Field) -> (r: Result<
    Vec<String>,
    SchemaError,
>)
    ensures
        match r {
            Ok(found) => text_list_in(fields_in(json_of(*record)), field_name) matches Ok(list)
                && list == texts(found@),
            Err(e) => text_list_in(fields_in(json_of(*record)), field_name) matches Err(x) && x
                == e,
        },
{
    let items = required_items(record, field_name)?;
    let mut list: Vec<String> = Vec::new();
    let mut i: usize = 0;
    while i < items.len()
        invariant
            i <= items.len(),
            items_in(fields_in(json_of(*record)), field_name) matches Ok(all) && all == jsons(
                items@,
            ),
            decode_each(jsons(items@).take(i as int), text_reader(field_name)) matches Ok(front)
                && front == texts(list@),
        decreases items.len() - i,
    {
        proof {
            let next = jsons(items@).take(i + 1);
            assert(next.drop_last() == jsons(items@).take(i as int));
        }
        match text(&items[i], field_name) {
            Ok(found) => {
                list.push(found);
            },
            Err(e) => {
                proof {
                    lemma_error_stays(jsons(items@), i + 1, text_reader(field_name));
                }
                return Err(e);
            },
        }
        i = i + 1;
    }
    proof {
        assert(jsons(items@).take(i as int) == jsons(items@));
    }
    Ok(list)
}

impl Target {
    /// Decodes a target from a JSON value.
    ///
    /// The result is what the schema says of the document, the record or the
    /// error: see [`decode_target`].
    pub fn from_json(value: &serde_json::Value) -> (r: Result<Target, SchemaError>)
        ensures
            seen(r) == decode_target(json_of(*value)),
    {
        if !is_object(value) {
            return Err(SchemaError::NotARecord);
        }
        let kind = text_list(value, Field::Kind)?;
        let crate_types = text_list(value, Field::CrateTypes)?;
        let name = required_text(value, Field::Name)?;
        Ok(Target { kind, crate_types, name })
    }
}

fn target_list(record: &serde_json::Value) -> (r: Result<Vec<Target>, SchemaError>)
    ensures
        match r {
            Ok(found) => targets_in(fields_in(json_of(*record))) matches Ok(list) && list
                == target_views(found@),
            Err(e) => targets_in(fields_in(json_of(*record))) matches Err(x) && x == e,
        },
{
    let items = required_items(record, Field::Targets)?;
    let mut list: Vec<Target> = Vec::new();
    let mut i: usize = 0;
    while i < items.len()
        invariant
            i <= items.len(),
            items_in(fields_in(json_of(*record)), Field::Targets) matches Ok(all) && all
                == jsons(items@),
            decode_each(jsons(items@).take(i as int), target_reader()) matches Ok(front)
                && front == target_views(list@),
        decreases items.len() - i,
    {
        proof {
            let next = jsons(items@).take(i + 1);
            assert(next.drop_last() == jsons(items@).take(i as int));
        }
        match Target::from_json(&items[i]) {
            Ok(found) => {
                list.push(found);
            },
            Err(e) => {
                proof {
                    lemma_error_stays(jsons(items@), i + 1, target_reader());
                }
                return Err(e);
            },
        }
        i = i + 1;
    }
    proof {
        assert(jsons(items@).take(i as int) == jsons(items@));
    }
    Ok(list)
}

fn extra(record: &serde_json::Value) -> (r: Option<serde_json::Value>)
    ensures
        match r {
            Some(found) => optional(fields_in(json_of(*record)), Field::Metadata) == Some(
                json_of(found),
            ),
            None => optional(fields_in(json_of(*record)), Field::Metadata) is None,
        },
{
    match optional_value(record, Field::Metadata) {
        Some(found) => Some(duplicate(found)),
        None => None,
    }
}

impl Package<serde_json::Value> {
    /// Decodes a package from a JSON value. The extra metadata is kept as the
    /// JSON value that stands under `metadata`, so nothing of it is lost.
    ///
    /// The result is what the schema says of the document, the record or the
    /// error: see [`decode_package`].
    pub fn from_json(value: &serde_json::Value) -> (r: Result<
        Package<serde_json::Value>,
        SchemaError,
    >)
        ensures
            seen(r) == decode_package(json_of(*value)),
    {
        if !is_object(value) {
            return Err(SchemaError::NotARecord);
        }
        let name = required_text(value, Field::Name)?;
        let authors = text_list(value, Field::Authors)?;
        let version = required_text(value, Field::Version)?;
        let description = optional_text(value, Field::Description)?;
        let manifest_path = required_text(value, Field::ManifestPath)?;
        let targets = target_list(value)?;
        let metadata = extra(value);
        Ok(Package { name, authors, version, description, manifest_path, targets, metadata })
    }
}

fn package_list(record: &serde_json::Value) -> (r: Result<
    Vec<Package<serde_json::Value>>,
    SchemaError,
>)
    ensures
        match r {
            Ok(found) => packages_in(fields_in(json_of(*record))) matches Ok(list) && list
                == package_views(found@, as_json()),
            Err(e) => packages_in(fields_in(json_of(*record))) matches Err(x) && x == e,
        },
{
    let items = required_items(record, Field::Packages)?;
    let mut list: Vec<Package<serde_json::Value>> = Vec::new();
    let mut i: usize = 0;
    while i < items.len()
        invariant
            i <= items.len(),
            items_in(fields_in(json_of(*record)), Field::Packages) matches Ok(all) && all
                == jsons(items@),
            decode_each(jsons(items@).take(i as int), package_reader()) matches Ok(front)
                && front == package_views(list@, as_json()),
        decreases items.len() - i,
    {
        proof {
            let next = jsons(items@).take(i + 1);
            assert(next.drop_last() == jsons(items@).take(i as int));
        }
        match Package::from_json(&items[i]) {
            Ok(found) => {
                list.push(found);
            },
            Err(e) => {
                proof {
                    lemma_error_stays(jsons(items@), i + 1, package_reader());
                }
                return Err(e);
            },
        }
        i = i + 1;
    }
    proof {
        assert(jsons(items@).take(i as int) == jsons(items@));
    }
    Ok(list)
}

impl CargoMetadata<serde_json::Value> {
    /// Decodes a metadata document from a JSON value. The extra metadata of
    /// each package is kept as JSON.
    ///
    /// The result is what the schema says of the document, the record or the
    /// error: see [`decode_root`].
    pub fn from_json(value: &serde_json::Value) -> (r: Result<
        CargoMetadata<serde_json::Value>,
        SchemaError,
    >)
        ensures
            seen(r) == decode_root(json_of(*value)),
    {
        if !is_object(value) {
            return Err(SchemaError::NotARecord);
        }
        let packages = package_list(value)?;
        let target_directory = required_text(value, Field::TargetDirectory)?;
        Ok(CargoMetadata { packages, target_directory })
    }

    /// Decodes a metadata document from JSON text.
    ///
    /// The text is read by `serde_json`; [`parsed`] names the document it
    /// finds. Where it finds none, the error is `Syntax`. Where it finds one,
    /// the result is what the schema says of that document, with a mismatch
    /// as `Schema`.
    pub fn from_text(text: &str) -> (r: Result<CargoMetadata<serde_json::Value>, DecodeError>)
        ensures
            match parsed(text@) {
                None => r matches Err(DecodeError::Syntax(_)),
                Some(document) => match decode_root(document) {
                    Ok(root) => r matches Ok(found) && found@ == root,
                    Err(e) => r matches Err(DecodeError::Schema(x)) && x == e,
                },
            },
    {
        match parse(text) {
            Err(e) => Err(DecodeError::Syntax(e)),
            Ok(value) => match CargoMetadata::from_json(&value) {
                Ok(root) => Ok(root),
                Err(e) => Err(DecodeError::Schema(e)),
            },
        }
    }
}

/// Whether `typed` is `source` with its extra metadata decoded: the other
/// fields are those of `source`, and the metadata is absent where `source`
/// has none, and otherwise something that `decoder` gives for the JSON
/// value that `source` has.
pub open spec fn typed_package<M, F: Fn(&serde_json::Value) -> Option<M>>(
    source: Package<serde_json::Value>,
    typed: Package<M>,
    decoder: F,
) -> bool {
    &&& typed.name == source.name
    &&& typed.authors == source.authors
    &&& typed.version == source.version
    &&& typed.description == source.description
    &&& typed.manifest_path == source.manifest_path
    &&& typed.targets == source.targets
    &&& match source.metadata {
        None => typed.metadata is None,
        Some(value) => typed.metadata matches Some(extra) && decoder.ensures(
            (&value,),
            Some(extra),
        ),
    }
}

/// Whether `decoder` may give `None` for the extra metadata of `source`.
pub open spec fn refuses<M, F: Fn(&serde_json::Value) -> Option<M>>(
    source: Package<serde_json::Value>,
    decoder: F,
) -> bool {
    source.metadata is Some && decoder.ensures((&source.metadata->0,), None)
}

/// Whether `decoder` can be called on the extra metadata of `source`, where
/// it has some.
pub open spec fn accepts<M, F: Fn(&serde_json::Value) -> Option<M>>(
    source: Package<serde_json::Value>,
    decoder: F,
) -> bool {
    source.metadata is Some ==> decoder.requires((&source.metadata->0,))
}

/// Whether `typed` holds, for each package of `source` in order, that
/// package with its extra metadata decoded.
pub open spec fn typed_packages<M, F: Fn(&serde_json::Value) -> Option<M>>(
    source: Seq<Package<serde_json::Value>>,
    typed: Seq<Package<M>>,
    decoder: F,
) -> bool {
    &&& typed.len() == source.len()
    &&& forall|i: int|
        0 <= i < source.len() ==> typed_package(#[trigger] source[i], typed[i], decoder)
}

/// Whether `decoder` may give `None` for the extra metadata of some package
/// of `source`.
pub open spec fn refuses_one<M, F: Fn(&serde_json::Value) -> Option<M>>(
    source: Seq<Package<serde_json::Value>>,
    decoder: F,
) -> bool {
    exists|i: int| 0 <= i < source.len() && refuses(#[trigger] source[i], decoder)
}

/// Whether `decoder` can be called on the extra metadata of every package of
/// `source`.
pub open spec fn accepts_all<M, F: Fn(&serde_json::Value) -> Option<M>>(
    source: Seq<Package<serde_json::Value>>,
    decoder: F,
) -> bool {
    forall|i: int| 0 <= i < source.len() ==> accepts(#[trigger] source[i], decoder)
}

impl Package<serde_json::Value> {
    /// Decodes the extra metadata of the package with `decoder`, which gives
    /// `None` for a JSON value that it does not accept.
    ///
    /// A package without metadata stays without, and the decoder is not
    /// called. Otherwise the decoder is called once, on the metadata: where
    /// it gives a value, the result is the package with that value as its
    /// metadata; where it gives `None`, the error is a mismatch of the field
    /// `metadata`.
    pub fn decode_extra<M, F: Fn(&serde_json::Value) -> Option<M>>(self, decoder: &F) -> (r:
        Result<Package<M>, SchemaError>)
        requires
            accepts(self, *decoder),
        ensures
            match r {
                Ok(typed) => typed_package(self, typed, *decoder),
                Err(e) => e == SchemaError::Mismatch(Field::Metadata) && refuses(self, *decoder),
            },
    {
        let Package { name, authors, version, description, manifest_path, targets, metadata } =
            self;
        let extra = match metadata {
            None => None,
            Some(value) => match decoder(&value) {
                Some(extra) => Some(extra),
                None => {
                    return Err(SchemaError::Mismatch(Field::Metadata));
                },
            },
        };
        Ok(Package { name, authors, version, description, manifest_path, targets, metadata: extra })
    }
}

impl CargoMetadata<serde_json::Value> {
    /// Decodes the extra metadata of every package with `decoder`, which
    /// gives `None` for a JSON value that it does not accept.
    ///
    /// The decoder is called on the metadata of each package that has some,
    /// in order, up to the first that it does not accept. Where it accepts
    /// all, the result is the document with each metadata replaced by what
    /// the decoder gave. Where it does not, the error is a mismatch of the
    /// field `metadata`. So the result is `Ok` where the decoder gives `None`
    /// for none of the values.
    pub fn decode_extra<M, F: Fn(&serde_json::Value) -> Option<M>>(self, decoder: F) -> (r:
        Result<CargoMetadata<M>, SchemaError>)
        requires
            accepts_all(self.packages@, decoder),
        ensures
            match r {
                Ok(typed) => typed.target_directory == self.target_directory && typed_packages(
                    self.packages@,
                    typed.packages@,
                    decoder,
                ),
                Err(e) => e == SchemaError::Mismatch(Field::Metadata) && refuses_one(
                    self.packages@,
                    decoder,
                ),
            },
    {
        let CargoMetadata { packages, target_directory } = self;
        let ghost all = packages@;
        let mut typed: Vec<Package<M>> = Vec::new();
        for package in it: packages
            invariant
                it.seq() == all,
                all == self.packages@,
                accepts_all(all, decoder),
                typed_packages(all.take(it.index()), typed@, decoder),
        {
            let next = package.decode_extra(&decoder)?;
            typed.push(next);
        }
        proof {
            assert(all.take(all.len() as int) == all);
        }
        Ok(CargoMetadata { packages: typed, target_directory })
    }
}

} // verus!
