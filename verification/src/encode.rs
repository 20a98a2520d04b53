//! Encoding: from the records to a JSON value.

use vstd::prelude::*;

use crate::json::{
    array_value, duplicate, fields_of, json_of, jsons, no_fields, null_value, object_value,
    put_field, text_value, Json,
};
use crate::model::{
    as_json, package_views, target_views, texts, CargoMetadata, Package, Target,
};
use crate::schema::{
    encode_extra, encode_optional_text, encode_package, encode_root, encode_target,
    encode_text_list, package_writer, target_writer, text_writer, Field,
};

verus! {

fn text_list_value(list: &Vec<String>) -> (r: serde_json::Value)
    ensures
        json_of(r) == encode_text_list(texts(list@)),
{
    let mut items: Vec<serde_json::Value> = Vec::new();
    let mut i: usize = 0;
    while i < list.len()
        invariant
            i <= list.len(),
            jsons(items@) == texts(list@).take(i as int).map_values(text_writer()),
        decreases list.len() - i,
    {
        let item = text_value(list[i].clone());
        proof {
            assert(jsons(items@.push(item)) == jsons(items@).push(json_of(item)));
        }
        items.push(item);
        i = i + 1;
    }
    proof {
        assert(texts(list@).take(i as int) == texts(list@));
    }
    array_value(items)
}

fn optional_text_value(text: &Option<String>) -> (r: serde_json::Value)
    ensures
        json_of(r) == encode_optional_text(
            match *text {
                Some(t) => Some(t@),
                None => None,
            },
        ),
{
    match text {
        Some(t) => text_value(t.clone()),
        None => null_value(),
    }
}

fn extra_value(extra: &Option<serde_json::Value>) -> (r: serde_json::Value)
    ensures
        json_of(r) == encode_extra(
            match *extra {
                Some(m) => Some(json_of(m)),
                None => None,
            },
        ),
{
    match extra {
        Some(m) => duplicate(m),
        None => null_value(),
    }
}

impl Target {
    /// Encodes the target as a JSON value: see [`encode_target`].
    pub fn to_json(&self) -> (r: serde_json::Value)
        ensures
            json_of(r) == encode_target(self@),
    {
        let mut fields = no_fields();
        proof {
            assert(fields_of(fields) == Map::<Seq<char>, Json>::empty());
        }
        put_field(&mut fields, Field::Kind.name().to_owned(), text_list_value(&self.kind));
        put_field(
            &mut fields,
            Field::CrateTypes.name().to_owned(),
            text_list_value(&self.crate_types),
        );
        put_field(&mut fields, Field::Name.name().to_owned(), text_value(self.name.clone()));
        object_value(fields)
    }
}

fn target_list_value(list: &Vec<Target>) -> (r: serde_json::Value)
    ensures
        json_of(r) == Json::Array(target_views(list@).map_values(target_writer())),
{
    let mut items: Vec<serde_json::Value> = Vec::new();
    let mut i: usize = 0;
    while i < list.len()
        invariant
            i <= list.len(),
            jsons(items@) == target_views(list@).take(i as int).map_values(target_writer()),
        decreases list.len() - i,
    {
        let item = list[i].to_json();
        proof {
            assert(jsons(items@.push(item)) == jsons(items@).push(json_of(item)));
        }
        items.push(item);
        i = i + 1;
    }
    proof {
        assert(target_views(list@).take(i as int) == target_views(list@));
    }
    array_value(items)
}

impl Package<serde_json::Value> {
    /// Encodes the package as a JSON value: see [`encode_package`].
    pub fn to_json(&self) -> (r: serde_json::Value)
        ensures
            json_of(r) == encode_package(self@),
    {
        let mut fields = no_fields();
        proof {
            assert(fields_of(fields) == Map::<Seq<char>, Json>::empty());
        }
        put_field(&mut fields, Field::Name.name().to_owned(), text_value(self.name.clone()));
        put_field(&mut fields, Field::Authors.name().to_owned(), text_list_value(&self.authors));
        put_field(
            &mut fields,
            Field::Version.name().to_owned(),
            text_value(self.version.clone()),
        );
        put_field(
            &mut fields,
            Field::Description.name().to_owned(),
            optional_text_value(&self.description),
        );
        put_field(
            &mut fields,
            Field::ManifestPath.name().to_owned(),
            text_value(self.manifest_path.clone()),
        );
        put_field(
            &mut fields,
            Field::Targets.name().to_owned(),
            target_list_value(&self.targets),
        );
        put_field(&mut fields, Field::Metadata.name().to_owned(), extra_value(&self.metadata));
        object_value(fields)
    }
}

fn package_list_value(list: &Vec<Package<serde_json::Value>>) -> (r: serde_json::Value)
    ensures
        json_of(r) == Json::Array(package_views(list@, as_json()).map_values(package_writer())),
{
    let mut items: Vec<serde_json::Value> = Vec::new();
    let mut i: usize = 0;
    while i < list.len()
        invariant
            i <= list.len(),
            jsons(items@) == package_views(list@, as_json()).take(i as int).map_values(
                package_writer(),
            ),
        decreases list.len() - i,
    {
        let item = list[i].to_json();
        proof {
            assert(jsons(items@.push(item)) == jsons(items@).push(json_of(item)));
        }
        items.push(item);
        i = i + 1;
    }
    proof {
        assert(package_views(list@, as_json()).take(i as int) == package_views(
            list@,
            as_json(),
        ));
    }
    array_value(items)
}

impl CargoMetadata<serde_json::Value> {
    /// Encodes the document as a JSON value: see [`encode_root`].
    pub fn to_json(&self) -> (r: serde_json::Value)
        ensures
            json_of(r) == encode_root(self@),
    {
        let mut fields = no_fields();
        proof {
            assert(fields_of(fields) == Map::<Seq<char>, Json>::empty());
        }
        put_field(
            &mut fields,
            Field::Packages.name().to_owned(),
            package_list_value(&self.packages),
        );
        put_field(
            &mut fields,
            Field::TargetDirectory.name().to_owned(),
            text_value(self.target_directory.clone()),
        );
        object_value(fields)
    }
}

/// Whether `plain` is `source` with its extra metadata encoded: the other
/// fields are those of `source`, and the metadata is absent where `source`
/// has none, and otherwise something that `encoder` gives for the metadata
/// that `source` has.
pub open spec fn plain_package<M, F: Fn(M) -> serde_json::Value>(
    source: Package<M>,
    plain: Package<serde_json::Value>,
    encoder: F,
) -> bool {
    &&& plain.name == source.name
    &&& plain.authors == source.authors
    &&& plain.version == source.version
    &&& plain.description == source.description
    &&& plain.manifest_path == source.manifest_path
    &&& plain.targets == source.targets
    &&& match source.metadata {
        None => plain.metadata is None,
        Some(extra) => plain.metadata matches Some(value) && encoder.ensures((extra,), value),
    }
}

/// Whether `encoder` can be called on the extra metadata of `source`, where
/// it has some.
pub open spec fn encodes<M, F: Fn(M) -> serde_json::Value>(source: Package<M>, encoder: F) -> bool {
    source.metadata is Some ==> encoder.requires((source.metadata->0,))
}

/// Whether `plain` holds, for each package of `source` in order, that
/// package with its extra metadata encoded.
pub open spec fn plain_packages<M, F: Fn(M) -> serde_json::Value>(
    source: Seq<Package<M>>,
    plain: Seq<Package<serde_json::Value>>,
    encoder: F,
) -> bool {
    &&& plain.len() == source.len()
    &&& forall|i: int|
        0 <= i < source.len() ==> plain_package(#[trigger] source[i], plain[i], encoder)
}

/// Whether `encoder` can be called on the extra metadata of every package of
/// `source`.
pub open spec fn encodes_all<M, F: Fn(M) -> serde_json::Value>(
    source: Seq<Package<M>>,
    encoder: F,
) -> bool {
    forall|i: int| 0 <= i < source.len() ==> encodes(#[trigger] source[i], encoder)
}

impl<M> Package<M> {
    /// Encodes the extra metadata of the package with `encoder`, so that the
    /// package can be encoded as JSON.
    ///
    /// A package without metadata stays without, and the encoder is not
    /// called. Otherwise the encoder is called once, and what it gives is the
    /// metadata of the result.
    pub fn encode_extra<F: Fn(M) -> serde_json::Value>(self, encoder: &F) -> (r: Package<
        serde_json::Value,
    >)
        requires
            encodes(self, *encoder),
        ensures
            plain_package(self, r, *encoder),
    {
        let Package { name, authors, version, description, manifest_path, targets, metadata } =
            self;
        let value = match metadata {
            None => None,
            Some(extra) => Some(encoder(extra)),
        };
        Package { name, authors, version, description, manifest_path, targets, metadata: value }
    }
}

impl<M> CargoMetadata<M> {
    /// Encodes the extra metadata of every package with `encoder`, in order,
    /// so that the document can be encoded as JSON.
    pub fn encode_extra<F: Fn(M) -> serde_json::Value>(self, encoder: F) -> (r: CargoMetadata<
        serde_json::Value,
    >)
        requires
            encodes_all(self.packages@, encoder),
        ensures
            r.target_directory == self.target_directory,
            plain_packages(self.packages@, r.packages@, encoder),
    {
        let CargoMetadata { packages, target_directory } = self;
        let ghost all = packages@;
        let mut plain: Vec<Package<serde_json::Value>> = Vec::new();
        for package in it: packages
            invariant
                it.seq() == all,
                encodes_all(all, encoder),
                plain_packages(all.take(it.index()), plain@, encoder),
        {
            let next = package.encode_extra(&encoder);
            plain.push(next);
        }
        proof {
            assert(all.take(all.len() as int) == all);
        }
        CargoMetadata { packages: plain, target_directory }
    }
}

} // verus!
