//! What holds of decoding, encoding and narrowing, for every document.

use vstd::prelude::*;

use crate::gateway::{narrowed, selects_view};
use crate::json::Json;
use crate::model::{PackageView, RootView, TargetView};
use crate::schema::{
    decode_each, decode_package, decode_root, decode_target, encode_package, encode_root,
    encode_target, package_reader, package_writer, target_reader, target_writer, text_reader,
    text_writer, Field, SchemaError,
};

verus! {

/// No two fields of the schema have the same key.
pub proof fn lemma_keys_differ()
    ensures
        forall|a: Field, b: Field| a != b ==> #[trigger] a.key() != #[trigger] b.key(),
{
    reveal_strlit("packages");
    reveal_strlit("target_directory");
    reveal_strlit("name");
    reveal_strlit("authors");
    reveal_strlit("version");
    reveal_strlit("description");
    reveal_strlit("manifest_path");
    reveal_strlit("targets");
    reveal_strlit("metadata");
    reveal_strlit("kind");
    reveal_strlit("crate_types");
    assert forall|a: Field, b: Field| a != b implies #[trigger] a.key() != #[trigger] b.key() by {
        if a.key().len() == b.key().len() {
            assert(a.key()[0] != b.key()[0]);
        }
    }
}

/// Where every item decodes, the result has one record for each item, in
/// order.
pub proof fn lemma_each_decoded<T>(items: Seq<Json>, one: spec_fn(Json) -> Result<T, SchemaError>)
    requires
        decode_each(items, one) is Ok,
    ensures
        decode_each(items, one)->Ok_0.len() == items.len(),
        forall|i: int|
            0 <= i < items.len() ==> one(#[trigger] items[i]) == Ok::<T, SchemaError>(
                decode_each(items, one)->Ok_0[i],
            ),
    decreases items.len(),
{
    if items.len() > 0 {
        lemma_each_decoded(items.drop_last(), one);
        assert forall|i: int| 0 <= i < items.len() implies one(#[trigger] items[i]) == Ok::<
            T,
            SchemaError,
        >(decode_each(items, one)->Ok_0[i]) by {
            if i < items.len() - 1 {
                assert(items.drop_last()[i] == items[i]);
            }
        }
    }
}

/// Records that are written one by one, and each of which is read back as
/// it was, are read back as they were.
pub proof fn lemma_each_round_trip<T>(
    records: Seq<T>,
    write: spec_fn(T) -> Json,
    read: spec_fn(Json) -> Result<T, SchemaError>,
)
    requires
        forall|i: int|
            0 <= i < records.len() ==> read(write(#[trigger] records[i])) == Ok::<T, SchemaError>(
                records[i],
            ),
    ensures
        decode_each(records.map_values(write), read) == Ok::<Seq<T>, SchemaError>(records),
    decreases records.len(),
{
    let items = records.map_values(write);
    if records.len() > 0 {
        lemma_each_round_trip(records.drop_last(), write, read);
        assert(items.drop_last() == records.drop_last().map_values(write));
        assert(records.drop_last().push(records.last()) == records);
    } else {
        assert(Seq::<T>::empty() == records);
    }
}

/// A target that is encoded decodes to itself.
pub proof fn lemma_target_round_trip(target: TargetView)
    ensures
        decode_target(encode_target(target)) == Ok::<TargetView, SchemaError>(target),
{
    lemma_keys_differ();
    lemma_each_round_trip(target.kind, text_writer(), text_reader(Field::Kind));
    lemma_each_round_trip(target.crate_types, text_writer(), text_reader(Field::CrateTypes));
}

/// A package that is encoded decodes to itself, unless its extra metadata is
/// the JSON `null`, which reads as no metadata.
pub proof fn lemma_package_round_trip(package: PackageView<Json>)
    requires
        package.metadata != Some(Json::Null),
    ensures
        decode_package(encode_package(package)) == Ok::<PackageView<Json>, SchemaError>(package),
{
    lemma_keys_differ();
    lemma_each_round_trip(package.authors, text_writer(), text_reader(Field::Authors));
    assert forall|i: int| 0 <= i < package.targets.len() implies target_reader()(
        target_writer()(#[trigger] package.targets[i]),
    ) == Ok::<TargetView, SchemaError>(package.targets[i]) by {
        lemma_target_round_trip(package.targets[i]);
    }
    lemma_each_round_trip(package.targets, target_writer(), target_reader());
}

/// Whether no package of the document has the JSON `null` as its extra
/// metadata.
pub open spec fn has_no_null_extra(root: RootView<Json>) -> bool {
    forall|i: int|
        0 <= i < root.packages.len() ==> (#[trigger] root.packages[i]).metadata != Some(Json::Null)
}

/// A document that is encoded decodes to itself, unless a package has the
/// JSON `null` as its extra metadata.
pub proof fn lemma_encode_decode(root: RootView<Json>)
    requires
        has_no_null_extra(root),
    ensures
        decode_root(encode_root(root)) == Ok::<RootView<Json>, SchemaError>(root),
{
    lemma_keys_differ();
    assert forall|i: int| 0 <= i < root.packages.len() implies package_reader()(
        package_writer()(#[trigger] root.packages[i]),
    ) == Ok::<PackageView<Json>, SchemaError>(root.packages[i]) by {
        lemma_package_round_trip(root.packages[i]);
    }
    lemma_each_round_trip(root.packages, package_writer(), package_reader());
}

/// No package that was decoded has the JSON `null` as its extra metadata.
pub proof fn lemma_decoded_package_extra(document: Json)
    requires
        decode_package(document) is Ok,
    ensures
        decode_package(document)->Ok_0.metadata != Some(Json::Null),
{
}

/// No document that was decoded has a package with the JSON `null` as its
/// extra metadata.
pub proof fn lemma_decoded_extra(document: Json)
    requires
        decode_root(document) is Ok,
    ensures
        has_no_null_extra(decode_root(document)->Ok_0),
{
    let items = document->Object_0[Field::Packages.key()]->Array_0;
    let root = decode_root(document)->Ok_0;
    lemma_each_decoded(items, package_reader());
    assert forall|i: int| 0 <= i < root.packages.len() implies (#[trigger] root.packages[i]).metadata
        != Some(Json::Null) by {
        lemma_decoded_package_extra(items[i]);
    }
}

/// Round trip: a document that was decoded from JSON, and is encoded and
/// decoded again, is the same document.
pub proof fn lemma_round_trip(document: Json)
    requires
        decode_root(document) is Ok,
    ensures
        decode_root(encode_root(decode_root(document)->Ok_0)) == decode_root(document),
{
    lemma_decoded_extra(document);
    lemma_encode_decode(decode_root(document)->Ok_0);
}

/// Whether two objects hold the same under the key of a field: both
/// nothing, or both the same document.
pub open spec fn agree_on(a: Map<Seq<char>, Json>, b: Map<Seq<char>, Json>, field: Field) -> bool {
    &&& a.contains_key(field.key()) == b.contains_key(field.key())
    &&& a.contains_key(field.key()) ==> a[field.key()] == b[field.key()]
}

/// Whether two documents are objects that hold the same under every field of
/// a target. They may differ in any other field.
pub open spec fn same_target(a: Json, b: Json) -> bool {
    &&& a matches Json::Object(fa)
    &&& b matches Json::Object(fb)
    &&& agree_on(fa, fb, Field::Kind)
    &&& agree_on(fa, fb, Field::CrateTypes)
    &&& agree_on(fa, fb, Field::Name)
}

/// Whether two documents are arrays of the same length whose items are
/// pairwise targets that `same_target` accepts.
pub open spec fn same_targets(a: Json, b: Json) -> bool {
    &&& a matches Json::Array(xs)
    &&& b matches Json::Array(ys)
    &&& xs.len() == ys.len()
    &&& forall|i: int| 0 <= i < xs.len() ==> same_target(#[trigger] xs[i], ys[i])
}

/// Whether two documents are objects that hold the same under every field of
/// a package, where the targets need only be the same in the fields of a
/// target. They may differ in any other field.
pub open spec fn same_package(a: Json, b: Json) -> bool {
    &&& a matches Json::Object(fa)
    &&& b matches Json::Object(fb)
    &&& agree_on(fa, fb, Field::Name)
    &&& agree_on(fa, fb, Field::Authors)
    &&& agree_on(fa, fb, Field::Version)
    &&& agree_on(fa, fb, Field::Description)
    &&& agree_on(fa, fb, Field::ManifestPath)
    &&& agree_on(fa, fb, Field::Metadata)
    &&& {
        ||| agree_on(fa, fb, Field::Targets)
        ||| {
            &&& fa.contains_key(Field::Targets.key())
            &&& fb.contains_key(Field::Targets.key())
            &&& same_targets(fa[Field::Targets.key()], fb[Field::Targets.key()])
        }
    }
}

/// Whether two documents are arrays of the same length whose items are
/// pairwise packages that `same_package` accepts.
pub open spec fn same_packages(a: Json, b: Json) -> bool {
    &&& a matches Json::Array(xs)
    &&& b matches Json::Array(ys)
    &&& xs.len() == ys.len()
    &&& forall|i: int| 0 <= i < xs.len() ==> same_package(#[trigger] xs[i], ys[i])
}

/// Whether two documents are objects that hold the same under every field
/// that the schema names, at the top and in every package and target. They
/// may differ in any field that the schema does not name.
pub open spec fn same_root(a: Json, b: Json) -> bool {
    &&& a matches Json::Object(fa)
    &&& b matches Json::Object(fb)
    &&& agree_on(fa, fb, Field::TargetDirectory)
    &&& {
        ||| agree_on(fa, fb, Field::Packages)
        ||| {
            &&& fa.contains_key(Field::Packages.key())
            &&& fb.contains_key(Field::Packages.key())
            &&& same_packages(fa[Field::Packages.key()], fb[Field::Packages.key()])
        }
    }
}

/// Items that decode alike one by one decode alike as a sequence.
pub proof fn lemma_each_alike<T>(
    xs: Seq<Json>,
    ys: Seq<Json>,
    one: spec_fn(Json) -> Result<T, SchemaError>,
)
    requires
        xs.len() == ys.len(),
        forall|i: int| 0 <= i < xs.len() ==> one(#[trigger] xs[i]) == one(ys[i]),
    ensures
        decode_each(xs, one) == decode_each(ys, one),
    decreases xs.len(),
{
    if xs.len() > 0 {
        lemma_each_alike(xs.drop_last(), ys.drop_last(), one);
    }
}

/// Two documents that differ only in fields that a target does not have
/// decode to the same target, or to the same error.
pub proof fn lemma_same_target(a: Json, b: Json)
    requires
        same_target(a, b),
    ensures
        decode_target(a) == decode_target(b),
{
}

/// Two documents that differ only in fields that a package and its targets
/// do not have decode to the same package, or to the same error.
pub proof fn lemma_same_package(a: Json, b: Json)
    requires
        same_package(a, b),
    ensures
        decode_package(a) == decode_package(b),
{
    let fa = a->Object_0;
    let fb = b->Object_0;
    if !agree_on(fa, fb, Field::Targets) {
        let xs = fa[Field::Targets.key()]->Array_0;
        let ys = fb[Field::Targets.key()]->Array_0;
        lemma_each_alike(xs, ys, target_reader());
    }
}

/// Forward compatibility: two documents that differ only in fields that the
/// schema does not name, at the top or in any package or target, decode to
/// the same document, or to the same error.
pub proof fn lemma_forward_compatible(a: Json, b: Json)
    requires
        same_root(a, b),
    ensures
        decode_root(a) == decode_root(b),
{
    let fa = a->Object_0;
    let fb = b->Object_0;
    if !agree_on(fa, fb, Field::Packages) {
        let xs = fa[Field::Packages.key()]->Array_0;
        let ys = fb[Field::Packages.key()]->Array_0;
        assert forall|i: int| 0 <= i < xs.len() implies package_reader()(#[trigger] xs[i])
            == package_reader()(ys[i]) by {
            lemma_same_package(xs[i], ys[i]);
        }
        lemma_each_alike(xs, ys, package_reader());
    }
}

/// A field that a target does not have, added to a JSON object or changed
/// in it, leaves what the object decodes to as a target.
pub proof fn lemma_unknown_target_field(fields: Map<Seq<char>, Json>, key: Seq<char>, value: Json)
    requires
        key != Field::Kind.key(),
        key != Field::CrateTypes.key(),
        key != Field::Name.key(),
    ensures
        decode_target(Json::Object(fields.insert(key, value))) == decode_target(
            Json::Object(fields),
        ),
{
}

/// A field that a package does not have, added to a JSON object or changed
/// in it, leaves what the object decodes to as a package.
pub proof fn lemma_unknown_package_field(
    fields: Map<Seq<char>, Json>,
    key: Seq<char>,
    value: Json,
)
    requires
        key != Field::Name.key(),
        key != Field::Authors.key(),
        key != Field::Version.key(),
        key != Field::Description.key(),
        key != Field::ManifestPath.key(),
        key != Field::Targets.key(),
        key != Field::Metadata.key(),
    ensures
        decode_package(Json::Object(fields.insert(key, value))) == decode_package(
            Json::Object(fields),
        ),
{
}

/// A field that a metadata document does not have at its top, added to a
/// JSON object or changed in it, leaves what the object decodes to.
pub proof fn lemma_unknown_root_field(fields: Map<Seq<char>, Json>, key: Seq<char>, value: Json)
    requires
        key != Field::Packages.key(),
        key != Field::TargetDirectory.key(),
    ensures
        decode_root(Json::Object(fields.insert(key, value))) == decode_root(Json::Object(fields)),
{
}

/// Whether `kept` holds the items of `all` that are wanted, all of them and
/// no others, in the order they have in `all`: `at` gives, for each item of
/// `kept`, where it stands in `all`.
pub open spec fn is_selection<A>(
    all: Seq<A>,
    kept: Seq<A>,
    wanted: spec_fn(A) -> bool,
    at: Seq<int>,
) -> bool {
    &&& at.len() == kept.len()
    &&& forall|i: int|
        0 <= i < at.len() ==> 0 <= #[trigger] at[i] < all.len() && kept[i] == all[at[i]] && wanted(
            kept[i],
        )
    &&& forall|i: int, j: int| 0 <= i < j < at.len() ==> #[trigger] at[i] < #[trigger] at[j]
    &&& forall|k: int|
        0 <= k < all.len() && wanted(#[trigger] all[k]) ==> exists|i: int|
            0 <= i < at.len() && #[trigger] at[i] == k
}

/// What is left of a sequence by `filter` is the selection of its wanted
/// items.
pub proof fn lemma_filter_selects<A>(all: Seq<A>, wanted: spec_fn(A) -> bool)
    ensures
        exists|at: Seq<int>| is_selection(all, all.filter(wanted), wanted, at),
    decreases all.len(),
{
    reveal(Seq::filter);
    if all.len() == 0 {
        assert(is_selection(all, all.filter(wanted), wanted, Seq::<int>::empty()));
    } else {
        let front = all.drop_last();
        lemma_filter_selects(front, wanted);
        let before = choose|at: Seq<int>| is_selection(front, front.filter(wanted), wanted, at);
        let last = all.len() - 1;
        let at = if wanted(all.last()) {
            before.push(last)
        } else {
            before
        };
        let kept = all.filter(wanted);
        assert forall|k: int| 0 <= k < all.len() && wanted(#[trigger] all[k]) implies exists|
            i: int,
        |
            0 <= i < at.len() && #[trigger] at[i] == k by {
            if k < last {
                assert(wanted(front[k]));
                let i = choose|i: int| 0 <= i < before.len() && #[trigger] before[i] == k;
                assert(at[i] == k);
            } else {
                assert(at[before.len() as int] == k);
            }
        }
        assert(is_selection(all, kept, wanted, at));
    }
}

/// Narrowing: every package that is kept has the name and the manifest path
/// asked for; every package that has both is kept; and the kept packages
/// stand in the order they had.
pub proof fn lemma_narrowed<X>(root: RootView<X>, name: Seq<char>, manifest: Seq<char>)
    ensures
        narrowed(root, Some(name), manifest).target_directory == root.target_directory,
        forall|i: int|
            0 <= i < narrowed(root, Some(name), manifest).packages.len() ==> {
                &&& (#[trigger] narrowed(root, Some(name), manifest).packages[i]).name == name
                &&& narrowed(root, Some(name), manifest).packages[i].manifest_path == manifest
            },
        exists|at: Seq<int>|
            is_selection(
                root.packages,
                narrowed(root, Some(name), manifest).packages,
                selects_view(name, manifest),
                at,
            ),
{
    lemma_filter_selects(root.packages, selects_view::<X>(name, manifest));
    let kept = narrowed(root, Some(name), manifest).packages;
    let at = choose|at: Seq<int>|
        is_selection(root.packages, kept, selects_view::<X>(name, manifest), at);
    assert forall|i: int| 0 <= i < kept.len() implies (#[trigger] kept[i]).name == name
        && kept[i].manifest_path == manifest by {
        assert(0 <= at[i] < root.packages.len());
    }
}

} // verus!
