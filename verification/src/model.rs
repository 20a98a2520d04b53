//! The records of a metadata document, and their mathematical views.

use vstd::prelude::*;

use crate::json::{json_of, Json};

verus! {

/// One build target of a package.
#[derive(Debug, Clone, PartialEq, Eq)]
pub struct Target {
    /// The kinds of the target, in the tool's order.
    pub kind: Vec<String>,
    /// The crate types of the target, in the tool's order.
    pub crate_types: Vec<String>,
    pub name: String,
}

/// One package of the workspace. `Metadata` is what the package's extra
/// metadata was decoded into.
#[derive(Debug, Clone, PartialEq, Eq)]
pub struct Package<Metadata> {
    pub name: String,
    pub authors: Vec<String>,
    pub version: String,
    pub description: Option<String>,
    /// The path of the package's manifest, as the tool wrote it.
    pub manifest_path: String,
    pub targets: Vec<Target>,
    /// `None` where the manifest has no extra metadata.
    pub metadata: Option<Metadata>,
}

/// A metadata document: the packages in the tool's order, and the directory
/// that build output goes to.
#[derive(Debug, Clone, PartialEq, Eq)]
pub struct CargoMetadata<Metadata = serde_json::Value> {
    pub packages: Vec<Package<Metadata>>,
    pub target_directory: String,
}

/// The texts of a sequence of strings.
pub open spec fn texts(strings: Seq<String>) -> Seq<Seq<char>> {
    strings.map_values(|s: String| s@)
}

/// What a [`Target`] says.
pub struct TargetView {
    pub kind: Seq<Seq<char>>,
    pub crate_types: Seq<Seq<char>>,
    pub name: Seq<char>,
}

/// What a [`Package`] says, with extra metadata seen as an `X`.
pub struct PackageView<X> {
    pub name: Seq<char>,
    pub authors: Seq<Seq<char>>,
    pub version: Seq<char>,
    pub description: Option<Seq<char>>,
    pub manifest_path: Seq<char>,
    pub targets: Seq<TargetView>,
    pub metadata: Option<X>,
}

/// What a [`CargoMetadata`] says, with extra metadata seen as an `X`.
pub struct RootView<X> {
    pub packages: Seq<PackageView<X>>,
    pub target_directory: Seq<char>,
}

impl View for Target {
    type V = TargetView;

    open spec fn view(&self) -> TargetView {
        TargetView {
            kind: texts(self.kind@),
            crate_types: texts(self.crate_types@),
            name: self.name@,
        }
    }
}

/// The views of a sequence of targets.
pub open spec fn target_views(targets: Seq<Target>) -> Seq<TargetView> {
    targets.map_values(|t: Target| t@)
}

impl<Metadata> Package<Metadata> {
    /// The view of the package, where `extra` says how its metadata is seen.
    pub open spec fn view_with<X>(self, extra: spec_fn(Metadata) -> X) -> PackageView<X> {
        PackageView {
            name: self.name@,
            authors: texts(self.authors@),
            version: self.version@,
            description: match self.description {
                Some(text) => Some(text@),
                None => None,
            },
            manifest_path: self.manifest_path@,
            targets: target_views(self.targets@),
            metadata: match self.metadata {
                Some(m) => Some(extra(m)),
                None => None,
            },
        }
    }
}

/// The views of a sequence of packages, where `extra` says how metadata is
/// seen.
pub open spec fn package_views<Metadata, X>(
    packages: Seq<Package<Metadata>>,
    extra: spec_fn(Metadata) -> X,
) -> Seq<PackageView<X>> {
    packages.map_values(|p: Package<Metadata>| p.view_with(extra))
}

impl<Metadata> CargoMetadata<Metadata> {
    /// The view of the document, where `extra` says how metadata is seen.
    pub open spec fn view_with<X>(self, extra: spec_fn(Metadata) -> X) -> RootView<X> {
        RootView {
            packages: package_views(self.packages@, extra),
            target_directory: self.target_directory@,
        }
    }
}

/// Metadata that is a JSON value, seen as the document it holds.
pub open spec fn as_json() -> spec_fn(serde_json::Value) -> Json {
    |m: serde_json::Value| json_of(m)
}

impl View for Package<serde_json::Value> {
    type V = PackageView<Json>;

    open spec fn view(&self) -> PackageView<Json> {
        self.view_with(as_json())
    }
}

impl View for CargoMetadata<serde_json::Value> {
    type V = RootView<Json>;

    open spec fn view(&self) -> RootView<Json> {
        self.view_with(as_json())
    }
}

} // verus!
