//! The gateway to the build tool: what to run, and what to make of the
//! output.
//!
//! The library does not run the tool. One of the four operations gives a
//! [`Query`], whose `invocation` the caller runs; [`Query::conclude`] takes
//! what came of the run and gives the decoded document.

use vstd::prelude::*;
use vstd::utf8::{decode_utf8, encode_utf8_decode_utf8, valid_utf8};

use crate::decode::{refuses_one, typed_packages, DecodeError};
use crate::host::{join_path, utf8_text};
use crate::json::{parsed, Json};
use crate::model::{
    as_json, package_views, texts, CargoMetadata, Package, PackageView, RootView,
};
use crate::schema::{decode_root, Field, SchemaError};

verus! {

/// A variable of the environment that an operation cannot do without.
#[derive(Clone, Copy, Debug, PartialEq, Eq, Structural)]
pub enum Variable {
    /// `CARGO_MANIFEST_DIR`: the directory of the manifest of the package
    /// under build.
    ManifestDir,
    /// `CARGO_PKG_NAME`: the name of the package under build.
    PackageName,
}

impl Variable {
    /// The name of the variable in the environment.
    pub open spec fn key(self) -> Seq<char> {
        match self {
            Variable::ManifestDir => "CARGO_MANIFEST_DIR"@,
            Variable::PackageName => "CARGO_PKG_NAME"@,
        }
    }

    /// The name of the variable in the environment.
    pub fn name(self) -> (r: &'static str)
        ensures
            r@ == self.key(),
    {
        match self {
            Variable::ManifestDir => "CARGO_MANIFEST_DIR",
            Variable::PackageName => "CARGO_PKG_NAME",
        }
    }
}

/// What the environment of a build script says, as far as the library reads
/// it. A variable that is not set is `None`.
#[derive(Debug, Clone, PartialEq, Eq)]
pub struct Ambient {
    /// `CARGO_MANIFEST_DIR`.
    pub manifest_dir: Option<String>,
    /// `CARGO_PKG_NAME`.
    pub package_name: Option<String>,
    /// `CARGO`: the build tool to run in place of `cargo`.
    pub cargo: Option<String>,
}

/// A child process to run: the program, and its arguments in order.
#[derive(Debug, Clone, PartialEq, Eq)]
pub struct Invocation {
    pub program: String,
    pub args: Vec<String>,
}

/// A metadata query that waits for the tool to be run.
#[derive(Debug, Clone, PartialEq, Eq)]
pub struct Query {
    /// What to run.
    pub invocation: Invocation,
    /// The manifest that the tool is asked about, as text.
    pub manifest: String,
    /// The package to narrow the document to; `None` to keep all packages.
    pub package: Option<String>,
}

/// Why an operation has no document to give.
#[derive(Debug)]
pub enum MetadataError {
    /// A variable that the operation needs is not set.
    MissingContext(Variable),
    /// The manifest path cannot be written as text.
    InvalidManifestPath,
    /// The tool could not be run, or its output could not be read.
    Spawn(std::io::Error),
    /// The output of the tool is not UTF-8.
    NotUtf8,
    /// The output of the tool is not a metadata document.
    Decode(DecodeError),
}

/// The text of a string that may be absent.
pub open spec fn text_in_option(text: Option<String>) -> Option<Seq<char>> {
    match text {
        Some(t) => Some(t@),
        None => None,
    }
}

/// The program to run: what `CARGO` holds where it is set and not empty, and
/// `cargo` otherwise.
pub open spec fn program_for(cargo: Option<Seq<char>>) -> Seq<char> {
    match cargo {
        Some(program) if program.len() > 0 => program,
        _ => "cargo"@,
    }
}

/// The arguments of the tool for a manifest, in order.
pub open spec fn arguments_for(manifest: Seq<char>) -> Seq<Seq<char>> {
    seq![
        "metadata"@,
        "--offline"@,
        "--locked"@,
        "--frozen"@,
        "--no-deps"@,
        "--format-version=1"@,
        "--manifest-path"@,
        manifest,
    ]
}

/// What a [`Query`] says.
pub struct QueryView {
    pub program: Seq<char>,
    pub args: Seq<Seq<char>>,
    pub manifest: Seq<char>,
    pub package: Option<Seq<char>>,
}

impl View for Query {
    type V = QueryView;

    open spec fn view(&self) -> QueryView {
        QueryView {
            program: self.invocation.program@,
            args: texts(self.invocation.args@),
            manifest: self.manifest@,
            package: text_in_option(self.package),
        }
    }
}

/// The query for a manifest: the tool that `cargo` selects, asked about that
/// manifest.
pub open spec fn query_for(
    cargo: Option<Seq<char>>,
    manifest: Seq<char>,
    package: Option<Seq<char>>,
) -> QueryView {
    QueryView {
        program: program_for(cargo),
        args: arguments_for(manifest),
        manifest,
        package,
    }
}

/// The program to run, given what `CARGO` holds.
pub fn tool_program(cargo: &Option<String>) -> (r: String)
    ensures
        r@ == program_for(text_in_option(*cargo)),
{
    match cargo {
        Some(program) => {
            if program.as_str().is_empty() {
                "cargo".to_owned()
            } else {
                program.clone()
            }
        },
        None => "cargo".to_owned(),
    }
}

/// The arguments to run the tool with, for a manifest.
pub fn tool_arguments(manifest: &str) -> (r: Vec<String>)
    ensures
        texts(r@) == arguments_for(manifest@),
{
    let mut args: Vec<String> = Vec::new();
    args.push("metadata".to_owned());
    args.push("--offline".to_owned());
    args.push("--locked".to_owned());
    args.push("--frozen".to_owned());
    args.push("--no-deps".to_owned());
    args.push("--format-version=1".to_owned());
    args.push("--manifest-path".to_owned());
    args.push(manifest.to_owned());
    args
}

fn query(ambient: &Ambient, manifest: String, package: Option<String>) -> (r: Query)
    ensures
        r@ == query_for(text_in_option(ambient.cargo), manifest@, text_in_option(package)),
{
    let program = tool_program(&ambient.cargo);
    let args = tool_arguments(manifest.as_str());
    Query { invocation: Invocation { program, args }, manifest, package }
}

/// Plans the query for all packages of the workspace of the manifest given.
///
/// `manifest` is the path as text, or `None` where the path has no text
/// form: only then is there an error, `InvalidManifestPath`.
pub fn cargo_metadata_for(ambient: &Ambient, manifest: Option<&str>) -> (r: Result<
    Query,
    MetadataError,
>)
    ensures
        match manifest {
            None => r matches Err(MetadataError::InvalidManifestPath),
            Some(path) => r matches Ok(q) && q@ == query_for(
                text_in_option(ambient.cargo),
                path@,
                None,
            ),
        },
{
    match manifest {
        None => Err(MetadataError::InvalidManifestPath),
        Some(path) => Ok(query(ambient, path.to_owned(), None)),
    }
}

/// Plans the query for the one package that has the name given and the
/// manifest given.
///
/// `manifest` is the path as text, or `None` where the path has no text
/// form: only then is there an error, `InvalidManifestPath`.
pub fn crate_metadata_for(ambient: &Ambient, manifest: Option<&str>, name: &str) -> (r: Result<
    Query,
    MetadataError,
>)
    ensures
        match manifest {
            None => r matches Err(MetadataError::InvalidManifestPath),
            Some(path) => r matches Ok(q) && q@ == query_for(
                text_in_option(ambient.cargo),
                path@,
                Some(name@),
            ),
        },
{
    match manifest {
        None => Err(MetadataError::InvalidManifestPath),
        Some(path) => Ok(query(ambient, path.to_owned(), Some(name.to_owned()))),
    }
}

/// Plans the query for all packages of the workspace of the package under
/// build.
///
/// The manifest is `Cargo.toml` in the directory that `CARGO_MANIFEST_DIR`
/// names, joined as the platform joins paths. There is an error only where
/// that variable is not set, and then no query to run.
pub fn cargo_metadata(ambient: &Ambient) -> (r: Result<Query, MetadataError>)
    ensures
        match ambient.manifest_dir {
            None => r matches Err(MetadataError::MissingContext(Variable::ManifestDir)),
            Some(_) => r matches Ok(q) && q@ == query_for(
                text_in_option(ambient.cargo),
                q.manifest@,
                None,
            ),
        },
{
    match &ambient.manifest_dir {
        None => Err(MetadataError::MissingContext(Variable::ManifestDir)),
        Some(directory) => {
            let manifest = join_path(directory.as_str(), "Cargo.toml");
            Ok(query(ambient, manifest, None))
        },
    }
}

/// Plans the query for the package under build alone.
///
/// The manifest is `Cargo.toml` in the directory that `CARGO_MANIFEST_DIR`
/// names, joined as the platform joins paths; the package is the one that
/// `CARGO_PKG_NAME` names. There is an error only where one of the two is
/// not set, and then no query to run; where both are missing, the error
/// names `CARGO_MANIFEST_DIR`.
pub fn crate_metadata(ambient: &Ambient) -> (r: Result<Query, MetadataError>)
    ensures
        match (ambient.manifest_dir, ambient.package_name) {
            (None, _) => r matches Err(MetadataError::MissingContext(Variable::ManifestDir)),
            (Some(_), None) => r matches Err(
                MetadataError::MissingContext(Variable::PackageName),
            ),
            (Some(_), Some(name)) => r matches Ok(q) && q@ == query_for(
                text_in_option(ambient.cargo),
                q.manifest@,
                Some(name@),
            ),
        },
{
    match &ambient.manifest_dir {
        None => Err(MetadataError::MissingContext(Variable::ManifestDir)),
        Some(directory) => match &ambient.package_name {
            None => Err(MetadataError::MissingContext(Variable::PackageName)),
            Some(name) => {
                let manifest = join_path(directory.as_str(), "Cargo.toml");
                Ok(query(ambient, manifest, Some(name.clone())))
            },
        },
    }
}

/// Whether a package has the name and the manifest path given, both compared
/// as text.
pub open spec fn selects<Metadata>(name: Seq<char>, manifest: Seq<char>) -> spec_fn(
    Package<Metadata>,
) -> bool {
    |p: Package<Metadata>| p.name@ == name && p.manifest_path@ == manifest
}

impl<Metadata> CargoMetadata<Metadata> {
    /// Keeps the packages that have the name and the manifest path given, in
    /// the order they stand in; the rest of the document stays as it is.
    /// Where no package has both, the document is left without packages.
    pub fn narrow(self, name: &str, manifest: &str) -> (r: CargoMetadata<Metadata>)
        ensures
            r.packages@ == self.packages@.filter(selects(name@, manifest@)),
            r.target_directory == self.target_directory,
    {
        let CargoMetadata { packages, target_directory } = self;
        let wanted_name = name.to_owned();
        let wanted_manifest = manifest.to_owned();
        let ghost all = packages@;
        let ghost wanted = selects::<Metadata>(name@, manifest@);
        let mut kept: Vec<Package<Metadata>> = Vec::new();
        for package in it: packages
            invariant
                it.seq() == all,
                wanted_name@ == name@,
                wanted_manifest@ == manifest@,
                wanted == selects::<Metadata>(name@, manifest@),
                kept@ == all.take(it.index()).filter(wanted),
        {
            proof {
                reveal(Seq::filter);
                let next = all.take(it.index() + 1);
                assert(next.drop_last() == all.take(it.index()));
            }
            if package.name == wanted_name && package.manifest_path == wanted_manifest {
                kept.push(package);
            }
        }
        proof {
            assert(all.take(all.len() as int) == all);
        }
        CargoMetadata { packages: kept, target_directory }
    }
}

/// Whether the view of a package has the name and the manifest path given.
pub open spec fn selects_view<X>(name: Seq<char>, manifest: Seq<char>) -> spec_fn(
    PackageView<X>,
) -> bool {
    |p: PackageView<X>| p.name == name && p.manifest_path == manifest
}

/// A document narrowed to a package: with `Some` name, the packages of that
/// name and of the manifest given, in their order; with `None`, the document
/// as it is.
pub open spec fn narrowed<X>(
    root: RootView<X>,
    package: Option<Seq<char>>,
    manifest: Seq<char>,
) -> RootView<X> {
    match package {
        None => root,
        Some(name) => RootView {
            packages: root.packages.filter(selects_view(name, manifest)),
            target_directory: root.target_directory,
        },
    }
}

/// To narrow packages and then view them is to view them and then narrow the
/// views.
pub proof fn lemma_narrow_views<Metadata, X>(
    packages: Seq<Package<Metadata>>,
    extra: spec_fn(Metadata) -> X,
    name: Seq<char>,
    manifest: Seq<char>,
)
    ensures
        package_views(packages.filter(selects(name, manifest)), extra) == package_views(
            packages,
            extra,
        ).filter(selects_view(name, manifest)),
    decreases packages.len(),
{
    reveal(Seq::filter);
    if packages.len() > 0 {
        let front = packages.drop_last();
        lemma_narrow_views(front, extra, name, manifest);
        assert(package_views(packages, extra).drop_last() == package_views(front, extra));
    }
}

/// The document that the outcome of a run holds: the output of the tool read
/// as UTF-8, then as JSON, which [`parsed`] names, then against the schema.
/// `None` where the tool did not run or one of the steps fails.
pub open spec fn decoded(outcome: Result<Vec<u8>, std::io::Error>) -> Option<RootView<Json>> {
    match outcome {
        Ok(bytes) if valid_utf8(bytes@) => match parsed(decode_utf8(bytes@)) {
            Some(document) => match decode_root(document) {
                Ok(root) => Some(root),
                Err(_) => None,
            },
            None => None,
        },
        _ => None,
    }
}

/// Whether `error` is the one owed for an outcome that holds no document:
/// `Spawn` with the error of the run; `NotUtf8` for output that is not
/// UTF-8; `Decode` with `Syntax` for text that is not JSON; `Decode` with
/// `Schema`, and the mismatch, for JSON that does not fit the schema.
pub open spec fn fails_with(
    outcome: Result<Vec<u8>, std::io::Error>,
    error: MetadataError,
) -> bool {
    match outcome {
        Err(e) => error matches MetadataError::Spawn(x) && x == e,
        Ok(bytes) => if !valid_utf8(bytes@) {
            error is NotUtf8
        } else {
            match parsed(decode_utf8(bytes@)) {
                None => error matches MetadataError::Decode(DecodeError::Syntax(_)),
                Some(document) => match decode_root(document) {
                    Err(e) => error matches MetadataError::Decode(DecodeError::Schema(x)) && x
                        == e,
                    Ok(_) => false,
                },
            }
        },
    }
}

/// The packages that a query keeps: those of the name and the manifest given
/// where there is a name, and all otherwise.
pub open spec fn kept<Metadata>(
    packages: Seq<Package<Metadata>>,
    package: Option<String>,
    manifest: String,
) -> Seq<Package<Metadata>> {
    match package {
        None => packages,
        Some(name) => packages.filter(selects(name@, manifest@)),
    }
}

/// Whether `r` is what [`Query::conclude_with`] owes where the output holds
/// the document `source`.
pub open spec fn concluded_with<M, F: Fn(&serde_json::Value) -> Option<M>>(
    query: Query,
    source: CargoMetadata<serde_json::Value>,
    decoder: F,
    r: Result<CargoMetadata<M>, MetadataError>,
) -> bool {
    match r {
        Ok(found) => found.target_directory == source.target_directory && exists|
            typed: Seq<Package<M>>,
        |
            #[trigger] typed_packages(source.packages@, typed, decoder) && found.packages@
                == kept(typed, query.package, query.manifest),
        Err(e) => e matches MetadataError::Decode(
            DecodeError::Schema(SchemaError::Mismatch(Field::Metadata)),
        ) && refuses_one(source.packages@, decoder),
    }
}

fn read_output(outcome: Result<Vec<u8>, std::io::Error>) -> (r: Result<
    CargoMetadata<serde_json::Value>,
    MetadataError,
>)
    ensures
        match decoded(outcome) {
            None => r matches Err(e) && fails_with(outcome, e),
            Some(root) => r matches Ok(found) && found@ == root,
        },
{
    let bytes = match outcome {
        Ok(bytes) => bytes,
        Err(e) => {
            return Err(MetadataError::Spawn(e));
        },
    };
    let text = match utf8_text(bytes.as_slice()) {
        Some(text) => text,
        None => {
            return Err(MetadataError::NotUtf8);
        },
    };
    proof {
        encode_utf8_decode_utf8(text@);
    }
    match CargoMetadata::from_text(text) {
        Ok(root) => Ok(root),
        Err(e) => Err(MetadataError::Decode(e)),
    }
}

impl Query {
    /// The packages of a document that the query asks for: see [`kept`].
    pub fn select<Metadata>(&self, root: CargoMetadata<Metadata>) -> (r: CargoMetadata<Metadata>)
        ensures
            r.packages@ == kept(root.packages@, self.package, self.manifest),
            r.target_directory == root.target_directory,
    {
        match &self.package {
            None => root,
            Some(name) => root.narrow(name.as_str(), self.manifest.as_str()),
        }
    }

    /// Takes what came of running `self.invocation` and gives the document,
    /// with the extra metadata of each package as JSON.
    ///
    /// `outcome` is the standard output of the tool, or the error that kept
    /// it from running. Where it holds no document, the error says which step
    /// failed: see [`fails_with`]. Where it holds one, the result is that
    /// document, narrowed as the query asks.
    pub fn conclude(&self, outcome: Result<Vec<u8>, std::io::Error>) -> (r: Result<
        CargoMetadata<serde_json::Value>,
        MetadataError,
    >)
        ensures
            match decoded(outcome) {
                None => r matches Err(e) && fails_with(outcome, e),
                Some(root) => r matches Ok(found) && found@ == narrowed(
                    root,
                    self@.package,
                    self@.manifest,
                ),
            },
    {
        let root = read_output(outcome)?;
        proof {
            if self.package is Some {
                lemma_narrow_views(
                    root.packages@,
                    as_json(),
                    self.package->0@,
                    self.manifest@,
                );
            }
        }
        Ok(self.select(root))
    }

    /// Takes what came of running `self.invocation` and gives the document,
    /// with the extra metadata of each package decoded by `decoder`, which
    /// gives `None` for a JSON value that it does not accept.
    ///
    /// Where the outcome holds no document, the error says which step
    /// failed: see [`fails_with`]. Where it holds one, the decoder is called
    /// on the metadata of every package of it, not only of those that the
    /// query asks for. If it accepts all, the result is the typed document,
    /// narrowed as the query asks; if not, the error is a mismatch of the
    /// field `metadata`. See [`concluded_with`].
    pub fn conclude_with<M, F: Fn(&serde_json::Value) -> Option<M>>(
        &self,
        outcome: Result<Vec<u8>, std::io::Error>,
        decoder: F,
    ) -> (r: Result<CargoMetadata<M>, MetadataError>)
        requires
            forall|value: &serde_json::Value| decoder.requires((value,)),
        ensures
            match decoded(outcome) {
                None => r matches Err(e) && fails_with(outcome, e),
                Some(root) => exists|source: CargoMetadata<serde_json::Value>|
                    source@ == root && #[trigger] concluded_with(*self, source, decoder, r),
            },
    {
        let source = read_output(outcome)?;
        let ghost plain = source;
        let r = match source.decode_extra(decoder) {
            Ok(typed) => Ok(self.select(typed)),
            Err(e) => Err(MetadataError::Decode(DecodeError::Schema(e))),
        };
        proof {
            assert(concluded_with(*self, plain, decoder, r));
        }
        r
    }
}

} // verus!
