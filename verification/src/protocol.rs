//! The words that the registry and its host exchange while modules are
//! loaded.
//!
//! Opening a library, resolving a symbol in it and reading a file are the
//! host's work. The registry decides what is to be done next and says so in
//! a `Directive`; the host does it and reports what came of it in an
//! `Outcome`.

use crate::error::{LoadError, LoadErrorView};
use vstd::prelude::*;

verus! {

/// The name of the descriptor file in a module's directory.
pub const MANIFEST_FILE: &'static str = "manifest";

/// The name under which a library exports its construction function.
pub const CONSTRUCTOR_SYMBOL: &'static str = "_plugin_create";

/// The name of the module whose directory the host serves static content
/// from.
pub const RESOURCE_PROVIDER: &'static str = "web-client";

/// Where a registry stands in its life.
#[derive(Clone, Copy, Debug, PartialEq, Eq, Structural)]
pub enum Phase {
    /// Nothing has been loaded yet.
    Empty,
    /// A load is under way.
    Loading,
    /// Loading is over; the modules can be used.
    Ready,
    /// Unload hooks are running or libraries are being released. The
    /// registry is in this phase only inside `unload`.
    Unloading,
    /// Everything that was loaded has been unloaded.
    Unloaded,
}

/// What the registry did to a module or a library, as its journal records it.
#[derive(Clone, Copy, Debug, PartialEq, Eq, Structural)]
pub enum LifecycleEvent {
    /// The load hook of the module at this position ran.
    LoadHook(usize),
    /// The unload hook of the module at this position ran.
    UnloadHook(usize),
    /// The library at this position was released: at shutdown, or at once
    /// when the load of its module failed for want of the construction
    /// symbol.
    Released(usize),
}

/// What the registry waits for.
#[derive(Clone, Debug, PartialEq, Eq)]
pub enum Stage {
    /// Nothing; no load is under way.
    Idle,
    /// The list of module directories.
    Listing,
    /// The manifest of the current module.
    Manifest,
    /// The library of the current module, whose manifest gave this name.
    Library { name: String },
    /// The capability object of the current module, built by the library
    /// that was adopted last.
    Capability { name: String },
}

/// A stage as plain values.
pub enum StageView {
    Idle,
    Listing,
    Manifest,
    Library { name: Seq<char> },
    Capability { name: Seq<char> },
}

impl View for Stage {
    type V = StageView;

    open spec fn view(&self) -> StageView {
        match self {
            Stage::Idle => StageView::Idle,
            Stage::Listing => StageView::Listing,
            Stage::Manifest => StageView::Manifest,
            Stage::Library { name } => StageView::Library { name: name@ },
            Stage::Capability { name } => StageView::Capability { name: name@ },
        }
    }
}

/// What the host is to do next.
#[derive(Clone, Debug, PartialEq, Eq)]
pub enum Directive {
    /// List the directories directly under `root` and report them with
    /// `Outcome::Modules`.
    ListModules { root: String },
    /// Read the file at `path` and report `Outcome::ManifestRead`, or
    /// `Outcome::ManifestMissing` where there is no such file.
    ReadManifest { path: String },
    /// Open the library at `path` and report `Outcome::LibraryOpened`, or
    /// `Outcome::LibraryFailed` with the loader's diagnostic.
    OpenLibrary { path: String },
    /// Resolve `symbol` in the library that the registry adopted last, call
    /// it, and report `Outcome::Constructed`, or `Outcome::SymbolMissing`
    /// where the library does not export it.
    Construct { symbol: String },
    /// The load is over and succeeded.
    Done,
    /// The load is over and failed.
    Failed(LoadError),
    /// The call does not fit the registry's phase or stage. Nothing was
    /// changed.
    Refused,
}

/// A directive as plain values.
pub enum DirectiveView {
    ListModules { root: Seq<char> },
    ReadManifest { path: Seq<char> },
    OpenLibrary { path: Seq<char> },
    Construct { symbol: Seq<char> },
    Done,
    Failed(LoadErrorView),
    Refused,
}

impl View for Directive {
    type V = DirectiveView;

    open spec fn view(&self) -> DirectiveView {
        match self {
            Directive::ListModules { root } => DirectiveView::ListModules { root: root@ },
            Directive::ReadManifest { path } => DirectiveView::ReadManifest { path: path@ },
            Directive::OpenLibrary { path } => DirectiveView::OpenLibrary { path: path@ },
            Directive::Construct { symbol } => DirectiveView::Construct { symbol: symbol@ },
            Directive::Done => DirectiveView::Done,
            Directive::Failed(error) => DirectiveView::Failed(error@),
            Directive::Refused => DirectiveView::Refused,
        }
    }
}

/// What came of the host's work. `L` is the host's type of a library
/// handle, `P` the type of its capability objects.
pub enum Outcome<L, P> {
    /// The directories directly under the root, in the order in which the
    /// platform listed them.
    Modules(Vec<String>),
    /// The module's directory holds no manifest file.
    ManifestMissing,
    /// The bytes of the manifest file.
    ManifestRead(Vec<u8>),
    /// The platform loader's diagnostic on the library that it could not
    /// open.
    LibraryFailed(String),
    /// The handle of the opened library.
    LibraryOpened(L),
    /// The library does not export the construction symbol.
    SymbolMissing,
    /// The object that the construction function returned.
    Constructed(P),
}

/// An outcome as plain values.
pub enum OutcomeView<L, P> {
    Modules(Seq<Seq<char>>),
    ManifestMissing,
    ManifestRead(Seq<u8>),
    LibraryFailed(Seq<char>),
    LibraryOpened(L),
    SymbolMissing,
    Constructed(P),
}

/// The texts of a list of strings.
pub open spec fn texts(list: Seq<String>) -> Seq<Seq<char>> {
    list.map_values(|text: String| text@)
}

impl<L, P> View for Outcome<L, P> {
    type V = OutcomeView<L, P>;

    open spec fn view(&self) -> OutcomeView<L, P> {
        match self {
            Outcome::Modules(directories) => OutcomeView::Modules(texts(directories@)),
            Outcome::ManifestMissing => OutcomeView::ManifestMissing,
            Outcome::ManifestRead(bytes) => OutcomeView::ManifestRead(bytes@),
            Outcome::LibraryFailed(diagnostic) => OutcomeView::LibraryFailed(diagnostic@),
            Outcome::LibraryOpened(library) => OutcomeView::LibraryOpened(*library),
            Outcome::SymbolMissing => OutcomeView::SymbolMissing,
            Outcome::Constructed(capability) => OutcomeView::Constructed(*capability),
        }
    }
}

} // verus!
