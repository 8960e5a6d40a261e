//! The registry as a state machine over plain values: what each call of the
//! registry does to its state and which directive it answers with.

use crate::error::LoadErrorView;
use crate::manifest::{decoded, ManifestView};
use crate::paths::joined;
use crate::protocol::{
    DirectiveView, LifecycleEvent, OutcomeView, Phase, StageView, CONSTRUCTOR_SYMBOL,
    MANIFEST_FILE,
};
use vstd::prelude::*;

verus! {

/// A loaded module: the name that its manifest gave, the directory it was
/// found in, and the capability object that its library built. A module
/// whose manifest names no library has no capability object.
pub struct ModuleView<P> {
    pub name: Seq<char>,
    pub directory: Seq<char>,
    pub library: Option<P>,
}

/// The state of a registry.
pub struct ManagerView<L, P> {
    /// The loaded modules, in the order in which they were found.
    pub plugins: Seq<ModuleView<P>>,
    /// The handles of the opened libraries, in the order in which they were
    /// opened.
    pub libraries: Seq<L>,
    pub phase: Phase,
    pub stage: StageView,
    /// The directories of the load under way; `cursor` is the position of
    /// the one being loaded.
    pub queue: Seq<Seq<char>>,
    pub cursor: int,
    /// Whether a failure of the load under way discards all that was loaded.
    pub all_or_nothing: bool,
    /// The phase in which the load of a single module began.
    pub origin: Phase,
    /// Every hook that ran and every library that was released, oldest
    /// first.
    pub journal: Seq<LifecycleEvent>,
}

/// The unload hooks that shutdown runs: one for each module that has a
/// capability object, in the order of the modules.
pub open spec fn unload_hooks<P>(plugins: Seq<ModuleView<P>>) -> Seq<LifecycleEvent>
    decreases plugins.len(),
{
    if plugins.len() == 0 {
        Seq::empty()
    } else {
        let earlier = unload_hooks(plugins.drop_last());
        if plugins.last().library is Some {
            earlier.push(LifecycleEvent::UnloadHook((plugins.len() - 1) as usize))
        } else {
            earlier
        }
    }
}

/// The release of `handles` libraries, in the order in which they were
/// opened.
pub open spec fn releases(handles: nat) -> Seq<LifecycleEvent> {
    Seq::new(handles, |position: int| LifecycleEvent::Released(position as usize))
}

/// What shutdown does: first every unload hook, then every release.
pub open spec fn unload_events<P>(plugins: Seq<ModuleView<P>>, handles: nat) -> Seq<
    LifecycleEvent,
> {
    unload_hooks(plugins) + releases(handles)
}

/// Whether `lists` holds one entry for each module: a list of handlers for a
/// module with a capability object, `None` for a module without one.
pub open spec fn one_entry_per_module<T, P>(
    lists: Seq<Option<Seq<T>>>,
    plugins: Seq<ModuleView<P>>,
) -> bool {
    &&& lists.len() == plugins.len()
    &&& forall|position: int|
        0 <= position < lists.len() ==> (#[trigger] lists[position] is Some
            <==> plugins[position].library is Some)
}

/// Whether none of `plugins` has a capability object.
pub open spec fn none_has_capability<P>(plugins: Seq<ModuleView<P>>) -> bool {
    forall|position: int|
        0 <= position < plugins.len() ==> (#[trigger] plugins[position]).library is None
}

/// Whether the module at `position` is the first that is called `name`.
pub open spec fn first_named<P>(plugins: Seq<ModuleView<P>>, name: Seq<char>, position: int) -> bool {
    &&& 0 <= position < plugins.len()
    &&& plugins[position].name == name
    &&& forall|earlier: int| 0 <= earlier < position ==> (#[trigger] plugins[earlier]).name != name
}

impl<L, P> ManagerView<L, P> {
    /// A registry that has loaded nothing.
    pub open spec fn fresh() -> Self {
        ManagerView {
            plugins: Seq::empty(),
            libraries: Seq::empty(),
            phase: Phase::Empty,
            stage: StageView::Idle,
            queue: Seq::empty(),
            cursor: 0,
            all_or_nothing: false,
            origin: Phase::Empty,
            journal: Seq::empty(),
        }
    }

    /// Whether no load is under way.
    pub open spec fn idle(self) -> bool {
        self.stage is Idle
    }

    /// Whether the module being loaded was found in a registry that had
    /// loaded nothing, by a load of that module alone.
    pub open spec fn first_alone(self) -> bool {
        !self.idle() && !self.all_or_nothing && self.origin == Phase::Empty
    }

    /// The states that a registry can be in.
    pub open spec fn wf(self) -> bool {
        &&& self.plugins.len() <= usize::MAX
        &&& self.libraries.len() <= usize::MAX
        &&& self.phase != Phase::Unloading
        &&& self.idle() <==> self.phase != Phase::Loading
        &&& self.idle() ==> self.queue.len() == 0 && self.cursor == 0 && !self.all_or_nothing
            && self.origin == Phase::Empty
        &&& self.stage is Listing ==> self.all_or_nothing && self.queue.len() == 0 && self.cursor
            == 0 && self.plugins.len() == 0 && self.libraries.len() == 0
        &&& !self.idle() && !(self.stage is Listing) ==> 0 <= self.cursor < self.queue.len()
        &&& self.stage is Capability ==> self.libraries.len() > 0
        &&& self.phase == Phase::Empty || self.phase == Phase::Unloaded ==> self.plugins.len() == 0
            && self.libraries.len() == 0
        &&& !self.idle() && self.all_or_nothing ==> self.origin == Phase::Empty
        &&& !self.idle() && !self.all_or_nothing ==> self.queue.len() == 1 && (self.origin
            == Phase::Empty || self.origin == Phase::Ready)
        &&& self.first_alone() ==> self.plugins.len() == 0 && self.libraries.len() == if self.stage is Capability {
            1nat
        } else {
            0nat
        }
    }

    /// The modules that the host may use: all of them once loading is over,
    /// none before that or after shutdown, so that the host never sees a
    /// part of a set of modules.
    pub open spec fn exposed(self) -> Seq<ModuleView<P>> {
        if self.phase == Phase::Ready {
            self.plugins
        } else {
            Seq::empty()
        }
    }

    /// The directory of the module being loaded.
    pub open spec fn current_directory(self) -> Seq<char> {
        self.queue[self.cursor]
    }

    /// The same collections and journal, with no load under way, in `phase`.
    pub open spec fn settled(self, phase: Phase) -> Self {
        ManagerView {
            phase,
            stage: StageView::Idle,
            queue: Seq::empty(),
            cursor: 0,
            all_or_nothing: false,
            origin: Phase::Empty,
            ..self
        }
    }

    /// Both collections emptied, and what that took added to the journal.
    pub open spec fn drained(self) -> Self {
        ManagerView {
            plugins: Seq::empty(),
            libraries: Seq::empty(),
            journal: self.journal + unload_events(self.plugins, self.libraries.len()),
            ..self
        }
    }

    /// Asks for the manifest of the module at the cursor.
    pub open spec fn asked(self) -> (Self, DirectiveView) {
        (
            ManagerView { stage: StageView::Manifest, ..self },
            DirectiveView::ReadManifest { path: joined(self.current_directory(), MANIFEST_FILE@) },
        )
    }

    /// Goes on to the next module of the load under way, or ends the load
    /// where there is none.
    pub open spec fn advanced(self) -> (Self, DirectiveView) {
        if self.cursor + 1 < self.queue.len() {
            ManagerView { cursor: self.cursor + 1, ..self }.asked()
        } else {
            (self.settled(Phase::Ready), DirectiveView::Done)
        }
    }

    /// Lets go of the library that was taken in for the module being
    /// loaded, if one was. No capability object has been built from it, so
    /// nothing is left that could reach into it.
    pub open spec fn handed_back(self) -> Self {
        if self.stage is Capability {
            ManagerView {
                libraries: self.libraries.drop_last(),
                journal: self.journal.push(
                    LifecycleEvent::Released((self.libraries.len() - 1) as usize),
                ),
                ..self
            }
        } else {
            self
        }
    }

    /// Ends the load under way with `error`. A load of all modules discards
    /// whatever it had loaded: the registry shuts down. A load of one module
    /// leaves the registry with the modules and the libraries that it held
    /// when the load began, in the phase in which the load began: a library
    /// that was taken in for the module is released at once.
    pub open spec fn failed(self, error: LoadErrorView) -> (Self, DirectiveView) {
        if self.all_or_nothing {
            (self.drained().settled(Phase::Unloaded), DirectiveView::Failed(error))
        } else {
            (self.handed_back().settled(self.origin), DirectiveView::Failed(error))
        }
    }

    /// Adds the module being loaded to the registry. Where it has a
    /// capability object, its load hook runs first.
    pub open spec fn registered(self, name: Seq<char>, library: Option<P>) -> Self {
        ManagerView {
            plugins: self.plugins.push(
                ModuleView { name, directory: self.current_directory(), library },
            ),
            journal: if library is Some {
                self.journal.push(LifecycleEvent::LoadHook(self.plugins.len() as usize))
            } else {
                self.journal
            },
            ..self
        }
    }

    /// Takes the list of module directories and asks for the first
    /// manifest.
    pub open spec fn listed(self, directories: Seq<Seq<char>>) -> (Self, DirectiveView) {
        if directories.len() > 0 {
            ManagerView { queue: directories, cursor: 0, ..self }.asked()
        } else {
            (self.settled(Phase::Ready), DirectiveView::Done)
        }
    }

    /// Takes the bytes of a manifest file. A manifest without `entry`
    /// completes the module; one with `entry` asks for the library at that
    /// path under the module's directory.
    pub open spec fn manifest_read(self, bytes: Seq<u8>) -> (Self, DirectiveView) {
        self.manifest_taken(decoded(bytes))
    }

    /// Goes on with the manifest that the reader found, or fails where it
    /// found none.
    pub open spec fn manifest_taken(self, read: Option<ManifestView>) -> (Self, DirectiveView) {
        match read {
            None => self.failed(LoadErrorView::ManifestParseError),
            Some(manifest) => match manifest.entry {
                None => self.registered(manifest.name, None).advanced(),
                Some(entry) => (
                    ManagerView { stage: StageView::Library { name: manifest.name }, ..self },
                    DirectiveView::OpenLibrary { path: joined(self.current_directory(), entry) },
                ),
            },
        }
    }

    /// Takes the handle of an opened library into the registry and only
    /// then asks for the capability object. The handle stays until shutdown,
    /// unless the load of its module fails first.
    pub open spec fn adopted(self, name: Seq<char>, library: L) -> (Self, DirectiveView) {
        (
            ManagerView {
                libraries: self.libraries.push(library),
                stage: StageView::Capability { name },
                ..self
            },
            DirectiveView::Construct { symbol: CONSTRUCTOR_SYMBOL@ },
        )
    }

    /// Begins the load of every module under `root`. Only a registry that
    /// has loaded nothing takes it.
    pub open spec fn begin_all(self, root: Seq<char>) -> (Self, DirectiveView) {
        if self.phase == Phase::Empty {
            (
                ManagerView {
                    phase: Phase::Loading,
                    stage: StageView::Listing,
                    all_or_nothing: true,
                    ..self
                },
                DirectiveView::ListModules { root },
            )
        } else {
            (self, DirectiveView::Refused)
        }
    }

    /// Begins the load of the module in `directory`. A registry takes it
    /// before it has loaded anything and when it is ready.
    pub open spec fn begin_one(self, directory: Seq<char>) -> (Self, DirectiveView) {
        if self.phase == Phase::Empty || self.phase == Phase::Ready {
            ManagerView {
                phase: Phase::Loading,
                queue: seq![directory],
                cursor: 0,
                all_or_nothing: false,
                origin: self.phase,
                ..self
            }.asked()
        } else {
            (self, DirectiveView::Refused)
        }
    }

    /// Takes the manifest of the current module from a host that has read
    /// it by itself, `None` where the host found none in the file. It is
    /// refused where the registry is not waiting for a manifest.
    pub open spec fn resumed_with_manifest(self, read: Option<ManifestView>) -> (
        Self,
        DirectiveView,
    ) {
        if self.stage is Manifest {
            self.manifest_taken(read)
        } else {
            (self, DirectiveView::Refused)
        }
    }

    /// Takes what came of the host's work on the last directive. An outcome
    /// that does not answer that directive is refused.
    pub open spec fn resumed(self, outcome: OutcomeView<L, P>) -> (Self, DirectiveView) {
        match (self.stage, outcome) {
            (StageView::Listing, OutcomeView::Modules(directories)) => self.listed(directories),
            (StageView::Manifest, OutcomeView::ManifestMissing) => self.failed(
                LoadErrorView::ManifestNotFound,
            ),
            (StageView::Manifest, OutcomeView::ManifestRead(bytes)) => self.manifest_read(bytes),
            (StageView::Library { name }, OutcomeView::LibraryFailed(diagnostic)) => self.failed(
                LoadErrorView::LibraryOpenError(diagnostic),
            ),
            (StageView::Library { name }, OutcomeView::LibraryOpened(library)) => self.adopted(
                name,
                library,
            ),
            (StageView::Capability { name }, OutcomeView::SymbolMissing) => self.failed(
                LoadErrorView::MissingEntryPointSymbol,
            ),
            (StageView::Capability { name }, OutcomeView::Constructed(capability)) => self.registered(
                name,
                Some(capability),
            ).advanced(),
            _ => (self, DirectiveView::Refused),
        }
    }

    /// Shuts the registry down: every unload hook runs while every library
    /// is still held, then every library is released, and a load under way
    /// is given up. A registry that never loaded anything stays as it is.
    pub open spec fn unloaded(self) -> Self {
        self.drained().settled(
            if self.phase == Phase::Empty {
                Phase::Empty
            } else {
                Phase::Unloaded
            },
        )
    }
}

} // verus!
