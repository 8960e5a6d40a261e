//! The plugin registry: it takes the host through the loading of modules,
//! owns what was loaded, and shuts it down in two phases.

use crate::common::Plugin;
use crate::config::Config;
use crate::error::LoadError;
use crate::manifest::{ManifestView, PluginManifest};
use crate::laws::law_manifest_only_modules_add_no_route;
use crate::model::{
    first_named, none_has_capability, one_entry_per_module, releases, unload_hooks, ManagerView,
    ModuleView,
};
use crate::paths::join_path;
use crate::routes::{concat_routes, concatenated, route_views};
use crate::protocol::{
    texts, Directive, LifecycleEvent, Outcome, Phase, Stage, CONSTRUCTOR_SYMBOL, MANIFEST_FILE,
    RESOURCE_PROVIDER,
};
use vstd::prelude::*;

verus! {

/// A module that the registry has loaded.
pub struct LoadedPlugin<P> {
    name: String,
    directory: String,
    library: Option<P>,
}

impl<P> View for LoadedPlugin<P> {
    type V = ModuleView<P>;

    closed spec fn view(&self) -> ModuleView<P> {
        ModuleView { name: self.name@, directory: self.directory@, library: self.library }
    }
}

impl<P> LoadedPlugin<P> {
    /// The name that the module's manifest gave.
    pub fn name(&self) -> (name: &str)
        ensures
            name@ == self@.name,
    {
        self.name.as_str()
    }

    /// The directory that the module was found in.
    pub fn directory(&self) -> (directory: &str)
        ensures
            directory@ == self@.directory,
    {
        self.directory.as_str()
    }

    /// The module's capability object, if its manifest named a library.
    pub fn library(&self) -> (library: Option<&P>)
        ensures
            match library {
                Some(capability) => self@.library == Some(*capability),
                None => self@.library is None,
            },
    {
        self.library.as_ref()
    }
}

/// What a manifest reader found, as plain values.
pub open spec fn reader_found(read: Result<PluginManifest, LoadError>) -> Option<ManifestView> {
    match read {
        Ok(manifest) => Some(manifest@),
        Err(_) => None,
    }
}

/// Whether the load hook of `object` was called and came back.
pub open spec fn load_hook_ran<P: Plugin>(object: P) -> bool {
    call_ensures(P::on_plugin_load, (&object,), ())
}

/// Whether the unload hook of `object` was called and came back.
pub open spec fn unload_hook_ran<P: Plugin>(object: P) -> bool {
    call_ensures(P::on_plugin_unload, (&object,), ())
}

/// Whether the unload hook of every capability object among `plugins` was
/// called and came back.
pub open spec fn unload_hooks_ran<P: Plugin>(plugins: Seq<ModuleView<P>>) -> bool {
    forall|position: int|
        0 <= position < plugins.len() && (#[trigger] plugins[position]).library is Some
            ==> unload_hook_ran(plugins[position].library->0)
}

/// Whether `routes` is what a call of `register_routes` on `object` gave.
pub open spec fn exposed_by<P: Plugin>(object: P, routes: Vec<P::Route>) -> bool {
    call_ensures(P::register_routes, (&object,), routes)
}

/// Whether `lists` is what the modules were asked for: one entry for each
/// module, in the order of the modules; for a module with a capability
/// object the list that a call of its `register_routes` gave, and `None`
/// for a module without one.
pub open spec fn asked_of_the_modules<P: Plugin>(
    lists: Seq<Option<Vec<P::Route>>>,
    plugins: Seq<ModuleView<P>>,
) -> bool {
    &&& one_entry_per_module(route_views(lists), plugins)
    &&& forall|position: int|
        0 <= position < lists.len() && (#[trigger] lists[position]) is Some ==> exposed_by(
            plugins[position].library->0,
            lists[position]->0,
        )
}

/// The models of a list of loaded modules.
pub open spec fn module_views<P>(plugins: Seq<LoadedPlugin<P>>) -> Seq<ModuleView<P>> {
    plugins.map_values(|plugin: LoadedPlugin<P>| plugin@)
}

/// The registry. `L` is the host's type of a library handle, `P` the type of
/// its capability objects.
///
/// The registry alone owns every capability object and every library
/// handle. A handle enters `loaded_libraries` before anything is resolved
/// in its library. It leaves at shutdown, after every capability object is
/// gone, or at once where the load of its module fails before an object was
/// built from it. The modules are declared before the handles, so a
/// registry that is dropped without a shutdown still lets go of the objects
/// first; it runs no unload hook, though. A host that wants the hooks run
/// calls `unload` or `shutdown` before it lets the registry go.
pub struct PluginManager<L, P> {
    plugins: Vec<LoadedPlugin<P>>,
    loaded_libraries: Vec<L>,
    phase: Phase,
    stage: Stage,
    queue: Vec<String>,
    cursor: usize,
    all_or_nothing: bool,
    origin: Phase,
    journal: Vec<LifecycleEvent>,
}

impl<L, P> View for PluginManager<L, P> {
    type V = ManagerView<L, P>;

    closed spec fn view(&self) -> ManagerView<L, P> {
        ManagerView {
            plugins: module_views(self.plugins@),
            libraries: self.loaded_libraries@,
            phase: self.phase,
            stage: self.stage@,
            queue: texts(self.queue@),
            cursor: self.cursor as int,
            all_or_nothing: self.all_or_nothing,
            origin: self.origin,
            journal: self.journal@,
        }
    }
}

impl<L, P: Plugin> PluginManager<L, P> {
    /// Whether the registry is in a state that it can be in. `new` makes
    /// such a registry and every method keeps it one.
    pub open spec fn wf(&self) -> bool {
        self@.wf()
    }

    /// A registry that has loaded nothing.
    pub fn new() -> (manager: PluginManager<L, P>)
        ensures
            manager.wf(),
            manager@ == ManagerView::<L, P>::fresh(),
    {
        let manager = PluginManager {
            plugins: Vec::new(),
            loaded_libraries: Vec::new(),
            phase: Phase::Empty,
            stage: Stage::Idle,
            queue: Vec::new(),
            cursor: 0,
            all_or_nothing: false,
            origin: Phase::Empty,
            journal: Vec::new(),
        };
        assert(manager@.plugins =~= Seq::empty());
        assert(manager@.queue =~= Seq::empty());
        manager
    }

    /// Ends the load under way, if there is one, and puts the registry in
    /// `phase`.
    fn settle(&mut self, phase: Phase)
        ensures
            final(self)@ == old(self)@.settled(phase),
    {
        self.phase = phase;
        self.stage = Stage::Idle;
        self.queue = Vec::new();
        self.cursor = 0;
        self.all_or_nothing = false;
        self.origin = Phase::Empty;
        assert(self@.queue =~= Seq::empty());
    }

    /// Asks for the manifest of the module at the cursor.
    fn ask(&mut self) -> (directive: Directive)
        requires
            old(self).cursor < old(self).queue.len(),
        ensures
            final(self)@ == old(self)@.asked().0,
            directive@ == old(self)@.asked().1,
    {
        self.stage = Stage::Manifest;
        Directive::ReadManifest { path: join_path(self.queue[self.cursor].as_str(), MANIFEST_FILE) }
    }

    /// Goes on to the next module, or ends the load where there is none.
    fn advance(&mut self) -> (directive: Directive)
        requires
            old(self).cursor < old(self).queue.len(),
        ensures
            final(self)@ == old(self)@.advanced().0,
            directive@ == old(self)@.advanced().1,
    {
        if self.cursor + 1 < self.queue.len() {
            self.cursor = self.cursor + 1;
            self.ask()
        } else {
            self.settle(Phase::Ready);
            Directive::Done
        }
    }

    /// Runs every unload hook while every library is still held, lets go of
    /// the capability objects, and only then releases the libraries.
    fn drain(&mut self)
        ensures
            final(self)@ == old(self)@.drained(),
            unload_hooks_ran(old(self)@.plugins),
    {
        let ghost before = self@;
        let count = self.plugins.len();
        let mut position: usize = 0;
        while position < count
            invariant
                count == self.plugins.len(),
                position <= count,
                self@ == (ManagerView {
                    journal: before.journal + unload_hooks(before.plugins.take(position as int)),
                    ..before
                }),
                unload_hooks_ran(before.plugins.take(position as int)),
            decreases count - position,
        {
            let ran = match &self.plugins[position].library {
                Some(capability) => {
                    capability.on_plugin_unload();
                    true
                },
                None => false,
            };
            if ran {
                self.journal.push(LifecycleEvent::UnloadHook(position));
            }
            proof {
                let done = before.plugins.take(position + 1);
                assert(done.drop_last() =~= before.plugins.take(position as int));
                assert(done.last() == before.plugins[position as int]);
                assert(before.journal + unload_hooks(done) =~= self@.journal);
                assert forall|earlier: int|
                    0 <= earlier < done.len() && (#[trigger] done[earlier]).library is Some
                    implies unload_hook_ran(done[earlier].library->0) by {
                    if earlier < position {
                        assert(before.plugins.take(position as int)[earlier] == done[earlier]);
                    }
                }
            }
            position += 1;
        }
        proof {
            assert(before.plugins.take(count as int) =~= before.plugins);
        }
        self.plugins = Vec::new();
        proof {
            assert(self@.plugins =~= Seq::empty());
            assert(self@.journal =~= before.journal + unload_hooks(before.plugins) + releases(0));
        }
        let handles = self.loaded_libraries.len();
        let mut released: usize = 0;
        while released < handles
            invariant
                handles == self.loaded_libraries.len(),
                handles == before.libraries.len(),
                released <= handles,
                self@ == (ManagerView {
                    plugins: Seq::empty(),
                    journal: before.journal + unload_hooks(before.plugins) + releases(
                        released as nat,
                    ),
                    ..before
                }),
            decreases handles - released,
        {
            self.journal.push(LifecycleEvent::Released(released));
            proof {
                assert(releases(released as nat).push(LifecycleEvent::Released(released))
                    =~= releases((released + 1) as nat));
                assert(self@.journal =~= before.journal + unload_hooks(before.plugins) + releases(
                    (released + 1) as nat,
                ));
            }
            released += 1;
        }
        self.loaded_libraries.clear();
        proof {
            assert(self@.libraries =~= Seq::empty());
            assert(self@.journal =~= before.drained().journal);
        }
    }

    /// Shuts down and leaves the registry in `phase`.
    fn shut_down(&mut self, phase: Phase)
        ensures
            final(self)@ == old(self)@.drained().settled(phase),
            unload_hooks_ran(old(self)@.plugins),
    {
        self.phase = Phase::Unloading;
        self.drain();
        self.settle(phase);
    }

    /// Ends the load under way with `error`.
    fn fail(&mut self, error: LoadError) -> (directive: Directive)
        requires
            old(self).wf(),
        ensures
            final(self)@ == old(self)@.failed(error@).0,
            directive@ == old(self)@.failed(error@).1,
            old(self)@.all_or_nothing ==> unload_hooks_ran(old(self)@.plugins),
    {
        if self.all_or_nothing {
            self.shut_down(Phase::Unloaded);
        } else {
            if matches!(self.stage, Stage::Capability { .. }) {
                let ghost held = self.loaded_libraries@;
                let position = self.loaded_libraries.len() - 1;
                self.loaded_libraries.pop();
                self.journal.push(LifecycleEvent::Released(position));
                proof {
                    assert(self.loaded_libraries@ =~= held.drop_last());
                }
            }
            let origin = self.origin;
            self.settle(origin);
        }
        Directive::Failed(error)
    }

    /// Adds the module being loaded to the registry, after running the load
    /// hook of its capability object, if it has one.
    fn register(&mut self, name: String, library: Option<P>)
        requires
            old(self).cursor < old(self).queue.len(),
        ensures
            final(self)@ == old(self)@.registered(name@, library),
            library matches Some(object) ==> load_hook_ran(object),
    {
        let ghost before = self@;
        match &library {
            Some(capability) => {
                capability.on_plugin_load();
                self.journal.push(LifecycleEvent::LoadHook(self.plugins.len()));
            },
            None => {},
        }
        let directory = self.queue[self.cursor].clone();
        self.plugins.push(LoadedPlugin { name, directory, library });
        proof {
            assert(self@.plugins =~= before.registered(name@, library).plugins);
        }
    }

    /// Begins the load of every module under the configured modules
    /// directory. A registry that has loaded nothing answers with
    /// `Directive::ListModules` for that directory; any other refuses.
    ///
    /// The host answers each directive with `resume`, until the registry
    /// says `Done` or `Failed`. The first failure ends the load and shuts
    /// down whatever had been loaded, so that no part of a set of modules is
    /// ever handed to the host.
    pub fn load_all_plugins(&mut self, config: &Config) -> (directive: Directive)
        requires
            old(self).wf(),
        ensures
            final(self).wf(),
            final(self)@ == old(self)@.begin_all(config@.plugins_file_path).0,
            directive@ == old(self)@.begin_all(config@.plugins_file_path).1,
    {
        if self.phase == Phase::Empty {
            self.phase = Phase::Loading;
            self.stage = Stage::Listing;
            self.all_or_nothing = true;
            Directive::ListModules { root: config.plugins_file_path.clone() }
        } else {
            Directive::Refused
        }
    }

    /// Begins the load of the module in `directory`. A registry that has
    /// loaded nothing, or that is ready, answers with
    /// `Directive::ReadManifest` for the manifest in that directory; any
    /// other refuses.
    ///
    /// A failure of this load leaves the registry with the modules and the
    /// libraries that it held before, in the phase that it was in: a
    /// library that opened but lacks the construction symbol is released at
    /// once, and the journal records the release.
    pub fn load_plugin(&mut self, directory: String) -> (directive: Directive)
        requires
            old(self).wf(),
        ensures
            final(self).wf(),
            final(self)@ == old(self)@.begin_one(directory@).0,
            directive@ == old(self)@.begin_one(directory@).1,
    {
        if self.phase == Phase::Empty || self.phase == Phase::Ready {
            self.origin = self.phase;
            self.phase = Phase::Loading;
            self.all_or_nothing = false;
            self.cursor = 0;
            let mut queue = Vec::new();
            queue.push(directory);
            self.queue = queue;
            proof {
                assert(self@.queue =~= seq![directory@]);
            }
            self.ask()
        } else {
            Directive::Refused
        }
    }

    /// Takes what came of the host's work on the last directive and says
    /// what is to be done next.
    pub fn resume(&mut self, outcome: Outcome<L, P>) -> (directive: Directive)
        requires
            old(self).wf(),
        ensures
            final(self).wf(),
            final(self)@ == old(self)@.resumed(outcome@).0,
            directive@ == old(self)@.resumed(outcome@).1,
            old(self)@.stage is Capability && outcome@ is Constructed ==> load_hook_ran(
                outcome@->Constructed_0,
            ),
            directive@ is Failed && old(self)@.all_or_nothing ==> unload_hooks_ran(
                old(self)@.plugins,
            ),
    {
        let directive = match outcome {
            Outcome::Modules(directories) => {
                assert(texts(directories@).len() == directories.len());
                if matches!(self.stage, Stage::Listing) {
                    if directories.len() > 0 {
                        self.queue = directories;
                        self.cursor = 0;
                        self.ask()
                    } else {
                        self.settle(Phase::Ready);
                        Directive::Done
                    }
                } else {
                    Directive::Refused
                }
            },
            Outcome::ManifestMissing => {
                if matches!(self.stage, Stage::Manifest) {
                    self.fail(LoadError::ManifestNotFound)
                } else {
                    Directive::Refused
                }
            },
            Outcome::ManifestRead(bytes) => {
                if matches!(self.stage, Stage::Manifest) {
                    self.resume_with_manifest(PluginManifest::decode(bytes.as_slice()))
                } else {
                    Directive::Refused
                }
            },
            Outcome::LibraryFailed(diagnostic) => {
                if matches!(self.stage, Stage::Library { .. }) {
                    self.fail(LoadError::LibraryOpenError(diagnostic))
                } else {
                    Directive::Refused
                }
            },
            Outcome::LibraryOpened(library) => {
                let awaited = match &self.stage {
                    Stage::Library { name } => Some(name.clone()),
                    _ => None,
                };
                match awaited {
                    Some(name) => {
                        self.loaded_libraries.push(library);
                        self.stage = Stage::Capability { name };
                        Directive::Construct { symbol: CONSTRUCTOR_SYMBOL.to_string() }
                    },
                    None => Directive::Refused,
                }
            },
            Outcome::SymbolMissing => {
                if matches!(self.stage, Stage::Capability { .. }) {
                    self.fail(LoadError::MissingEntryPointSymbol)
                } else {
                    Directive::Refused
                }
            },
            Outcome::Constructed(capability) => {
                let awaited = match &self.stage {
                    Stage::Capability { name } => Some(name.clone()),
                    _ => None,
                };
                match awaited {
                    Some(name) => {
                        self.register(name, Some(capability));
                        self.advance()
                    },
                    None => Directive::Refused,
                }
            },
        };
        proof {
            assert(self@.plugins.len() == self.plugins.len());
            assert(self@.libraries.len() == self.loaded_libraries.len());
        }
        directive
    }

    /// Takes the manifest of the current module, or the reader's failure,
    /// and says what is to be done next: a manifest without `entry`
    /// completes the module, one with `entry` asks for the library at that
    /// path under the module's directory, and a failure ends the load with
    /// `ManifestParseError`. `resume` hands the bytes of the manifest file
    /// to `PluginManifest::decode` and goes on here; a host that reads
    /// manifests by itself comes here directly. The call is refused where
    /// the registry is not waiting for a manifest.
    pub fn resume_with_manifest(&mut self, read: Result<PluginManifest, LoadError>) -> (directive:
        Directive)
        requires
            old(self).wf(),
        ensures
            final(self).wf(),
            final(self)@ == old(self)@.resumed_with_manifest(reader_found(read)).0,
            directive@ == old(self)@.resumed_with_manifest(reader_found(read)).1,
            directive@ is Failed && old(self)@.all_or_nothing ==> unload_hooks_ran(
                old(self)@.plugins,
            ),
    {
        if !matches!(self.stage, Stage::Manifest) {
            return Directive::Refused;
        }
        let directive = match read {
            Err(_) => self.fail(LoadError::ManifestParseError),
            Ok(manifest) => {
                let name = manifest.name().to_string();
                match manifest.entry() {
                    None => {
                        self.register(name, None);
                        self.advance()
                    },
                    Some(entry) => {
                        let path = join_path(self.queue[self.cursor].as_str(), entry);
                        self.stage = Stage::Library { name };
                        Directive::OpenLibrary { path }
                    },
                }
            },
        };
        proof {
            assert(self@.plugins.len() == self.plugins.len());
            assert(self@.libraries.len() == self.loaded_libraries.len());
        }
        directive
    }

    /// Asks every module that the host may use for its request handlers:
    /// one entry for each module, in the order of the modules; what a call
    /// of `register_routes` on its capability object gave, or `None` for a
    /// module without one.
    pub fn exposed_routes(&self) -> (lists: Vec<Option<Vec<P::Route>>>)
        requires
            self.wf(),
        ensures
            asked_of_the_modules(lists@, self@.exposed()),
    {
        let mut lists: Vec<Option<Vec<P::Route>>> = Vec::new();
        if self.phase != Phase::Ready {
            return lists;
        }
        let count = self.plugins.len();
        let mut position: usize = 0;
        while position < count
            invariant
                count == self.plugins.len(),
                position <= count,
                self@.exposed() == self@.plugins,
                asked_of_the_modules(lists@, self@.plugins.take(position as int)),
            decreases count - position,
        {
            let exposed = match &self.plugins[position].library {
                Some(capability) => Some(capability.register_routes()),
                None => None,
            };
            let ghost asked = lists@;
            let ghost before = route_views(lists@);
            lists.push(exposed);
            proof {
                let after = route_views(lists@);
                let shown = self@.plugins.take(position + 1);
                assert forall|i: int| 0 <= i < after.len() implies (#[trigger] after[i] is Some
                    <==> shown[i].library is Some) by {
                    if i < position {
                        assert(after[i] == before[i]);
                        assert(shown[i] == self@.plugins.take(position as int)[i]);
                    }
                }
                assert forall|i: int|
                    0 <= i < lists@.len() && (#[trigger] lists@[i]) is Some implies exposed_by(
                    shown[i].library->0,
                    lists@[i]->0,
                ) by {
                    if i < position {
                        assert(lists@[i] == asked[i]);
                        assert(shown[i] == self@.plugins.take(position as int)[i]);
                    }
                }
            }
            position += 1;
        }
        proof {
            assert(self@.plugins.take(count as int) =~= self@.plugins);
        }
        lists
    }

    /// The request handlers of every module that the host may use: what a
    /// call of `register_routes` on each capability object gave, one list
    /// behind the other in the order of the modules. A module without a
    /// capability object adds nothing. Before loading is over and after
    /// shutdown there are none.
    pub fn register_routes(&self) -> (routes: Vec<P::Route>)
        requires
            self.wf(),
        ensures
            exists|lists: Seq<Option<Vec<P::Route>>>|
                asked_of_the_modules(lists, self@.exposed()) && routes@ == concatenated(
                    route_views(lists),
                ),
            none_has_capability(self@.exposed()) ==> routes@ == Seq::<P::Route>::empty(),
    {
        let lists = self.exposed_routes();
        let ghost asked = lists@;
        let routes = concat_routes(lists);
        proof {
            if none_has_capability(self@.exposed()) {
                assert forall|position: int| 0 <= position < asked.len() implies route_views(
                    asked,
                )[position] is None by {
                    assert(self@.exposed()[position].library is None);
                }
                law_manifest_only_modules_add_no_route(route_views(asked));
            }
        }
        assert(asked_of_the_modules(asked, self@.exposed()) && routes@ == concatenated(
            route_views(asked),
        ));
        routes
    }

    /// The directory from which the host serves static content: that of the
    /// first module called `RESOURCE_PROVIDER` among the modules that the
    /// host may use. `None` where there is no such module.
    pub fn resource_directory(&self) -> (directory: Option<String>)
        requires
            self.wf(),
        ensures
            match directory {
                Some(path) => exists|position: int|
                    first_named(self@.exposed(), RESOURCE_PROVIDER@, position) && path@
                        == self@.exposed()[position].directory,
                None => forall|position: int|
                    0 <= position < self@.exposed().len() ==> (
                    #[trigger] self@.exposed()[position]).name != RESOURCE_PROVIDER@,
            },
    {
        self.resource_directory_of(RESOURCE_PROVIDER)
    }

    /// The directory of the first module called `provider` among the
    /// modules that the host may use. `None` where there is no such module.
    pub fn resource_directory_of(&self, provider: &str) -> (directory: Option<String>)
        requires
            self.wf(),
        ensures
            match directory {
                Some(path) => exists|position: int|
                    first_named(self@.exposed(), provider@, position) && path@
                        == self@.exposed()[position].directory,
                None => forall|position: int|
                    0 <= position < self@.exposed().len() ==> (
                    #[trigger] self@.exposed()[position]).name != provider@,
            },
    {
        if self.phase != Phase::Ready {
            return None;
        }
        let wanted = provider.to_string();
        let count = self.plugins.len();
        let mut position: usize = 0;
        while position < count
            invariant
                count == self.plugins.len(),
                position <= count,
                wanted@ == provider@,
                self@.exposed() == self@.plugins,
                forall|earlier: int|
                    0 <= earlier < position ==> (#[trigger] self@.plugins[earlier]).name
                        != provider@,
            decreases count - position,
        {
            if self.plugins[position].name == wanted {
                let path = self.plugins[position].directory.clone();
                assert(first_named(self@.exposed(), provider@, position as int));
                return Some(path);
            }
            position += 1;
        }
        None
    }

    /// The phase that the registry is in.
    pub fn phase(&self) -> (phase: Phase)
        ensures
            phase == self@.phase,
    {
        self.phase
    }

    /// What the registry waits for.
    pub fn stage(&self) -> (stage: &Stage)
        ensures
            stage@ == self@.stage,
    {
        &self.stage
    }

    /// The loaded modules, in the order in which they were found.
    pub fn plugins(&self) -> (plugins: &Vec<LoadedPlugin<P>>)
        ensures
            module_views(plugins@) == self@.plugins,
    {
        &self.plugins
    }

    /// The handles of the opened libraries, in the order in which they were
    /// opened.
    pub fn loaded_libraries(&self) -> (libraries: &Vec<L>)
        ensures
            libraries@ == self@.libraries,
    {
        &self.loaded_libraries
    }

    /// The library that was opened last. This is where the host resolves
    /// the construction symbol: the handle already has its place in the
    /// registry and stays there until shutdown.
    pub fn last_library(&self) -> (library: Option<&L>)
        ensures
            match library {
                Some(handle) => self@.libraries.len() > 0 && *handle == self@.libraries.last(),
                None => self@.libraries.len() == 0,
            },
    {
        let count = self.loaded_libraries.len();
        if count == 0 {
            None
        } else {
            Some(&self.loaded_libraries[count - 1])
        }
    }

    /// Every hook that ran and every library that was released, oldest
    /// first.
    pub fn journal(&self) -> (journal: &Vec<LifecycleEvent>)
        ensures
            journal@ == self@.journal,
    {
        &self.journal
    }

    /// Ends the registry's life. Whatever it still holds is shut down as
    /// `unload` does it; a registry that holds nothing is let go as it is.
    /// The journal is handed out.
    pub fn shutdown(self) -> (journal: Vec<LifecycleEvent>)
        requires
            self.wf(),
        ensures
            journal@ == self@.unloaded().journal,
            unload_hooks_ran(self@.plugins),
    {
        let mut manager = self;
        if manager.plugins.len() > 0 || manager.loaded_libraries.len() > 0 {
            manager.unload();
        } else {
            proof {
                assert(manager@.plugins =~= Seq::empty());
                assert(unload_hooks(manager@.plugins) =~= Seq::empty());
                assert(releases(0) =~= Seq::empty());
                assert(manager@.unloaded().journal =~= manager@.journal);
            }
        }
        manager.journal
    }

    /// Shuts the registry down. Every unload hook runs, in the order in
    /// which the modules were loaded, while every library is still held;
    /// only then is every library released, in the order in which they were
    /// opened. A load under way is given up. The journal records each hook
    /// and each release.
    ///
    /// A second call finds nothing to do: it runs no hook and releases
    /// nothing.
    pub fn unload(&mut self)
        requires
            old(self).wf(),
        ensures
            final(self).wf(),
            final(self)@ == old(self)@.unloaded(),
            unload_hooks_ran(old(self)@.plugins),
    {
        let phase = if self.phase == Phase::Empty {
            Phase::Empty
        } else {
            Phase::Unloaded
        };
        self.shut_down(phase);
    }
}

} // verus!
