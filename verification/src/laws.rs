//! What holds of the registry whatever the host reports: laws of the state
//! machine, proved from its definition.

use crate::error::LoadErrorView;
use crate::manifest::decoded;
use crate::model::{
    none_has_capability, one_entry_per_module, releases, unload_events, unload_hooks, ManagerView, ModuleView,
};
use crate::paths::joined;
use crate::protocol::{
    DirectiveView, LifecycleEvent, OutcomeView, Phase, StageView, CONSTRUCTOR_SYMBOL,
    MANIFEST_FILE,
};
use crate::routes::concatenated;
use vstd::prelude::*;

verus! {

/// How often `event` stands in `events`.
pub open spec fn times(events: Seq<LifecycleEvent>, event: LifecycleEvent) -> nat
    decreases events.len(),
{
    if events.len() == 0 {
        0
    } else {
        times(events.drop_last(), event) + if events.last() == event {
            1nat
        } else {
            0nat
        }
    }
}

/// Whether the registry holds a capability object at `position`.
pub open spec fn holds_capability<P>(plugins: Seq<ModuleView<P>>, position: int) -> bool {
    0 <= position < plugins.len() && plugins[position].library is Some
}

/// Whether the load hooks and unload hooks in the journal pair up with the
/// capability objects that the registry holds: no load hook has run twice;
/// an object that the registry holds has had its load hook run and not its
/// unload hook; for every other position the two have run equally often;
/// and before shutdown no unload hook has run at all.
pub open spec fn hooks_paired<L, P>(state: ManagerView<L, P>) -> bool {
    forall|position: usize|
        {
            let loads = #[trigger] times(state.journal, LifecycleEvent::LoadHook(position));
            let unloads = times(state.journal, LifecycleEvent::UnloadHook(position));
            &&& loads <= 1
            &&& loads == unloads + if holds_capability(state.plugins, position as int) {
                1nat
            } else {
                0nat
            }
            &&& state.phase != Phase::Unloaded ==> unloads == 0
        }
}

/// Counting goes through a journal part by part.
pub proof fn lemma_times_of_parts(
    first: Seq<LifecycleEvent>,
    second: Seq<LifecycleEvent>,
    event: LifecycleEvent,
)
    ensures
        times(first + second, event) == times(first, event) + times(second, event),
    decreases second.len(),
{
    if second.len() == 0 {
        assert(first + second =~= first);
    } else {
        assert((first + second).drop_last() =~= first + second.drop_last());
        lemma_times_of_parts(first, second.drop_last(), event);
    }
}

/// Shutdown runs the unload hook of a module once if the module has a
/// capability object and not at all if it has none, and it runs no load
/// hook.
pub proof fn lemma_unload_hooks_once_each<P>(plugins: Seq<ModuleView<P>>, event: LifecycleEvent)
    requires
        plugins.len() <= usize::MAX,
    ensures
        times(unload_hooks(plugins), event) == match event {
            LifecycleEvent::UnloadHook(position) => if holds_capability(plugins, position as int) {
                1nat
            } else {
                0nat
            },
            _ => 0nat,
        },
    decreases plugins.len(),
{
    if plugins.len() > 0 {
        let earlier = plugins.drop_last();
        lemma_unload_hooks_once_each(earlier, event);
        if plugins.last().library is Some {
            assert(unload_hooks(plugins).drop_last() =~= unload_hooks(earlier));
        }
    }
}

/// The releases hold no hook.
pub proof fn lemma_releases_hold_no_hook(handles: nat, event: LifecycleEvent)
    requires
        !(event is Released),
    ensures
        times(releases(handles), event) == 0,
    decreases handles,
{
    if handles > 0 {
        assert(releases(handles).drop_last() =~= releases((handles - 1) as nat));
        lemma_releases_hold_no_hook((handles - 1) as nat, event);
    }
}

/// A module whose manifest names no library is loaded as it is: it joins
/// the modules without a capability object, no library is opened for it and
/// no hook runs. The load goes on with the next module or is over.
pub proof fn law_manifest_only_module_loads<L, P>(state: ManagerView<L, P>, bytes: Seq<u8>)
    requires
        state.wf(),
        state.stage is Manifest,
        decoded(bytes) is Some,
        decoded(bytes)->0.entry is None,
    ensures
        ({
            let (next, directive) = state.resumed(OutcomeView::ManifestRead(bytes));
            &&& next.plugins == state.plugins.push(
                ModuleView {
                    name: decoded(bytes)->0.name,
                    directory: state.current_directory(),
                    library: None,
                },
            )
            &&& next.libraries == state.libraries
            &&& next.journal == state.journal
            &&& directive is Done || directive is ReadManifest
            &&& directive is Done ==> next.phase == Phase::Ready
        }),
{
}

/// Loading one module whose manifest names no library, into a registry
/// that is empty or ready, succeeds and leaves the registry ready.
pub proof fn law_manifest_only_module_alone<L, P>(
    state: ManagerView<L, P>,
    directory: Seq<char>,
    bytes: Seq<u8>,
)
    requires
        state.wf(),
        state.phase == Phase::Empty || state.phase == Phase::Ready,
        decoded(bytes) is Some,
        decoded(bytes)->0.entry is None,
    ensures
        state.begin_one(directory).1 == (DirectiveView::ReadManifest {
            path: joined(directory, MANIFEST_FILE@),
        }),
        state.begin_one(directory).0.resumed(OutcomeView::ManifestRead(bytes)) == (
            ManagerView {
                plugins: state.plugins.push(
                    ModuleView { name: decoded(bytes)->0.name, directory, library: None },
                ),
                phase: Phase::Ready,
                ..state
            },
            DirectiveView::Done,
        ),
{
    let (begun, _) = state.begin_one(directory);
    let (ended, _) = begun.resumed(OutcomeView::ManifestRead(bytes));
    assert(ended.queue =~= state.queue);
}

/// A module whose manifest names a library that opens and exports the
/// construction symbol is loaded in three steps. The registry asks for the
/// library at the manifest's path under the module's directory; it takes
/// the handle in before it asks for the capability object; and it adds the
/// module with that object. Its load hook is the one hook that the load
/// records.
pub proof fn law_module_with_library_loads<L, P>(
    state: ManagerView<L, P>,
    bytes: Seq<u8>,
    library: L,
    capability: P,
)
    requires
        state.wf(),
        state.stage is Manifest,
        decoded(bytes) is Some,
        decoded(bytes)->0.entry is Some,
    ensures
        ({
            let manifest = decoded(bytes)->0;
            let (first, open) = state.resumed(OutcomeView::ManifestRead(bytes));
            let (second, construct) = first.resumed(OutcomeView::LibraryOpened(library));
            let (third, directive) = second.resumed(OutcomeView::Constructed(capability));
            &&& open == DirectiveView::OpenLibrary {
                path: joined(state.current_directory(), manifest.entry->0),
            }
            &&& first.plugins == state.plugins && first.libraries == state.libraries
            &&& construct == DirectiveView::Construct { symbol: CONSTRUCTOR_SYMBOL@ }
            &&& second.plugins == state.plugins
            &&& second.libraries == state.libraries.push(library)
            &&& second.journal == state.journal
            &&& third.plugins == state.plugins.push(
                ModuleView {
                    name: manifest.name,
                    directory: state.current_directory(),
                    library: Some(capability),
                },
            )
            &&& third.libraries == state.libraries.push(library)
            &&& third.journal == state.journal.push(
                LifecycleEvent::LoadHook(state.plugins.len() as usize),
            )
            &&& directive is Done || directive is ReadManifest
            &&& directive is Done ==> third.phase == Phase::Ready
        }),
{
}

/// The hooks pair up in a registry that has loaded nothing.
pub proof fn law_hooks_paired_at_first<L, P>()
    ensures
        hooks_paired(ManagerView::<L, P>::fresh()),
{
}

/// Whatever is asked of a registry and whatever the host reports, the hooks
/// stay paired: a capability object has its load hook run once when it
/// joins the registry and its unload hook once when the registry shuts
/// down, and no further call of `unload` runs either again.
pub proof fn law_hooks_stay_paired<L, P>(
    state: ManagerView<L, P>,
    text: Seq<char>,
    outcome: OutcomeView<L, P>,
)
    requires
        state.wf(),
        hooks_paired(state),
        state.resumed(outcome).0.wf(),
    ensures
        hooks_paired(state.begin_all(text).0),
        hooks_paired(state.begin_one(text).0),
        hooks_paired(state.resumed(outcome).0),
        hooks_paired(state.unloaded()),
{
    lemma_drained_keeps_pairs(state);
    lemma_same_hooks_keep_pairs(state, state.begin_all(text).0);
    lemma_same_hooks_keep_pairs(state, state.begin_one(text).0);
    let next = state.resumed(outcome).0;
    match (state.stage, outcome) {
        (StageView::Capability { name }, OutcomeView::Constructed(capability)) => {
            let joined = state.registered(name, Some(capability));
            lemma_registered_keeps_pairs(state, name, capability);
            assert(next == joined.advanced().0);
            assert(next.journal == joined.journal);
            assert(next.plugins == joined.plugins);
            assert(next.phase != Phase::Unloaded);
            assert forall|position: usize|
                {
                    let loads = #[trigger] times(next.journal, LifecycleEvent::LoadHook(position));
                    let unloads = times(next.journal, LifecycleEvent::UnloadHook(position));
                    &&& loads <= 1
                    &&& loads == unloads + if holds_capability(next.plugins, position as int) {
                        1nat
                    } else {
                        0nat
                    }
                    &&& next.phase != Phase::Unloaded ==> unloads == 0
                } by {
                assert(times(joined.journal, LifecycleEvent::LoadHook(position)) <= 1);
            }
            assert(hooks_paired(next));
        },
        _ => {
            if next != state.drained().settled(Phase::Unloaded) {
                if next.journal != state.journal {
                    assert(next.journal.drop_last() =~= state.journal);
                    assert(next.journal.last() is Released);
                }
                assert(next.phase != Phase::Unloaded ==> state.phase != Phase::Unloaded);
                assert forall|position: int|
                    holds_capability(next.plugins, position) == holds_capability(
                        state.plugins,
                        position,
                    ) by {
                    if next.plugins != state.plugins {
                        assert(next.plugins.len() == state.plugins.len() + 1);
                        assert(next.plugins.last().library is None);
                        if 0 <= position < state.plugins.len() {
                            assert(next.plugins[position] == state.plugins[position]);
                        }
                    }
                }
                lemma_same_hooks_keep_pairs(state, next);
                assert(hooks_paired(next));
            } else {
                assert(hooks_paired(next));
            }
        },
    }
}

/// A step that adds no hook to the journal and no capability object to the
/// registry keeps the hooks paired.
proof fn lemma_same_hooks_keep_pairs<L, P>(state: ManagerView<L, P>, next: ManagerView<L, P>)
    requires
        hooks_paired(state),
        next.journal == state.journal || (next.journal.len() > 0 && next.journal.drop_last()
            == state.journal && next.journal.last() is Released),
        next.phase != Phase::Unloaded ==> state.phase != Phase::Unloaded,
        forall|position: int|
            holds_capability(next.plugins, position) == holds_capability(state.plugins, position),
    ensures
        hooks_paired(next),
{
    assert forall|position: usize|
        {
            let loads = #[trigger] times(next.journal, LifecycleEvent::LoadHook(position));
            let unloads = times(next.journal, LifecycleEvent::UnloadHook(position));
            &&& loads <= 1
            &&& loads == unloads + if holds_capability(next.plugins, position as int) {
                1nat
            } else {
                0nat
            }
            &&& next.phase != Phase::Unloaded ==> unloads == 0
        } by {
        assert(times(state.journal, LifecycleEvent::LoadHook(position)) <= 1);
        assert(times(next.journal, LifecycleEvent::LoadHook(position)) == times(
            state.journal,
            LifecycleEvent::LoadHook(position),
        ));
        assert(times(next.journal, LifecycleEvent::UnloadHook(position)) == times(
            state.journal,
            LifecycleEvent::UnloadHook(position),
        ));
    }
}

/// Shutdown keeps the hooks paired.
proof fn lemma_drained_keeps_pairs<L, P>(state: ManagerView<L, P>)
    requires
        state.wf(),
        hooks_paired(state),
    ensures
        hooks_paired(state.drained().settled(Phase::Unloaded)),
        hooks_paired(state.unloaded()),
{
    let after = state.drained();
    assert forall|position: usize|
        {
            let loads = #[trigger] times(after.journal, LifecycleEvent::LoadHook(position));
            let unloads = times(after.journal, LifecycleEvent::UnloadHook(position));
            &&& loads == times(state.journal, LifecycleEvent::LoadHook(position))
            &&& unloads == times(state.journal, LifecycleEvent::UnloadHook(position))
                + if holds_capability(state.plugins, position as int) {
                1nat
            } else {
                0nat
            }
        } by {
        let load = LifecycleEvent::LoadHook(position);
        let unload = LifecycleEvent::UnloadHook(position);
        let added = unload_events(state.plugins, state.libraries.len());
        lemma_times_of_parts(state.journal, added, load);
        lemma_times_of_parts(state.journal, added, unload);
        lemma_times_of_parts(unload_hooks(state.plugins), releases(state.libraries.len()), load);
        lemma_times_of_parts(unload_hooks(state.plugins), releases(state.libraries.len()), unload);
        lemma_unload_hooks_once_each(state.plugins, load);
        lemma_unload_hooks_once_each(state.plugins, unload);
        lemma_releases_hold_no_hook(state.libraries.len(), load);
        lemma_releases_hold_no_hook(state.libraries.len(), unload);
    }
    assert forall|position: usize|
        {
            let loads = #[trigger] times(
                state.unloaded().journal,
                LifecycleEvent::LoadHook(position),
            );
            let unloads = times(state.unloaded().journal, LifecycleEvent::UnloadHook(position));
            &&& loads <= 1
            &&& loads == unloads
            &&& state.unloaded().phase != Phase::Unloaded ==> unloads == 0
        } by {
        assert(times(state.journal, LifecycleEvent::LoadHook(position)) <= 1);
        assert(times(after.journal, LifecycleEvent::LoadHook(position)) == times(
            state.journal,
            LifecycleEvent::LoadHook(position),
        ));
    }
    let settled = state.drained().settled(Phase::Unloaded);
    assert forall|position: usize|
        {
            let loads = #[trigger] times(settled.journal, LifecycleEvent::LoadHook(position));
            let unloads = times(settled.journal, LifecycleEvent::UnloadHook(position));
            &&& loads <= 1
            &&& loads == unloads
        } by {
        assert(times(state.journal, LifecycleEvent::LoadHook(position)) <= 1);
        assert(times(after.journal, LifecycleEvent::LoadHook(position)) == times(
            state.journal,
            LifecycleEvent::LoadHook(position),
        ));
    }
}

/// A capability object that joins the registry keeps the hooks paired.
proof fn lemma_registered_keeps_pairs<L, P>(state: ManagerView<L, P>, name: Seq<char>, capability: P)
    requires
        state.wf(),
        state.phase == Phase::Loading,
        state.plugins.len() < usize::MAX,
        hooks_paired(state),
    ensures
        ({
            let next = state.registered(name, Some(capability));
            forall|position: usize|
                {
                    let loads = #[trigger] times(next.journal, LifecycleEvent::LoadHook(position));
                    let unloads = times(next.journal, LifecycleEvent::UnloadHook(position));
                    &&& loads <= 1
                    &&& loads == unloads + if holds_capability(next.plugins, position as int) {
                        1nat
                    } else {
                        0nat
                    }
                    &&& unloads == 0
                }
        }),
{
    let next = state.registered(name, Some(capability));
    let added = LifecycleEvent::LoadHook(state.plugins.len() as usize);
    assert(next.journal.drop_last() =~= state.journal);
    assert forall|position: usize|
        {
            let loads = #[trigger] times(next.journal, LifecycleEvent::LoadHook(position));
            let unloads = times(next.journal, LifecycleEvent::UnloadHook(position));
            &&& loads <= 1
            &&& loads == unloads + if holds_capability(next.plugins, position as int) {
                1nat
            } else {
                0nat
            }
            &&& unloads == 0
        } by {
        assert(times(state.journal, LifecycleEvent::LoadHook(position)) <= 1);
        if position as int == state.plugins.len() {
            assert(!holds_capability(state.plugins, position as int));
        } else {
            assert(holds_capability(next.plugins, position as int) == holds_capability(
                state.plugins,
                position as int,
            ));
        }
    }
}

/// A module whose directory holds no manifest is not loaded: the load fails
/// with `ManifestNotFound`. Where that module was loaded alone, the
/// registry is afterwards exactly as it was before the load began.
pub proof fn law_missing_manifest_changes_nothing<L, P>(
    state: ManagerView<L, P>,
    directory: Seq<char>,
)
    requires
        state.wf(),
        state.phase == Phase::Empty || state.phase == Phase::Ready,
    ensures
        state.begin_one(directory).0.resumed(OutcomeView::ManifestMissing) == (
            state,
            DirectiveView::Failed(LoadErrorView::ManifestNotFound),
        ),
{
    let (begun, _) = state.begin_one(directory);
    let (ended, _) = begun.resumed(OutcomeView::ManifestMissing);
    assert(ended.queue =~= state.queue);
}

/// A module whose library does not open is not loaded: the load fails with
/// `LibraryOpenError` and the loader's diagnostic. Where that module was
/// loaded alone, the registry is afterwards exactly as it was before the
/// load began: it holds no handle and no module that it did not hold then.
pub proof fn law_unopened_library_changes_nothing<L, P>(
    state: ManagerView<L, P>,
    directory: Seq<char>,
    bytes: Seq<u8>,
    diagnostic: Seq<char>,
)
    requires
        state.wf(),
        state.phase == Phase::Empty || state.phase == Phase::Ready,
        decoded(bytes) is Some,
        decoded(bytes)->0.entry is Some,
    ensures
        state.begin_one(directory).0.resumed(OutcomeView::ManifestRead(bytes)).1 == (
            DirectiveView::OpenLibrary { path: joined(directory, decoded(bytes)->0.entry->0) }),
        state.begin_one(directory).0.resumed(OutcomeView::ManifestRead(bytes)).0.resumed(
            OutcomeView::LibraryFailed(diagnostic),
        ) == (state, DirectiveView::Failed(LoadErrorView::LibraryOpenError(diagnostic))),
{
    let (begun, _) = state.begin_one(directory);
    let (asked, _) = begun.resumed(OutcomeView::ManifestRead(bytes));
    let (ended, _) = asked.resumed(OutcomeView::LibraryFailed(diagnostic));
    assert(ended.queue =~= state.queue);
}

/// A module whose library opens but does not export the construction symbol
/// is not loaded: the load fails with `MissingEntryPointSymbol`. Where that
/// module was loaded alone, the handle that was taken in for it is released
/// at once, and the registry is afterwards as it was before the load began,
/// but for the release in its journal.
pub proof fn law_missing_symbol_leaves_no_handle<L, P>(
    state: ManagerView<L, P>,
    directory: Seq<char>,
    bytes: Seq<u8>,
    library: L,
)
    requires
        state.wf(),
        state.phase == Phase::Empty || state.phase == Phase::Ready,
        decoded(bytes) is Some,
        decoded(bytes)->0.entry is Some,
    ensures
        state.begin_one(directory).0.resumed(OutcomeView::ManifestRead(bytes)).0.resumed(
            OutcomeView::LibraryOpened(library),
        ).0.resumed(OutcomeView::SymbolMissing) == (
            ManagerView {
                journal: state.journal.push(
                    LifecycleEvent::Released(state.libraries.len() as usize),
                ),
                ..state
            },
            DirectiveView::Failed(LoadErrorView::MissingEntryPointSymbol),
        ),
{
    let (begun, _) = state.begin_one(directory);
    let (asked, _) = begun.resumed(OutcomeView::ManifestRead(bytes));
    let (taken, _) = asked.resumed(OutcomeView::LibraryOpened(library));
    let (ended, _) = taken.resumed(OutcomeView::SymbolMissing);
    assert(ended.queue =~= state.queue);
    assert(ended.libraries =~= state.libraries);
}

/// Whether `state` is in the course of loading one module alone, in a load
/// that began in `begin`: it holds the modules that `begin` held, and the
/// libraries that `begin` held besides the one that was taken in for the
/// module.
pub open spec fn loading_alone_since<L, P>(
    begin: ManagerView<L, P>,
    state: ManagerView<L, P>,
) -> bool {
    &&& state.phase == Phase::Loading
    &&& !state.all_or_nothing
    &&& state.origin == begin.phase
    &&& state.plugins == begin.plugins
    &&& state.handed_back().libraries == begin.libraries
}

/// Whatever fails while one module is loaded alone, and at whichever step,
/// the registry afterwards holds the modules and the libraries that it held
/// when `load_plugin` was called, and is in the phase that it was in then:
/// no module and no handle of the failed load is left behind.
pub proof fn law_failed_load_leaves_nothing_behind<L, P>(
    begin: ManagerView<L, P>,
    directory: Seq<char>,
    state: ManagerView<L, P>,
    outcome: OutcomeView<L, P>,
)
    requires
        begin.wf(),
        state.wf(),
        loading_alone_since(begin, state),
    ensures
        begin.phase == Phase::Empty || begin.phase == Phase::Ready ==> loading_alone_since(
            begin,
            begin.begin_one(directory).0,
        ),
        ({
            let (next, directive) = state.resumed(outcome);
            &&& directive is Failed ==> next.plugins == begin.plugins && next.libraries
                == begin.libraries && next.phase == begin.phase && next.idle()
            &&& !(directive is Failed) && !(directive is Done) ==> loading_alone_since(begin, next)
        }),
{
    let (next, directive) = state.resumed(outcome);
    if directive is Failed {
        assert(next.libraries =~= begin.libraries);
    } else if !(directive is Done) {
        assert(next.handed_back().libraries =~= begin.libraries);
    }
    if begin.phase == Phase::Empty || begin.phase == Phase::Ready {
        assert(begin.begin_one(directory).0.handed_back().libraries =~= begin.libraries);
    }
}

/// Whatever fails while all modules are loaded, nothing that was loaded
/// stays: the registry is as `unload` would leave it.
pub proof fn law_failure_leaves_no_part<L, P>(state: ManagerView<L, P>, outcome: OutcomeView<L, P>)
    requires
        state.wf(),
        state.all_or_nothing,
        state.resumed(outcome).1 is Failed,
    ensures
        state.resumed(outcome).0 == state.unloaded(),
        state.resumed(outcome).0.plugins.len() == 0,
        state.resumed(outcome).0.libraries.len() == 0,
{
}

/// Unloading twice is unloading once: the second call runs no hook,
/// releases nothing and leaves the registry as the first call left it.
pub proof fn law_unload_is_idempotent<L, P>(state: ManagerView<L, P>)
    requires
        state.wf(),
    ensures
        state.unloaded().unloaded() == state.unloaded(),
        state.unloaded().plugins.len() == 0,
        state.unloaded().libraries.len() == 0,
        state.unloaded().idle(),
{
    let once = state.unloaded();
    assert(unload_hooks(once.plugins) =~= Seq::empty());
    assert(releases(0) =~= Seq::empty());
    assert(once.unloaded().journal =~= once.journal);
}

/// Shutdown has two phases. What it adds to the journal is the unload hook
/// of every module that has a capability object, in the order of the
/// modules, and behind the last of them the release of every library, in
/// the order in which they were opened: no library is released before
/// every hook has run.
pub proof fn law_hooks_run_before_releases<P>(plugins: Seq<ModuleView<P>>, handles: nat)
    requires
        plugins.len() <= usize::MAX,
        handles <= usize::MAX,
    ensures
        ({
            let events = unload_events(plugins, handles);
            let hooks = unload_hooks(plugins).len();
            &&& events.len() == hooks + handles
            &&& hooks <= plugins.len()
            &&& forall|i: int| 0 <= i < hooks ==> (#[trigger] events[i]) is UnloadHook
            &&& forall|i: int, j: int|
                0 <= i < j < hooks ==> (#[trigger] events[i])->UnloadHook_0 < (
                #[trigger] events[j])->UnloadHook_0
            &&& forall|i: int|
                0 <= i < handles ==> #[trigger] events[hooks + i] == LifecycleEvent::Released(
                    i as usize,
                )
        }),
{
    lemma_unload_hooks_in_order(plugins);
}

/// The unload hooks stand in the order of the modules.
proof fn lemma_unload_hooks_in_order<P>(plugins: Seq<ModuleView<P>>)
    requires
        plugins.len() <= usize::MAX,
    ensures
        unload_hooks(plugins).len() <= plugins.len(),
        forall|i: int|
            0 <= i < unload_hooks(plugins).len() ==> {
                &&& (#[trigger] unload_hooks(plugins)[i]) is UnloadHook
                &&& unload_hooks(plugins)[i]->UnloadHook_0 < plugins.len()
                &&& holds_capability(plugins, unload_hooks(plugins)[i]->UnloadHook_0 as int)
            },
        forall|i: int, j: int|
            0 <= i < j < unload_hooks(plugins).len() ==> (#[trigger] unload_hooks(
                plugins,
            )[i])->UnloadHook_0 < (#[trigger] unload_hooks(plugins)[j])->UnloadHook_0,
    decreases plugins.len(),
{
    if plugins.len() > 0 {
        let earlier = plugins.drop_last();
        lemma_unload_hooks_in_order(earlier);
        assert forall|i: int| 0 <= i < unload_hooks(earlier).len() implies holds_capability(
            plugins,
            (#[trigger] unload_hooks(earlier)[i])->UnloadHook_0 as int,
        ) by {
            let position = unload_hooks(earlier)[i]->UnloadHook_0 as int;
            assert(holds_capability(earlier, position));
            assert(earlier[position] == plugins[position]);
        }
    }
}

/// While modules are loaded, the modules only grow in number, and what the
/// registry held stays where it was. The libraries only grow too, but for
/// the one that is released when the load of its module fails before an
/// object was built from it. Only shutdown, or the failure of a load of all
/// modules, which is a shutdown, takes out anything else, and then it takes
/// everything.
pub proof fn law_collections_grow_or_empty<L, P>(
    state: ManagerView<L, P>,
    outcome: OutcomeView<L, P>,
)
    requires
        state.wf(),
    ensures
        ({
            let next = state.resumed(outcome).0;
            ||| next.plugins.len() == 0 && next.libraries.len() == 0
            ||| state.plugins.is_prefix_of(next.plugins) && state.libraries.is_prefix_of(
                next.libraries,
            )
            ||| next.plugins == state.plugins && state.stage is Capability && next.libraries
                == state.libraries.drop_last()
        }),
{
}

/// How many of the modules have a capability object.
pub open spec fn objects<P>(plugins: Seq<ModuleView<P>>) -> nat
    decreases plugins.len(),
{
    if plugins.len() == 0 {
        0
    } else {
        objects(plugins.drop_last()) + if plugins.last().library is Some {
            1nat
        } else {
            0nat
        }
    }
}

/// Whether the registry holds a library for each capability object that it
/// holds, and one more for the object that it waits for.
pub open spec fn objects_have_libraries<L, P>(state: ManagerView<L, P>) -> bool {
    objects(state.plugins) + if state.stage is Capability {
        1nat
    } else {
        0nat
    } <= state.libraries.len()
}

/// No capability object is ever without its library: the library is in the
/// registry before the object is asked for, and it is not released before
/// the object is gone.
pub proof fn law_objects_have_libraries<L, P>(
    state: ManagerView<L, P>,
    text: Seq<char>,
    outcome: OutcomeView<L, P>,
)
    requires
        state.wf(),
        objects_have_libraries(state),
    ensures
        objects_have_libraries(ManagerView::<L, P>::fresh()),
        objects_have_libraries(state.begin_all(text).0),
        objects_have_libraries(state.begin_one(text).0),
        objects_have_libraries(state.resumed(outcome).0),
        objects_have_libraries(state.unloaded()),
{
    let next = state.resumed(outcome).0;
    if next.plugins.len() == state.plugins.len() + 1 {
        assert(next.plugins.drop_last() =~= state.plugins);
    }
}

/// A module without a capability object adds no handler, and the handlers
/// of the others stand in the order of the modules: what a list of modules
/// gives is what its front part gives followed by what its back part gives.
pub proof fn law_routes_follow_the_modules<T>(
    front: Seq<Option<Seq<T>>>,
    back: Seq<Option<Seq<T>>>,
)
    ensures
        concatenated(front + back) == concatenated(front) + concatenated(back),
        concatenated(front.push(None)) == concatenated(front),
        forall|routes: Seq<T>| #[trigger]
            concatenated(front.push(Some(routes))) == concatenated(front) + routes,
        concatenated(Seq::<Option<Seq<T>>>::empty()) == Seq::<T>::empty(),
    decreases back.len(),
{
    assert(front.push(None).drop_last() =~= front);
    assert forall|routes: Seq<T>| #[trigger]
        concatenated(front.push(Some(routes))) == concatenated(front) + routes by {
        assert(front.push(Some(routes)).drop_last() =~= front);
    }
    if back.len() == 0 {
        assert(front + back =~= front);
        assert(concatenated(front) + concatenated(back) =~= concatenated(front));
    } else {
        assert((front + back).drop_last() =~= front + back.drop_last());
        law_routes_follow_the_modules(front, back.drop_last());
        match back.last() {
            Some(routes) => {
                assert(concatenated(front + back) =~= concatenated(front) + concatenated(back));
            },
            None => {},
        }
    }
}

/// Modules without a capability object add nothing at all: where no module
/// has one, there is no handler.
pub proof fn law_manifest_only_modules_add_no_route<T>(lists: Seq<Option<Seq<T>>>)
    requires
        forall|position: int| 0 <= position < lists.len() ==> lists[position] is None,
    ensures
        concatenated(lists) == Seq::<T>::empty(),
    decreases lists.len(),
{
    if lists.len() > 0 {
        law_manifest_only_modules_add_no_route(lists.drop_last());
    }
}

/// The state after the host has reported the bytes of one manifest file
/// after the other.
pub open spec fn read_in_turn<L, P>(state: ManagerView<L, P>, files: Seq<Seq<u8>>) -> ManagerView<
    L,
    P,
>
    decreases files.len(),
{
    if files.len() == 0 {
        state
    } else {
        read_in_turn(
            state.resumed(OutcomeView::ManifestRead(files.first())).0,
            files.drop_first(),
        )
    }
}

/// Whether every one of `files` is a manifest that names no library.
pub open spec fn all_manifest_only(files: Seq<Seq<u8>>) -> bool {
    forall|position: int|
        0 <= position < files.len() ==> decoded(#[trigger] files[position]) is Some && decoded(
            files[position],
        )->0.entry is None
}

/// Reading the manifests of the modules that are left of a load of all
/// modules, none of which names a library, adds each of them without a
/// capability object and ends the load.
proof fn lemma_manifest_only_modules_in_turn<L, P>(state: ManagerView<L, P>, files: Seq<Seq<u8>>)
    requires
        state.stage is Manifest,
        state.all_or_nothing,
        0 <= state.cursor < state.queue.len(),
        files.len() == state.queue.len() - state.cursor,
        all_manifest_only(files),
        none_has_capability(state.plugins),
        state.libraries.len() == 0,
    ensures
        read_in_turn(state, files).phase == Phase::Ready,
        read_in_turn(state, files).idle(),
        read_in_turn(state, files).plugins.len() == state.plugins.len() + files.len(),
        none_has_capability(read_in_turn(state, files).plugins),
        read_in_turn(state, files).libraries.len() == 0,
        read_in_turn(state, files).journal == state.journal,
    decreases files.len(),
{
    let next = state.resumed(OutcomeView::ManifestRead(files.first())).0;
    let rest = files.drop_first();
    assert(decoded(files[0]) is Some && decoded(files[0])->0.entry is None);
    assert(none_has_capability(next.plugins)) by {
        assert forall|position: int| 0 <= position < next.plugins.len() implies (
        #[trigger] next.plugins[position]).library is None by {
            if position < state.plugins.len() {
                assert(next.plugins[position] == state.plugins[position]);
            }
        }
    }
    if rest.len() == 0 {
        assert(read_in_turn(next, rest) == next);
    } else {
        assert(all_manifest_only(rest)) by {
            assert forall|position: int| 0 <= position < rest.len() implies decoded(
                #[trigger] rest[position],
            ) is Some && decoded(rest[position])->0.entry is None by {
                assert(rest[position] == files[position + 1]);
            }
        }
        lemma_manifest_only_modules_in_turn(next, rest);
    }
}

/// A load of all modules in which no manifest names a library succeeds: the
/// registry ends ready with one module for each directory, none of them
/// with a capability object, no library and no hook run. Such a registry
/// exposes no request handler: whatever the modules are asked for, nothing
/// comes together.
pub proof fn law_manifest_only_load_exposes_no_route<L, P, T>(
    state: ManagerView<L, P>,
    root: Seq<char>,
    directories: Seq<Seq<char>>,
    files: Seq<Seq<u8>>,
    lists: Seq<Option<Seq<T>>>,
)
    requires
        state.wf(),
        state.phase == Phase::Empty,
        files.len() == directories.len(),
        all_manifest_only(files),
        ({
            let listed = state.begin_all(root).0.resumed(OutcomeView::Modules(directories)).0;
            one_entry_per_module(lists, read_in_turn(listed, files).exposed())
        }),
    ensures
        ({
            let listed = state.begin_all(root).0.resumed(OutcomeView::Modules(directories)).0;
            let loaded = read_in_turn(listed, files);
            &&& loaded.phase == Phase::Ready
            &&& loaded.plugins.len() == directories.len()
            &&& none_has_capability(loaded.plugins)
            &&& loaded.libraries.len() == 0
            &&& loaded.journal == state.journal
            &&& concatenated(lists) == Seq::<T>::empty()
        }),
{
    let listed = state.begin_all(root).0.resumed(OutcomeView::Modules(directories)).0;
    let loaded = read_in_turn(listed, files);
    if directories.len() == 0 {
        assert(loaded == listed);
    } else {
        lemma_manifest_only_modules_in_turn(listed, files);
    }
    assert forall|position: int| 0 <= position < lists.len() implies lists[position] is None by {
        assert(loaded.exposed()[position].library is None);
    }
    law_manifest_only_modules_add_no_route(lists);
}

/// Every call takes a registry from one state that it can be in to
/// another, as long as its collections stay within what a machine can
/// count.
pub proof fn law_states_stay_well_formed<L, P>(
    state: ManagerView<L, P>,
    text: Seq<char>,
    outcome: OutcomeView<L, P>,
)
    requires
        state.wf(),
        state.plugins.len() < usize::MAX,
        state.libraries.len() < usize::MAX,
    ensures
        ManagerView::<L, P>::fresh().wf(),
        state.begin_all(text).0.wf(),
        state.begin_one(text).0.wf(),
        state.resumed(outcome).0.wf(),
        state.unloaded().wf(),
{
}

} // verus!
