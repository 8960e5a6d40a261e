use meiti::common::Plugin;
use meiti::config::Config;
use meiti::error::LoadError;
use meiti::manifest::PluginManifest;
use meiti::plugins::PluginManager;
use meiti::protocol::{Directive, LifecycleEvent, Outcome, Phase, Stage, RESOURCE_PROVIDER};
use std::sync::{Arc, Mutex};

type Log = Arc<Mutex<Vec<String>>>;

fn new_log() -> Log {
    Arc::new(Mutex::new(Vec::new()))
}

fn entries(log: &Log) -> Vec<String> {
    log.lock().unwrap().clone()
}

/// A capability object that writes down what is done to it.
struct Probe {
    name: &'static str,
    routes: Vec<String>,
    log: Log,
}

impl Probe {
    fn new(name: &'static str, routes: &[&str], log: &Log) -> Probe {
        Probe { name, routes: routes.iter().map(|r| r.to_string()).collect(), log: log.clone() }
    }
}

impl Plugin for Probe {
    type Route = String;

    fn name(&self) -> &'static str {
        self.name
    }

    fn on_plugin_load(&self) {
        self.log.lock().unwrap().push(format!("load {}", self.name));
    }

    fn on_plugin_unload(&self) {
        self.log.lock().unwrap().push(format!("unload {}", self.name));
    }

    fn register_routes(&self) -> Vec<String> {
        self.routes.clone()
    }
}

impl Drop for Probe {
    fn drop(&mut self) {
        self.log.lock().unwrap().push(format!("drop {}", self.name));
    }
}

/// A capability object that takes every default.
struct Quiet;

impl Plugin for Quiet {
    type Route = String;

    fn name(&self) -> &'static str {
        "quiet"
    }
}

/// A library handle that writes down its release.
struct Handle {
    path: String,
    log: Log,
}

impl Handle {
    fn new(path: &str, log: &Log) -> Handle {
        Handle { path: path.to_string(), log: log.clone() }
    }
}

impl Drop for Handle {
    fn drop(&mut self) {
        self.log.lock().unwrap().push(format!("release {}", self.path));
    }
}

fn manifest(name: &str, entry: Option<&str>) -> Vec<u8> {
    let entry = match entry {
        Some(path) => format!(", \"entry\": \"{}\"", path),
        None => String::new(),
    };
    format!(
        "{{\"name\": \"{}\", \"version\": \"1.2.3\", \"scope\": \"media\", \
         \"summary\": \"s\", \"description\": \"d\", \
         \"homepage\": \"https://example.org/\", \"license\": \"MIT\", \
         \"source\": \"https://example.org/src\"{}}}",
        name, entry
    )
    .into_bytes()
}

fn config(root: &str) -> Config {
    Config {
        port: 1,
        log_file_path: "l".to_string(),
        plugins_file_path: root.to_string(),
        database_file: "d".to_string(),
        sentry: false,
    }
}

fn read(path: &str) -> Directive {
    Directive::ReadManifest { path: path.to_string() }
}

fn open(path: &str) -> Directive {
    Directive::OpenLibrary { path: path.to_string() }
}

fn construct() -> Directive {
    Directive::Construct { symbol: "_plugin_create".to_string() }
}

fn names(manager: &PluginManager<Handle, Probe>) -> Vec<String> {
    manager.plugins().iter().map(|p| p.name().to_string()).collect()
}

/// Takes `foo` (with a library) and `bar` (without) through a load of all
/// modules under `/root`.
fn load_foo_and_bar(log: &Log) -> PluginManager<Handle, Probe> {
    let mut manager = PluginManager::new();
    assert_eq!(
        manager.load_all_plugins(&config("/root")),
        Directive::ListModules { root: "/root".to_string() }
    );
    assert_eq!(
        manager.resume(Outcome::Modules(vec!["/root/foo".to_string(), "/root/bar".to_string()])),
        read("/root/foo/manifest")
    );
    assert_eq!(
        manager.resume(Outcome::ManifestRead(manifest("foo", Some("foo.module")))),
        open("/root/foo/foo.module")
    );
    assert_eq!(
        manager.resume(Outcome::LibraryOpened(Handle::new("/root/foo/foo.module", log))),
        construct()
    );
    assert_eq!(
        manager.resume(Outcome::Constructed(Probe::new("foo", &["ping"], log))),
        read("/root/bar/manifest")
    );
    assert_eq!(manager.resume(Outcome::ManifestRead(manifest("bar", None))), Directive::Done);
    manager
}

#[test]
fn new_registry_is_empty() {
    let manager: PluginManager<Handle, Probe> = PluginManager::new();
    assert_eq!(manager.phase(), Phase::Empty);
    assert_eq!(*manager.stage(), Stage::Idle);
    assert!(manager.plugins().is_empty());
    assert!(manager.loaded_libraries().is_empty());
    assert!(manager.last_library().is_none());
    assert!(manager.journal().is_empty());
    assert!(manager.register_routes().is_empty());
}

#[test]
fn scenario_foo_with_library_and_bar_without() {
    let log = new_log();
    let mut manager = load_foo_and_bar(&log);
    assert_eq!(manager.phase(), Phase::Ready);
    assert_eq!(manager.plugins().len(), 2);
    assert_eq!(manager.loaded_libraries().len(), 1);
    assert_eq!(names(&manager), vec!["foo".to_string(), "bar".to_string()]);
    assert!(manager.plugins()[0].library().is_some());
    assert!(manager.plugins()[1].library().is_none());
    assert_eq!(manager.plugins()[0].directory(), "/root/foo");
    assert_eq!(manager.plugins()[1].directory(), "/root/bar");
    assert_eq!(manager.register_routes(), vec!["ping".to_string()]);
    assert_eq!(entries(&log), vec!["load foo".to_string()]);
    assert_eq!(*manager.journal(), vec![LifecycleEvent::LoadHook(0)]);

    manager.unload();
    assert_eq!(
        entries(&log),
        vec![
            "load foo".to_string(),
            "unload foo".to_string(),
            "drop foo".to_string(),
            "release /root/foo/foo.module".to_string(),
        ]
    );
    assert_eq!(
        *manager.journal(),
        vec![
            LifecycleEvent::LoadHook(0),
            LifecycleEvent::UnloadHook(0),
            LifecycleEvent::Released(0),
        ]
    );
    assert_eq!(manager.phase(), Phase::Unloaded);
    assert!(manager.plugins().is_empty());
    assert!(manager.loaded_libraries().is_empty());
}

#[test]
fn manifest_only_module_loads_without_capability() {
    let mut manager: PluginManager<Handle, Probe> = PluginManager::new();
    assert_eq!(manager.load_plugin("/m/bar".to_string()), read("/m/bar/manifest"));
    assert_eq!(manager.phase(), Phase::Loading);
    assert_eq!(*manager.stage(), Stage::Manifest);
    assert_eq!(manager.resume(Outcome::ManifestRead(manifest("bar", None))), Directive::Done);
    assert_eq!(manager.phase(), Phase::Ready);
    assert_eq!(manager.plugins().len(), 1);
    assert_eq!(manager.plugins()[0].name(), "bar");
    assert!(manager.plugins()[0].library().is_none());
    assert!(manager.loaded_libraries().is_empty());
    assert!(manager.journal().is_empty());
}

#[test]
fn module_with_library_runs_each_hook_once() {
    let log = new_log();
    let mut manager: PluginManager<Handle, Probe> = PluginManager::new();
    assert_eq!(manager.load_plugin("/m/foo".to_string()), read("/m/foo/manifest"));
    assert_eq!(
        manager.resume(Outcome::ManifestRead(manifest("foo", Some("lib/foo.so")))),
        open("/m/foo/lib/foo.so")
    );
    assert_eq!(*manager.stage(), Stage::Library { name: "foo".to_string() });
    assert_eq!(manager.resume(Outcome::LibraryOpened(Handle::new("h", &log))), construct());
    assert_eq!(*manager.stage(), Stage::Capability { name: "foo".to_string() });
    assert_eq!(manager.last_library().unwrap().path, "h");
    assert!(entries(&log).is_empty());
    assert_eq!(manager.resume(Outcome::Constructed(Probe::new("foo", &[], &log))), Directive::Done);
    assert_eq!(entries(&log), vec!["load foo".to_string()]);

    manager.unload();
    manager.unload();
    manager.unload();
    let seen = entries(&log);
    assert_eq!(seen.iter().filter(|e| *e == "load foo").count(), 1);
    assert_eq!(seen.iter().filter(|e| *e == "unload foo").count(), 1);
    assert_eq!(seen.iter().filter(|e| *e == "release h").count(), 1);
}

#[test]
fn missing_manifest_fails_and_changes_nothing() {
    let log = new_log();
    let mut manager = load_foo_and_bar(&log);
    assert_eq!(manager.load_plugin("/root/baz".to_string()), read("/root/baz/manifest"));
    assert_eq!(
        manager.resume(Outcome::ManifestMissing),
        Directive::Failed(LoadError::ManifestNotFound)
    );
    assert_eq!(manager.phase(), Phase::Ready);
    assert_eq!(*manager.stage(), Stage::Idle);
    assert_eq!(names(&manager), vec!["foo".to_string(), "bar".to_string()]);
    assert_eq!(manager.loaded_libraries().len(), 1);
    assert_eq!(*manager.journal(), vec![LifecycleEvent::LoadHook(0)]);
    assert_eq!(entries(&log), vec!["load foo".to_string()]);
}

#[test]
fn missing_manifest_in_an_empty_registry_leaves_it_empty() {
    let mut manager: PluginManager<Handle, Probe> = PluginManager::new();
    manager.load_plugin("/m/none".to_string());
    assert_eq!(
        manager.resume(Outcome::ManifestMissing),
        Directive::Failed(LoadError::ManifestNotFound)
    );
    assert_eq!(manager.phase(), Phase::Empty);
    assert!(manager.plugins().is_empty());
    assert!(manager.loaded_libraries().is_empty());
}

#[test]
fn malformed_manifest_fails_with_parse_error() {
    let mut manager: PluginManager<Handle, Probe> = PluginManager::new();
    manager.load_plugin("/m/bad".to_string());
    assert_eq!(
        manager.resume(Outcome::ManifestRead(b"{ not json".to_vec())),
        Directive::Failed(LoadError::ManifestParseError)
    );
    assert_eq!(manager.phase(), Phase::Empty);
    assert!(manager.plugins().is_empty());
}

#[test]
fn library_that_does_not_open_fails_and_changes_nothing() {
    let log = new_log();
    let mut manager = load_foo_and_bar(&log);
    manager.load_plugin("/root/qux".to_string());
    assert_eq!(
        manager.resume(Outcome::ManifestRead(manifest("qux", Some("qux.module")))),
        open("/root/qux/qux.module")
    );
    assert_eq!(
        manager.resume(Outcome::LibraryFailed("no such file".to_string())),
        Directive::Failed(LoadError::LibraryOpenError("no such file".to_string()))
    );
    assert_eq!(manager.phase(), Phase::Ready);
    assert_eq!(names(&manager), vec!["foo".to_string(), "bar".to_string()]);
    assert_eq!(manager.loaded_libraries().len(), 1);
    assert_eq!(*manager.journal(), vec![LifecycleEvent::LoadHook(0)]);
}

#[test]
fn missing_symbol_fails_and_releases_the_handle_at_once() {
    let log = new_log();
    let mut manager: PluginManager<Handle, Probe> = PluginManager::new();
    manager.load_plugin("/m/foo".to_string());
    manager.resume(Outcome::ManifestRead(manifest("foo", Some("foo.so"))));
    assert_eq!(manager.resume(Outcome::LibraryOpened(Handle::new("foo.so", &log))), construct());
    assert_eq!(manager.loaded_libraries().len(), 1);
    assert!(entries(&log).is_empty());
    assert_eq!(
        manager.resume(Outcome::SymbolMissing),
        Directive::Failed(LoadError::MissingEntryPointSymbol)
    );
    assert_eq!(manager.phase(), Phase::Empty);
    assert_eq!(*manager.stage(), Stage::Idle);
    assert!(manager.plugins().is_empty());
    assert!(manager.loaded_libraries().is_empty());
    assert!(manager.last_library().is_none());
    assert_eq!(entries(&log), vec!["release foo.so".to_string()]);
    assert_eq!(*manager.journal(), vec![LifecycleEvent::Released(0)]);
    manager.unload();
    assert_eq!(entries(&log), vec!["release foo.so".to_string()]);
    assert_eq!(*manager.journal(), vec![LifecycleEvent::Released(0)]);
    assert_eq!(manager.phase(), Phase::Empty);
}

#[test]
fn missing_symbol_leaves_a_ready_registry_as_it_was() {
    let log = new_log();
    let mut manager = load_foo_and_bar(&log);
    manager.load_plugin("/root/qux".to_string());
    manager.resume(Outcome::ManifestRead(manifest("qux", Some("qux.module"))));
    manager.resume(Outcome::LibraryOpened(Handle::new("/root/qux/qux.module", &log)));
    assert_eq!(manager.loaded_libraries().len(), 2);
    assert_eq!(
        manager.resume(Outcome::SymbolMissing),
        Directive::Failed(LoadError::MissingEntryPointSymbol)
    );
    assert_eq!(manager.phase(), Phase::Ready);
    assert_eq!(names(&manager), vec!["foo".to_string(), "bar".to_string()]);
    assert_eq!(manager.loaded_libraries().len(), 1);
    assert_eq!(manager.last_library().unwrap().path, "/root/foo/foo.module");
    assert_eq!(manager.register_routes(), vec!["ping".to_string()]);
    assert_eq!(
        entries(&log),
        vec!["load foo".to_string(), "release /root/qux/qux.module".to_string()]
    );
    assert_eq!(
        *manager.journal(),
        vec![LifecycleEvent::LoadHook(0), LifecycleEvent::Released(1)]
    );
    manager.unload();
    assert_eq!(
        entries(&log),
        vec![
            "load foo".to_string(),
            "release /root/qux/qux.module".to_string(),
            "unload foo".to_string(),
            "drop foo".to_string(),
            "release /root/foo/foo.module".to_string(),
        ]
    );
}

#[test]
fn missing_symbol_while_loading_all_discards_everything() {
    let log = new_log();
    let mut manager: PluginManager<Handle, Probe> = PluginManager::new();
    manager.load_all_plugins(&config("/r"));
    manager.resume(Outcome::Modules(vec!["/r/a".to_string(), "/r/b".to_string()]));
    manager.resume(Outcome::ManifestRead(manifest("a", Some("a.so"))));
    manager.resume(Outcome::LibraryOpened(Handle::new("a.so", &log)));
    manager.resume(Outcome::Constructed(Probe::new("a", &["x"], &log)));
    manager.resume(Outcome::ManifestRead(manifest("b", Some("b.so"))));
    manager.resume(Outcome::LibraryOpened(Handle::new("b.so", &log)));
    assert_eq!(
        manager.resume(Outcome::SymbolMissing),
        Directive::Failed(LoadError::MissingEntryPointSymbol)
    );
    assert_eq!(manager.phase(), Phase::Unloaded);
    assert!(manager.plugins().is_empty());
    assert!(manager.loaded_libraries().is_empty());
    assert_eq!(
        entries(&log),
        vec![
            "load a".to_string(),
            "unload a".to_string(),
            "drop a".to_string(),
            "release a.so".to_string(),
            "release b.so".to_string(),
        ]
    );
}

#[test]
fn registry_of_manifest_only_modules_exposes_no_route() {
    let mut manager: PluginManager<Handle, Probe> = PluginManager::new();
    manager.load_all_plugins(&config("/r"));
    let directories: Vec<String> = (0..5).map(|i| format!("/r/m{}", i)).collect();
    manager.resume(Outcome::Modules(directories));
    for i in 0..5 {
        let directive = manager.resume(Outcome::ManifestRead(manifest(&format!("m{}", i), None)));
        if i < 4 {
            assert_eq!(directive, read(&format!("/r/m{}/manifest", i + 1)));
        } else {
            assert_eq!(directive, Directive::Done);
        }
    }
    assert_eq!(manager.phase(), Phase::Ready);
    assert_eq!(manager.plugins().len(), 5);
    assert!(manager.loaded_libraries().is_empty());
    assert!(manager.journal().is_empty());
    assert!(manager.register_routes().is_empty());
    assert_eq!(manager.exposed_routes(), vec![None, None, None, None, None]);
}

#[test]
fn failure_while_loading_all_discards_what_was_loaded() {
    let log = new_log();
    let mut manager: PluginManager<Handle, Probe> = PluginManager::new();
    manager.load_all_plugins(&config("/root"));
    manager.resume(Outcome::Modules(vec!["/root/a".to_string(), "/root/b".to_string()]));
    manager.resume(Outcome::ManifestRead(manifest("a", Some("a.so"))));
    manager.resume(Outcome::LibraryOpened(Handle::new("a.so", &log)));
    assert_eq!(
        manager.resume(Outcome::Constructed(Probe::new("a", &["x"], &log))),
        read("/root/b/manifest")
    );
    assert_eq!(
        manager.resume(Outcome::ManifestMissing),
        Directive::Failed(LoadError::ManifestNotFound)
    );
    assert_eq!(manager.phase(), Phase::Unloaded);
    assert!(manager.plugins().is_empty());
    assert!(manager.loaded_libraries().is_empty());
    assert!(manager.register_routes().is_empty());
    assert_eq!(
        entries(&log),
        vec![
            "load a".to_string(),
            "unload a".to_string(),
            "drop a".to_string(),
            "release a.so".to_string(),
        ]
    );
    assert_eq!(
        *manager.journal(),
        vec![
            LifecycleEvent::LoadHook(0),
            LifecycleEvent::UnloadHook(0),
            LifecycleEvent::Released(0),
        ]
    );
}

#[test]
fn loading_all_of_an_empty_root_is_ready_at_once() {
    let mut manager: PluginManager<Handle, Probe> = PluginManager::new();
    manager.load_all_plugins(&config("/root"));
    assert_eq!(manager.phase(), Phase::Loading);
    assert_eq!(*manager.stage(), Stage::Listing);
    assert_eq!(manager.resume(Outcome::Modules(Vec::new())), Directive::Done);
    assert_eq!(manager.phase(), Phase::Ready);
    assert!(manager.plugins().is_empty());
}

#[test]
fn unload_is_idempotent() {
    let log = new_log();
    let mut manager = load_foo_and_bar(&log);
    manager.unload();
    let journal = manager.journal().clone();
    let seen = entries(&log);
    manager.unload();
    assert_eq!(*manager.journal(), journal);
    assert_eq!(entries(&log), seen);
    assert_eq!(manager.phase(), Phase::Unloaded);
}

#[test]
fn unload_of_a_registry_that_loaded_nothing_keeps_it_empty() {
    let mut manager: PluginManager<Handle, Probe> = PluginManager::new();
    manager.unload();
    assert_eq!(manager.phase(), Phase::Empty);
    assert!(manager.journal().is_empty());
    assert_eq!(manager.load_plugin("/m/x".to_string()), read("/m/x/manifest"));
}

#[test]
fn unload_gives_up_a_load_under_way() {
    let log = new_log();
    let mut manager: PluginManager<Handle, Probe> = PluginManager::new();
    manager.load_plugin("/m/foo".to_string());
    manager.resume(Outcome::ManifestRead(manifest("foo", Some("foo.so"))));
    manager.resume(Outcome::LibraryOpened(Handle::new("foo.so", &log)));
    manager.unload();
    assert_eq!(manager.phase(), Phase::Unloaded);
    assert_eq!(*manager.stage(), Stage::Idle);
    assert_eq!(entries(&log), vec!["release foo.so".to_string()]);
    assert_eq!(
        manager.resume(Outcome::Constructed(Probe::new("late", &[], &log))),
        Directive::Refused
    );
}

#[test]
fn shutdown_does_what_unload_does() {
    let first = new_log();
    let mut unloaded = load_foo_and_bar(&first);
    unloaded.unload();
    let expected = unloaded.journal().clone();

    let second = new_log();
    let dropped = load_foo_and_bar(&second);
    let journal = dropped.shutdown();
    assert_eq!(journal, expected);
    assert_eq!(entries(&second), entries(&first));
    assert_eq!(entries(&second).iter().filter(|e| *e == "unload foo").count(), 1);
}

#[test]
fn shutdown_of_an_empty_registry_does_nothing() {
    let manager: PluginManager<Handle, Probe> = PluginManager::new();
    assert!(manager.shutdown().is_empty());
}

#[test]
fn hooks_run_before_any_library_is_released() {
    let log = new_log();
    let mut manager: PluginManager<Handle, Probe> = PluginManager::new();
    manager.load_all_plugins(&config("/r"));
    manager.resume(Outcome::Modules(vec![
        "/r/a".to_string(),
        "/r/b".to_string(),
        "/r/c".to_string(),
    ]));
    manager.resume(Outcome::ManifestRead(manifest("a", Some("a.so"))));
    manager.resume(Outcome::LibraryOpened(Handle::new("a.so", &log)));
    manager.resume(Outcome::Constructed(Probe::new("a", &["a1", "a2"], &log)));
    manager.resume(Outcome::ManifestRead(manifest("b", None)));
    manager.resume(Outcome::ManifestRead(manifest("c", Some("c.so"))));
    manager.resume(Outcome::LibraryOpened(Handle::new("c.so", &log)));
    assert_eq!(
        manager.resume(Outcome::Constructed(Probe::new("c", &["c1"], &log))),
        Directive::Done
    );
    assert_eq!(
        manager.register_routes(),
        vec!["a1".to_string(), "a2".to_string(), "c1".to_string()]
    );
    manager.unload();
    assert_eq!(
        entries(&log),
        vec![
            "load a".to_string(),
            "load c".to_string(),
            "unload a".to_string(),
            "unload c".to_string(),
            "drop a".to_string(),
            "drop c".to_string(),
            "release a.so".to_string(),
            "release c.so".to_string(),
        ]
    );
    assert_eq!(
        *manager.journal(),
        vec![
            LifecycleEvent::LoadHook(0),
            LifecycleEvent::LoadHook(2),
            LifecycleEvent::UnloadHook(0),
            LifecycleEvent::UnloadHook(2),
            LifecycleEvent::Released(0),
            LifecycleEvent::Released(1),
        ]
    );
}

#[test]
fn routes_are_hidden_until_loading_is_over() {
    let log = new_log();
    let mut manager: PluginManager<Handle, Probe> = PluginManager::new();
    manager.load_all_plugins(&config("/r"));
    manager.resume(Outcome::Modules(vec!["/r/a".to_string(), "/r/b".to_string()]));
    manager.resume(Outcome::ManifestRead(manifest("a", Some("a.so"))));
    manager.resume(Outcome::LibraryOpened(Handle::new("a.so", &log)));
    manager.resume(Outcome::Constructed(Probe::new("a", &["a1"], &log)));
    assert_eq!(manager.phase(), Phase::Loading);
    assert!(manager.register_routes().is_empty());
    assert!(manager.exposed_routes().is_empty());
    assert_eq!(manager.resource_directory_of("a"), None);
    manager.resume(Outcome::ManifestRead(manifest("b", None)));
    assert_eq!(manager.register_routes(), vec!["a1".to_string()]);
    assert_eq!(manager.exposed_routes(), vec![Some(vec!["a1".to_string()]), None]);
}

#[test]
fn resource_directory_is_that_of_the_first_module_of_the_name() {
    let log = new_log();
    let mut manager: PluginManager<Handle, Probe> = PluginManager::new();
    manager.load_all_plugins(&config("/r"));
    manager.resume(Outcome::Modules(vec![
        "/r/one".to_string(),
        "/r/two".to_string(),
        "/r/three".to_string(),
    ]));
    manager.resume(Outcome::ManifestRead(manifest("other", None)));
    manager.resume(Outcome::ManifestRead(manifest("web", None)));
    manager.resume(Outcome::ManifestRead(manifest("web", None)));
    assert_eq!(manager.resource_directory_of("web"), Some("/r/two".to_string()));
    assert_eq!(manager.resource_directory_of("other"), Some("/r/one".to_string()));
    assert_eq!(manager.resource_directory_of("absent"), None);
    assert_eq!(manager.resource_directory(), None);
    manager.unload();
    assert_eq!(manager.resource_directory_of("web"), None);
    assert!(entries(&log).is_empty());
}

#[test]
fn resource_directory_is_that_of_the_web_client() {
    let mut manager: PluginManager<Handle, Probe> = PluginManager::new();
    assert_eq!(manager.resource_directory(), None);
    manager.load_all_plugins(&config("/r"));
    manager.resume(Outcome::Modules(vec!["/r/x".to_string(), "/r/ui".to_string()]));
    manager.resume(Outcome::ManifestRead(manifest("x", None)));
    assert_eq!(manager.resource_directory(), None);
    assert_eq!(
        manager.resume(Outcome::ManifestRead(manifest("web-client", None))),
        Directive::Done
    );
    assert_eq!(manager.resource_directory(), Some("/r/ui".to_string()));
    assert_eq!(manager.resource_directory_of(RESOURCE_PROVIDER), Some("/r/ui".to_string()));
}

#[test]
fn a_host_may_read_manifests_itself() {
    let log = new_log();
    let mut manager: PluginManager<Handle, Probe> = PluginManager::new();
    assert_eq!(
        manager.resume_with_manifest(PluginManifest::decode(&manifest("early", None))),
        Directive::Refused
    );
    manager.load_all_plugins(&config("/r"));
    manager.resume(Outcome::Modules(vec!["/r/a".to_string(), "/r/b".to_string()]));
    assert_eq!(
        manager.resume_with_manifest(PluginManifest::decode(&manifest("a", Some("a.so")))),
        open("/r/a/a.so")
    );
    assert_eq!(
        manager.resume_with_manifest(PluginManifest::decode(&manifest("a", None))),
        Directive::Refused
    );
    manager.resume(Outcome::LibraryOpened(Handle::new("a.so", &log)));
    manager.resume(Outcome::Constructed(Probe::new("a", &[], &log)));
    assert_eq!(
        manager.resume_with_manifest(Err(LoadError::ManifestParseError)),
        Directive::Failed(LoadError::ManifestParseError)
    );
    assert_eq!(manager.phase(), Phase::Unloaded);
    assert_eq!(
        entries(&log),
        vec![
            "load a".to_string(),
            "unload a".to_string(),
            "drop a".to_string(),
            "release a.so".to_string(),
        ]
    );
}

#[test]
fn calls_that_do_not_fit_are_refused() {
    let log = new_log();
    let mut manager: PluginManager<Handle, Probe> = PluginManager::new();
    assert_eq!(manager.resume(Outcome::ManifestMissing), Directive::Refused);
    assert_eq!(manager.resume(Outcome::Modules(vec!["/x".to_string()])), Directive::Refused);
    assert_eq!(manager.phase(), Phase::Empty);

    manager.load_plugin("/m/foo".to_string());
    assert_eq!(manager.load_plugin("/m/again".to_string()), Directive::Refused);
    assert_eq!(manager.load_all_plugins(&config("/m")), Directive::Refused);
    assert_eq!(manager.resume(Outcome::SymbolMissing), Directive::Refused);
    assert_eq!(
        manager.resume(Outcome::LibraryOpened(Handle::new("early", &log))),
        Directive::Refused
    );
    assert_eq!(entries(&log), vec!["release early".to_string()]);
    assert_eq!(
        manager.resume(Outcome::LibraryFailed("early".to_string())),
        Directive::Refused
    );
    assert_eq!(*manager.stage(), Stage::Manifest);
    assert_eq!(manager.resume(Outcome::ManifestRead(manifest("foo", None))), Directive::Done);

    assert_eq!(manager.load_all_plugins(&config("/m")), Directive::Refused);
    manager.unload();
    assert_eq!(manager.load_plugin("/m/late".to_string()), Directive::Refused);
    assert_eq!(manager.load_all_plugins(&config("/m")), Directive::Refused);
    assert_eq!(manager.phase(), Phase::Unloaded);
}

#[test]
fn default_capabilities_do_nothing() {
    let quiet = Quiet;
    assert_eq!(quiet.name(), "quiet");
    quiet.on_plugin_load();
    quiet.on_plugin_unload();
    assert!(quiet.register_routes().is_empty());

    let mut manager: PluginManager<u32, Quiet> = PluginManager::new();
    manager.load_plugin("/m/quiet".to_string());
    manager.resume(Outcome::ManifestRead(manifest("quiet", Some("q.so"))));
    manager.resume(Outcome::LibraryOpened(7));
    assert_eq!(manager.resume(Outcome::Constructed(Quiet)), Directive::Done);
    assert!(manager.register_routes().is_empty());
    assert_eq!(*manager.loaded_libraries(), vec![7]);
    assert_eq!(manager.journal().len(), 1);
}
