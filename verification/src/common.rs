//! The capability interface: what the object built by a module's
//! construction function offers to the host.

use vstd::prelude::*;

verus! {

/// The capabilities of a loaded module. Only the identity has to be written;
/// the hooks default to doing nothing and the routes to none, so a module
/// overrides just the members it has a use for.
pub trait Plugin: Send + Sync {
    /// The host's type of a request-handler descriptor.
    type Route;

    /// A stable name for logs and diagnostics.
    fn name(&self) -> &'static str;

    /// Runs once, right after construction, while the module that built the
    /// object is resident.
    fn on_plugin_load(&self) {
    }

    /// Runs once during shutdown, before any module is released.
    fn on_plugin_unload(&self) {
    }

    /// The request handlers that the module exposes to the host's serving
    /// layer.
    fn register_routes(&self) -> (routes: Vec<Self::Route>)
        default_ensures
            routes@ == Seq::<Self::Route>::empty(),
    {
        Vec::new()
    }
}

} // verus!
