//! Plugin-side lifecycle state: the metadata fetched from the host at
//! initialization, the set-once lifecycle callback slots, and the small
//! context record that tells the host which callbacks were registered.
//!
//! A callback is registered as the address of its entry point, at most
//! once per slot; a second registration is a programming-error fault and
//! is ruled out by precondition, as is reading a slot that was never
//! registered.

use vstd::prelude::*;

verus! {

/// Plugin metadata, fetched once from the host through the opaque plugin
/// handle at initialization.
#[derive(Debug)]
pub struct PluginInfo {
    pub id: usize,
    pub name: String,
    pub description: String,
    pub version: String,
    pub author: String,
    pub website: String,
    pub license: String,
    pub location: String,
    pub dependencies: Vec<String>,
}

/// Which lifecycle callbacks the plugin registered, as reported to the
/// host after initialization.
#[derive(Clone, Copy, PartialEq, Eq, Debug, Structural)]
pub struct PluginContext {
    pub has_update: bool,
    pub has_start: bool,
    pub has_end: bool,
}

impl Default for PluginContext {
    /// A context reporting no registered callback.
    fn default() -> (c: PluginContext)
        ensures
            !c.has_update,
            !c.has_start,
            !c.has_end,
    {
        PluginContext { has_update: false, has_start: false, has_end: false }
    }
}

/// The plugin's lifecycle callback slots: the addresses of the start,
/// update and end entry points, each registered at most once.
pub struct PluginCallbacks {
    start_callback: Option<usize>,
    update_callback: Option<usize>,
    end_callback: Option<usize>,
}

impl Default for PluginCallbacks {
    /// Fresh callback slots with nothing registered.
    fn default() -> (c: PluginCallbacks)
        ensures
            c.start_spec() is None,
            c.update_spec() is None,
            c.end_spec() is None,
    {
        PluginCallbacks { start_callback: None, update_callback: None, end_callback: None }
    }
}

impl PluginCallbacks {
    /// The registered start callback address, if any.
    pub closed spec fn start_spec(&self) -> Option<usize> {
        self.start_callback
    }

    /// The registered update callback address, if any.
    pub closed spec fn update_spec(&self) -> Option<usize> {
        self.update_callback
    }

    /// The registered end callback address, if any.
    pub closed spec fn end_spec(&self) -> Option<usize> {
        self.end_callback
    }

    /// Whether a start callback is registered, at run time.
    pub fn has_start(&self) -> (b: bool)
        ensures
            b == (self.start_spec() is Some),
    {
        self.start_callback.is_some()
    }

    /// Whether an update callback is registered, at run time.
    pub fn has_update(&self) -> (b: bool)
        ensures
            b == (self.update_spec() is Some),
    {
        self.update_callback.is_some()
    }

    /// Whether an end callback is registered, at run time.
    pub fn has_end(&self) -> (b: bool)
        ensures
            b == (self.end_spec() is Some),
    {
        self.end_callback.is_some()
    }

    /// The registered start callback address.
    pub fn start(&self) -> (a: usize)
        requires
            self.start_spec() is Some,
        ensures
            self.start_spec() == Some(a),
    {
        self.start_callback.unwrap()
    }

    /// The registered update callback address.
    pub fn update(&self) -> (a: usize)
        requires
            self.update_spec() is Some,
        ensures
            self.update_spec() == Some(a),
    {
        self.update_callback.unwrap()
    }

    /// The registered end callback address.
    pub fn end(&self) -> (a: usize)
        requires
            self.end_spec() is Some,
        ensures
            self.end_spec() == Some(a),
    {
        self.end_callback.unwrap()
    }

    /// The context record reporting which callbacks are registered.
    pub fn context(&self) -> (c: PluginContext)
        ensures
            c.has_update == (self.update_spec() is Some),
            c.has_start == (self.start_spec() is Some),
            c.has_end == (self.end_spec() is Some),
    {
        PluginContext {
            has_update: self.update_callback.is_some(),
            has_start: self.start_callback.is_some(),
            has_end: self.end_callback.is_some(),
        }
    }
}

/// Register the start callback, at most once.
pub fn on_plugin_start(callbacks: &mut PluginCallbacks, func: usize)
    requires
        old(callbacks).start_spec() is None,
    ensures
        final(callbacks).start_spec() == Some(func),
        final(callbacks).update_spec() == old(callbacks).update_spec(),
        final(callbacks).end_spec() == old(callbacks).end_spec(),
{
    callbacks.start_callback = Some(func);
}

/// Register the update callback, at most once.
pub fn on_plugin_update(callbacks: &mut PluginCallbacks, func: usize)
    requires
        old(callbacks).update_spec() is None,
    ensures
        final(callbacks).update_spec() == Some(func),
        final(callbacks).start_spec() == old(callbacks).start_spec(),
        final(callbacks).end_spec() == old(callbacks).end_spec(),
{
    callbacks.update_callback = Some(func);
}

/// Register the end callback, at most once.
pub fn on_plugin_end(callbacks: &mut PluginCallbacks, func: usize)
    requires
        old(callbacks).end_spec() is None,
    ensures
        final(callbacks).end_spec() == Some(func),
        final(callbacks).start_spec() == old(callbacks).start_spec(),
        final(callbacks).update_spec() == old(callbacks).update_spec(),
{
    callbacks.end_callback = Some(func);
}

} // verus!
