//! The strict load-and-invoke order for the produced modules: runtime
//! support first with global visibility and eager resolution, then the
//! shared-base module, then the plugin; then the entry symbol, the one
//! invocation, and done. No transition may be skipped, and any failure is
//! terminal with a diagnostic naming what failed. The caller performs the
//! actual opens and symbol lookups and reports each outcome; the machine
//! enforces the order and records the observable effects.

use vstd::prelude::*;
use crate::service::{Event, EventLog, StateCell, use_plugin};

verus! {

/// The three modules, in their mandatory load order.
#[derive(Debug, Copy, Clone, PartialEq, Eq, Structural)]
pub enum ModuleKind {
    Runtime,
    Base,
    Plugin,
}

/// A fatal loading failure, naming which module or symbol failed.
#[derive(Debug, Copy, Clone, PartialEq, Eq, Structural)]
pub enum LoadError {
    /// The module could not be opened, or a mandatory symbol of it was
    /// unresolved at open time.
    OpenFailed { module: ModuleKind },
    /// The plugin's well-known entry symbol could not be resolved.
    EntryUnresolved,
}

/// Where a run stands; a failure at any stage is terminal.
#[derive(Debug, Copy, Clone, PartialEq, Eq, Structural)]
pub enum LoadStage {
    NotLoaded,
    RuntimeLoaded,
    BaseLoaded,
    PluginLoaded,
    ServiceInvoked,
    Done,
    Failed,
}

/// The per-run load state machine.
#[derive(Debug)]
pub struct Loader {
    pub stage: LoadStage,
    /// Whether the plugin's entry symbol has been resolved.
    pub entry_resolved: bool,
}

impl Loader {
    pub fn new() -> (r: Loader)
        ensures
            r.stage is NotLoaded,
            !r.entry_resolved,
    {
        Loader { stage: LoadStage::NotLoaded, entry_resolved: false }
    }

    /// Takes the outcome of opening the runtime-support module with
    /// global symbol visibility and eager resolution.
    pub fn on_runtime_opened(&mut self, ok: bool, log: &mut EventLog) -> (r: Result<
        (),
        LoadError,
    >)
        requires
            old(self).stage is NotLoaded,
        ensures
            final(self).entry_resolved == old(self).entry_resolved,
            ok <==> r is Ok,
            r is Ok ==> final(self).stage is RuntimeLoaded && final(log)@ == old(log)@.push(
                Event::RuntimeLoaded,
            ),
            r matches Err(e) ==> final(self).stage is Failed && e == (LoadError::OpenFailed {
                module: ModuleKind::Runtime,
            }) && final(log)@ == old(log)@,
    {
        if ok {
            self.stage = LoadStage::RuntimeLoaded;
            log.record(Event::RuntimeLoaded);
            Ok(())
        } else {
            self.stage = LoadStage::Failed;
            Err(LoadError::OpenFailed { module: ModuleKind::Runtime })
        }
    }

    /// Takes the outcome of opening the shared-base module, under the
    /// same visibility and resolution policy.
    pub fn on_base_opened(&mut self, ok: bool, log: &mut EventLog) -> (r: Result<(), LoadError>)
        requires
            old(self).stage is RuntimeLoaded,
        ensures
            final(self).entry_resolved == old(self).entry_resolved,
            ok <==> r is Ok,
            r is Ok ==> final(self).stage is BaseLoaded && final(log)@ == old(log)@.push(
                Event::BaseLoaded,
            ),
            r matches Err(e) ==> final(self).stage is Failed && e == (LoadError::OpenFailed {
                module: ModuleKind::Base,
            }) && final(log)@ == old(log)@,
    {
        if ok {
            self.stage = LoadStage::BaseLoaded;
            log.record(Event::BaseLoaded);
            Ok(())
        } else {
            self.stage = LoadStage::Failed;
            Err(LoadError::OpenFailed { module: ModuleKind::Base })
        }
    }

    /// Takes the outcome of opening the plugin module.
    pub fn on_plugin_opened(&mut self, ok: bool, log: &mut EventLog) -> (r: Result<
        (),
        LoadError,
    >)
        requires
            old(self).stage is BaseLoaded,
        ensures
            final(self).entry_resolved == old(self).entry_resolved,
            ok <==> r is Ok,
            r is Ok ==> final(self).stage is PluginLoaded && final(log)@ == old(log)@.push(
                Event::PluginLoaded,
            ),
            r matches Err(e) ==> final(self).stage is Failed && e == (LoadError::OpenFailed {
                module: ModuleKind::Plugin,
            }) && final(log)@ == old(log)@,
    {
        if ok {
            self.stage = LoadStage::PluginLoaded;
            log.record(Event::PluginLoaded);
            Ok(())
        } else {
            self.stage = LoadStage::Failed;
            Err(LoadError::OpenFailed { module: ModuleKind::Plugin })
        }
    }

    /// Takes the outcome of resolving the plugin's well-known entry
    /// symbol.
    pub fn on_entry_resolved(&mut self, ok: bool) -> (r: Result<(), LoadError>)
        requires
            old(self).stage is PluginLoaded,
        ensures
            ok <==> r is Ok,
            r is Ok ==> final(self).stage is PluginLoaded && final(self).entry_resolved,
            r matches Err(e) ==> final(self).stage is Failed && e
                == LoadError::EntryUnresolved,
    {
        if ok {
            self.entry_resolved = true;
            Ok(())
        } else {
            self.stage = LoadStage::Failed;
            Err(LoadError::EntryUnresolved)
        }
    }

    /// Invokes the entry point once and drives the returned service's
    /// documented lifecycle.
    pub fn invoke(&mut self, cell: &mut StateCell, log: &mut EventLog)
        requires
            old(self).stage is PluginLoaded,
            old(self).entry_resolved,
            old(cell).value == 0,
        ensures
            final(self).stage is ServiceInvoked,
            final(self).entry_resolved == old(self).entry_resolved,
            final(cell).value == 1,
            final(log)@ == old(log)@ + seq![
                Event::ServiceCreated,
                Event::PluginHello,
                Event::BaseGreeting,
                Event::ServiceDestroyed,
            ],
    {
        use_plugin(cell, log);
        self.stage = LoadStage::ServiceInvoked;
    }

    /// Ends the run. The caller must keep the three loaded-module handles
    /// alive for the remainder of process execution; they are never
    /// released while plugin code may still run.
    pub fn finish(&mut self)
        requires
            old(self).stage is ServiceInvoked,
        ensures
            final(self).stage is Done,
            final(self).entry_resolved == old(self).entry_resolved,
    {
        self.stage = LoadStage::Done;
    }
}

/// One full run over the four gathered outcomes: the modules are taken
/// strictly in dependency order, the first failure is terminal with the
/// log ending at exactly the stages passed, and a fully successful run
/// records — with no step skipped — the three loads in order, then the
/// service's creation, its greeting, its callback into the base module,
/// and its destruction.
pub fn run_load_sequence(
    runtime_ok: bool,
    base_ok: bool,
    plugin_ok: bool,
    entry_ok: bool,
    cell: &mut StateCell,
) -> (r: (Loader, EventLog, Result<(), LoadError>))
    requires
        old(cell).value == 0,
    ensures
        runtime_ok && base_ok && plugin_ok && entry_ok ==> {
            &&& r.2 is Ok
            &&& r.0.stage is Done
            &&& r.1@ == seq![
                Event::RuntimeLoaded,
                Event::BaseLoaded,
                Event::PluginLoaded,
                Event::ServiceCreated,
                Event::PluginHello,
                Event::BaseGreeting,
                Event::ServiceDestroyed,
            ]
            &&& final(cell).value == 1
        },
        !runtime_ok ==> r.2 == Err::<(), _>(LoadError::OpenFailed {
            module: ModuleKind::Runtime,
        }) && r.1@ == Seq::<Event>::empty(),
        runtime_ok && !base_ok ==> r.2 == Err::<(), _>(LoadError::OpenFailed {
            module: ModuleKind::Base,
        }) && r.1@ == seq![Event::RuntimeLoaded],
        runtime_ok && base_ok && !plugin_ok ==> r.2 == Err::<(), _>(LoadError::OpenFailed {
            module: ModuleKind::Plugin,
        }) && r.1@ == seq![Event::RuntimeLoaded, Event::BaseLoaded],
        runtime_ok && base_ok && plugin_ok && !entry_ok ==> r.2 == Err::<(), _>(
            LoadError::EntryUnresolved,
        ) && r.1@ == seq![Event::RuntimeLoaded, Event::BaseLoaded, Event::PluginLoaded],
        !(runtime_ok && base_ok && plugin_ok && entry_ok) ==> r.0.stage is Failed,
{
    let mut loader = Loader::new();
    let mut log = EventLog::new();
    if let Err(e) = loader.on_runtime_opened(runtime_ok, &mut log) {
        return (loader, log, Err(e));
    }
    if let Err(e) = loader.on_base_opened(base_ok, &mut log) {
        return (loader, log, Err(e));
    }
    if let Err(e) = loader.on_plugin_opened(plugin_ok, &mut log) {
        return (loader, log, Err(e));
    }
    if let Err(e) = loader.on_entry_resolved(entry_ok) {
        return (loader, log, Err(e));
    }
    loader.invoke(cell, &mut log);
    loader.finish();
    proof {
        assert(log@ =~= seq![
            Event::RuntimeLoaded,
            Event::BaseLoaded,
            Event::PluginLoaded,
            Event::ServiceCreated,
            Event::PluginHello,
            Event::BaseGreeting,
            Event::ServiceDestroyed,
        ]);
    }
    (loader, log, Ok(()))
}

} // verus!
