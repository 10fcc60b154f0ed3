//! The capability service the plugin provides, and the observable effects
//! of driving it. Side effects — the greeting, the callback into the
//! shared-base module, creation and destruction — are modeled as an
//! explicit event log, and the base module's process-wide integer state as
//! an explicitly passed, single-writer cell owned by the host.

use vstd::prelude::*;
use vstd::string::*;

verus! {

/// One observable effect of a run, in the order it happens.
#[derive(Debug, Copy, Clone, PartialEq, Eq, Structural)]
pub enum Event {
    /// The runtime-support module was opened with global visibility.
    RuntimeLoaded,
    /// The shared-base module was opened with global visibility.
    BaseLoaded,
    /// The plugin module was opened.
    PluginLoaded,
    /// The plugin's entry symbol was invoked and built a service instance.
    ServiceCreated,
    /// The service performed its greeting.
    PluginHello,
    /// The service called back into the shared-base module's exposed
    /// function.
    BaseGreeting,
    /// The service instance was destroyed at its defined scope exit.
    ServiceDestroyed,
}

/// The run's observable effects, in order.
#[derive(Debug)]
pub struct EventLog {
    pub events: Vec<Event>,
}

impl View for EventLog {
    type V = Seq<Event>;

    open spec fn view(&self) -> Seq<Event> {
        self.events@
    }
}

impl EventLog {
    pub fn new() -> (r: EventLog)
        ensures
            r@ == Seq::<Event>::empty(),
    {
        let r = EventLog { events: Vec::new() };
        proof {
            assert(r@ =~= Seq::<Event>::empty());
        }
        r
    }

    pub fn record(&mut self, e: Event)
        ensures
            final(self)@ == old(self)@.push(e),
    {
        self.events.push(e);
    }
}

/// The one piece of process-wide integer state the shared-base module
/// exposes, reimplemented as a cell the host owns and hands around: a
/// liveness hand-off check between host and plugin, guarded by no lock
/// because there is exactly one writer.
#[derive(Debug)]
pub struct StateCell {
    pub value: i32,
}

impl StateCell {
    pub fn new() -> (r: StateCell)
        ensures
            r.value == 0,
    {
        StateCell { value: 0 }
    }

    /// The base module's exposed getter.
    pub fn get(&self) -> (r: i32)
        ensures
            r == self.value,
    {
        self.value
    }

    /// The base module's exposed setter.
    pub fn set(&mut self, v: i32)
        ensures
            final(self).value == v,
    {
        self.value = v;
    }
}

/// The shared-base module's exposed function: the greeting side effect
/// that the plugin's service calls back into.
pub fn greet(log: &mut EventLog)
    ensures
        final(log)@ == old(log)@.push(Event::BaseGreeting),
{
    log.record(Event::BaseGreeting);
}

/// The capability interface a plugin's service implements: one method,
/// which performs a greeting effect and then calls back into the
/// shared-base module's exposed function — in that order, nothing else.
pub trait SayHelloService {
    fn say_hello(&self, log: &mut EventLog)
        ensures
            final(log)@ == old(log)@ + seq![Event::PluginHello, Event::BaseGreeting],
    ;
}

/// The plugin's service implementation.
#[derive(Debug)]
pub struct PluginSayHello {
    pub id: String,
}

impl PluginSayHello {
    /// Builds an instance and records its creation.
    pub fn new(log: &mut EventLog) -> (r: PluginSayHello)
        ensures
            final(log)@ == old(log)@.push(Event::ServiceCreated),
            r.id@ == "plugin"@,
    {
        log.record(Event::ServiceCreated);
        PluginSayHello { id: String::from_str("plugin") }
    }

    /// Destroys the instance at its defined scope exit, recording the
    /// documented teardown effect.
    pub fn destroy(self, log: &mut EventLog)
        ensures
            final(log)@ == old(log)@.push(Event::ServiceDestroyed),
    {
        log.record(Event::ServiceDestroyed);
    }
}

impl SayHelloService for PluginSayHello {
    fn say_hello(&self, log: &mut EventLog) {
        let ghost pre = log@;
        log.record(Event::PluginHello);
        greet(log);
        proof {
            assert(log@ =~= pre + seq![Event::PluginHello, Event::BaseGreeting]);
        }
    }
}

/// The plugin's entry point: no arguments beyond the effect log, and a
/// new service instance implementing the capability interface, ownership
/// transferred wholly to the caller.
pub fn new_service(log: &mut EventLog) -> (r: PluginSayHello)
    ensures
        final(log)@ == old(log)@.push(Event::ServiceCreated),
        r.id@ == "plugin"@,
{
    PluginSayHello::new(log)
}

/// Invokes the capability through its interface, so the effects proved of
/// the call are exactly the trait's, whatever the implementing type.
pub fn invoke_service<S: SayHelloService>(svc: &S, log: &mut EventLog)
    ensures
        final(log)@ == old(log)@ + seq![Event::PluginHello, Event::BaseGreeting],
{
    svc.say_hello(log);
}

/// Drives one full service hand-off: checks the fresh state cell, marks
/// the hand-off, obtains a service from the entry point, invokes its one
/// method once, and destroys it at scope exit. The recorded effects are
/// exactly creation, the greeting, the callback into the base module, and
/// destruction, in that order.
pub fn use_plugin(cell: &mut StateCell, log: &mut EventLog)
    requires
        old(cell).value == 0,
    ensures
        final(cell).value == 1,
        final(log)@ == old(log)@ + seq![
            Event::ServiceCreated,
            Event::PluginHello,
            Event::BaseGreeting,
            Event::ServiceDestroyed,
        ],
{
    let ghost pre = log@;
    proof {
        // The handshake check the host makes on the fresh state: proved
        // here, rather than asserted at run time.
        assert(cell.value == 0);
    }
    cell.set(1);
    proof {
        assert(cell.value == 1);
    }
    let service = new_service(log);
    invoke_service(&service, log);
    service.destroy(log);
    proof {
        assert(log@ =~= pre + seq![
            Event::ServiceCreated,
            Event::PluginHello,
            Event::BaseGreeting,
            Event::ServiceDestroyed,
        ]);
    }
}

} // verus!
