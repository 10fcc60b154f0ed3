use dybuild::loader::{LoadError, LoadStage, Loader, ModuleKind, run_load_sequence};
use dybuild::service::{
    Event, EventLog, PluginSayHello, SayHelloService, StateCell, greet, invoke_service,
    new_service, use_plugin,
};

#[test]
fn state_cell_hand_off() {
    let mut cell = StateCell::new();
    assert_eq!(cell.get(), 0);
    cell.set(1);
    assert_eq!(cell.get(), 1);
}

#[test]
fn base_greeting_is_recorded() {
    let mut log = EventLog::new();
    greet(&mut log);
    assert_eq!(log.events, vec![Event::BaseGreeting]);
}

#[test]
fn service_says_hello_then_calls_back_into_the_base() {
    let mut log = EventLog::new();
    let service = new_service(&mut log);
    assert_eq!(service.id, "plugin");
    service.say_hello(&mut log);
    assert_eq!(
        log.events,
        vec![Event::ServiceCreated, Event::PluginHello, Event::BaseGreeting]
    );
}

#[test]
fn capability_dispatch_has_the_same_effects() {
    let mut log = EventLog::new();
    let service = PluginSayHello::new(&mut log);
    invoke_service(&service, &mut log);
    service.destroy(&mut log);
    assert_eq!(
        log.events,
        vec![
            Event::ServiceCreated,
            Event::PluginHello,
            Event::BaseGreeting,
            Event::ServiceDestroyed,
        ]
    );
}

#[test]
fn use_plugin_marks_the_hand_off_and_records_the_lifecycle() {
    let mut cell = StateCell::new();
    let mut log = EventLog::new();
    use_plugin(&mut cell, &mut log);
    assert_eq!(cell.get(), 1);
    assert_eq!(
        log.events,
        vec![
            Event::ServiceCreated,
            Event::PluginHello,
            Event::BaseGreeting,
            Event::ServiceDestroyed,
        ]
    );
}

#[test]
fn loader_steps_enforce_the_order() {
    let mut loader = Loader::new();
    let mut log = EventLog::new();
    assert_eq!(loader.stage, LoadStage::NotLoaded);
    loader.on_runtime_opened(true, &mut log).unwrap();
    assert_eq!(loader.stage, LoadStage::RuntimeLoaded);
    loader.on_base_opened(true, &mut log).unwrap();
    assert_eq!(loader.stage, LoadStage::BaseLoaded);
    loader.on_plugin_opened(true, &mut log).unwrap();
    assert_eq!(loader.stage, LoadStage::PluginLoaded);
    assert_eq!(
        log.events,
        vec![Event::RuntimeLoaded, Event::BaseLoaded, Event::PluginLoaded]
    );
}

#[test]
fn full_run_produces_every_effect_in_order() {
    let mut cell = StateCell::new();
    let (loader, log, outcome) = run_load_sequence(true, true, true, true, &mut cell);
    assert_eq!(outcome, Ok(()));
    assert_eq!(loader.stage, LoadStage::Done);
    assert_eq!(cell.get(), 1);
    assert_eq!(
        log.events,
        vec![
            Event::RuntimeLoaded,
            Event::BaseLoaded,
            Event::PluginLoaded,
            Event::ServiceCreated,
            Event::PluginHello,
            Event::BaseGreeting,
            Event::ServiceDestroyed,
        ]
    );
}

#[test]
fn runtime_open_failure_is_terminal() {
    let mut cell = StateCell::new();
    let (loader, log, outcome) = run_load_sequence(false, true, true, true, &mut cell);
    assert_eq!(
        outcome,
        Err(LoadError::OpenFailed { module: ModuleKind::Runtime })
    );
    assert_eq!(loader.stage, LoadStage::Failed);
    assert!(log.events.is_empty());
    assert_eq!(cell.get(), 0);
}

#[test]
fn base_open_failure_is_terminal() {
    let mut cell = StateCell::new();
    let (loader, log, outcome) = run_load_sequence(true, false, true, true, &mut cell);
    assert_eq!(outcome, Err(LoadError::OpenFailed { module: ModuleKind::Base }));
    assert_eq!(loader.stage, LoadStage::Failed);
    assert_eq!(log.events, vec![Event::RuntimeLoaded]);
}

#[test]
fn plugin_open_failure_is_terminal() {
    let mut cell = StateCell::new();
    let (loader, log, outcome) = run_load_sequence(true, true, false, true, &mut cell);
    assert_eq!(outcome, Err(LoadError::OpenFailed { module: ModuleKind::Plugin }));
    assert_eq!(loader.stage, LoadStage::Failed);
    assert_eq!(log.events, vec![Event::RuntimeLoaded, Event::BaseLoaded]);
}

#[test]
fn unresolved_entry_symbol_is_terminal() {
    let mut cell = StateCell::new();
    let (loader, log, outcome) = run_load_sequence(true, true, true, false, &mut cell);
    assert_eq!(outcome, Err(LoadError::EntryUnresolved));
    assert_eq!(loader.stage, LoadStage::Failed);
    assert_eq!(
        log.events,
        vec![Event::RuntimeLoaded, Event::BaseLoaded, Event::PluginLoaded]
    );
    assert_eq!(cell.get(), 0);
}
