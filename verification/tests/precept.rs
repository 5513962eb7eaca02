use std::cell::RefCell;
use std::rc::Rc;

use precept::catalog::{init_catalog, CatalogEntry, Expectation, SourceLocation};
use precept::dispatch::noop::NoopDispatch;
use precept::dispatch::{
    choose_random, dispatcher, emit, get_random, set_dispatcher, Dispatch, DispatchSlot, Event,
};
use precept::fault::{
    disable_all, enable_all, fault_powerloss_mode, get_fault_by_name, init_faults,
    set_fault_powerloss_mode, FaultEntry, FaultPowerlossMode,
};
use precept::{init, InitError};

/// A flattened copy of one received event, for assertions.
#[derive(Debug, Clone, PartialEq)]
enum Seen {
    Register { property: String },
    Emit { property: String, condition: bool, details: String },
    Setup { details: String },
    Custom { name: String, value: String },
}

/// A dispatcher that records every event it receives and returns a fixed
/// random word.
struct Recorder {
    seen: Rc<RefCell<Vec<Seen>>>,
    word: u64,
}

impl Dispatch for Recorder {
    fn emit(&mut self, event: Event) {
        let seen = match event {
            Event::RegisterEntry { entry } => Seen::Register { property: entry.property },
            Event::EmitEntry { entry, condition, details } => Seen::Emit {
                property: entry.property,
                condition,
                details: serde_json::to_string(&details).unwrap(),
            },
            Event::SetupComplete { details } => {
                Seen::Setup { details: serde_json::to_string(&details).unwrap() }
            }
            Event::Custom { name, value } => {
                Seen::Custom { name, value: serde_json::to_string(&value).unwrap() }
            }
        };
        self.seen.borrow_mut().push(seen);
    }

    fn random(&mut self) -> u64 {
        self.word
    }
}

fn recorder(word: u64) -> (Recorder, Rc<RefCell<Vec<Seen>>>) {
    let seen = Rc::new(RefCell::new(Vec::new()));
    (Recorder { seen: seen.clone(), word }, seen)
}

fn location(line: u32, column: u32) -> SourceLocation {
    SourceLocation { file: "tests/precept.rs".to_string(), line, column }
}

fn entry(expectation: Expectation, property: &str) -> CatalogEntry {
    CatalogEntry::new(
        expectation,
        property.to_string(),
        location(1, 1),
        "precept_tests".to_string(),
        "precept_tests::entry".to_string(),
    )
}

fn details_key_123() -> serde_json::Value {
    let mut map = serde_json::Map::new();
    map.insert("key".to_string(), serde_json::Value::from(123));
    serde_json::Value::Object(map)
}

fn details_err(text: &str) -> serde_json::Value {
    let mut map = serde_json::Map::new();
    map.insert("err".to_string(), serde_json::Value::from(text));
    serde_json::Value::Object(map)
}

#[test]
fn test_entry_gen() {
    let entry = CatalogEntry::new(
        Expectation::Always,
        "test property".to_string(),
        location(7, 9),
        "precept_tests".to_string(),
        "precept_tests::test_entry_gen".to_string(),
    );
    assert_eq!(entry.property().as_str(), "test property");
    assert_eq!(entry.expectation(), Expectation::Always);
    assert_eq!(entry.location().file.as_str(), "tests/precept.rs");
    assert_eq!(entry.module().as_str(), "precept_tests");
    assert!(entry.function().ends_with("::test_entry_gen"));
}

#[test]
fn test_entry_emit() {
    let mut slot: DispatchSlot<NoopDispatch> = DispatchSlot::new();
    let mut e = entry(Expectation::Always, "test property");
    e.emit(&mut slot, true, serde_json::Value::Null);
    assert_eq!(e.pass_count(), 1);
}

#[test]
fn test_expect() {
    let mut slot: DispatchSlot<NoopDispatch> = DispatchSlot::new();

    let mut e = entry(Expectation::Always, "this should always pass");
    e.emit(&mut slot, true, serde_json::Value::Null);
    e.emit(&mut slot, true, details_key_123());

    let mut e = entry(
        Expectation::AlwaysOrUnreachable,
        "this should always pass or be unreachable",
    );
    e.emit(&mut slot, true, serde_json::Value::Null);
    e.emit(&mut slot, true, details_key_123());

    let mut e = entry(Expectation::Sometimes, "this should sometimes pass");
    e.emit(&mut slot, true, serde_json::Value::Null);
    e.emit(&mut slot, true, details_key_123());

    let mut e = entry(Expectation::Reachable, "this should always pass");
    e.emit(&mut slot, true, serde_json::Value::Null);
    e.emit(&mut slot, true, details_key_123());

    let mut e = entry(Expectation::Unreachable, "this should always fail");
    e.emit(&mut slot, false, serde_json::Value::Null);
    e.emit(&mut slot, false, details_key_123());
}

#[test]
fn test_setup_complete() {
    let mut slot: DispatchSlot<NoopDispatch> = DispatchSlot::new();
    emit(&mut slot, Event::SetupComplete { details: serde_json::Value::Null });
    emit(&mut slot, Event::SetupComplete { details: details_key_123() });
}

#[test]
fn test_event() {
    let mut slot: DispatchSlot<NoopDispatch> = DispatchSlot::new();
    emit(
        &mut slot,
        Event::Custom { name: "test_event".to_string(), value: details_key_123() },
    );
}

#[test]
fn test_fault() {
    let mut slot: DispatchSlot<NoopDispatch> = DispatchSlot::new();
    let mut faults = vec![
        FaultEntry::new("never".to_string()),
        FaultEntry::new("forced".to_string()),
        FaultEntry::new("disabled_forced".to_string()),
    ];
    assert!(init_faults(&faults).is_ok());

    let i = get_fault_by_name(&faults, "never").unwrap();
    faults[i].disable();
    let word = get_random(&mut slot);
    let tripped = faults[i].trip(word);
    assert!(!tripped, "never faults");

    let i = get_fault_by_name(&faults, "forced").unwrap();
    faults[i].set_pending(1);
    let mut foo = false;
    let word = get_random(&mut slot);
    if faults[i].trip(word) {
        foo = true;
    }
    assert!(foo);
    assert_eq!(faults[i].count_pending(), 0);

    let i = get_fault_by_name(&faults, "disabled_forced").unwrap();
    faults[i].disable();
    faults[i].set_pending(1);
    let mut foo = false;
    let word = get_random(&mut slot);
    if faults[i].trip(word) {
        foo = true;
    }
    assert!(!foo);
    assert_eq!(faults[i].count_pending(), 1);
}

#[test]
fn edge_triggered_first_pass_emits_once() {
    let (rec, seen) = recorder(0);
    let mut slot: DispatchSlot<Recorder> = DispatchSlot::new();
    set_dispatcher(&mut slot, rec).unwrap();

    let mut e = entry(Expectation::Always, "edge");
    e.emit(&mut slot, true, serde_json::Value::Null);
    assert_eq!(e.pass_count(), 1);
    assert_eq!(
        *seen.borrow(),
        vec![Seen::Emit {
            property: "edge".to_string(),
            condition: true,
            details: "null".to_string()
        }]
    );

    e.emit(&mut slot, true, serde_json::Value::Null);
    assert_eq!(e.pass_count(), 2);
    assert_eq!(seen.borrow().len(), 1);
}

#[test]
fn db_write_ok_scenario() {
    let (rec, seen) = recorder(0);
    let mut slot: DispatchSlot<Recorder> = DispatchSlot::new();
    set_dispatcher(&mut slot, rec).unwrap();

    let mut e = entry(Expectation::Always, "db_write_ok");
    assert!(e.expectation().must_hit());

    e.emit(&mut slot, true, serde_json::Value::Null);
    assert_eq!(e.pass_count(), 1);
    assert_eq!(e.fail_count(), 0);
    assert_eq!(
        seen.borrow().last().unwrap(),
        &Seen::Emit {
            property: "db_write_ok".to_string(),
            condition: true,
            details: "null".to_string()
        }
    );

    e.emit(&mut slot, false, details_err("timeout"));
    assert_eq!(e.fail_count(), 1);
    assert_eq!(seen.borrow().len(), 2);
    assert_eq!(
        seen.borrow().last().unwrap(),
        &Seen::Emit {
            property: "db_write_ok".to_string(),
            condition: false,
            details: "{\"err\":\"timeout\"}".to_string()
        }
    );

    e.emit(&mut slot, false, details_err("other"));
    assert_eq!(e.fail_count(), 2);
    assert_eq!(seen.borrow().len(), 2);
}

#[test]
fn disabled_fault_never_trips() {
    let mut f = FaultEntry::new("off".to_string());
    f.disable();
    f.set_pending(3);
    for word in 0..20u64 {
        assert!(!f.trip(word));
    }
    assert_eq!(f.count_pending(), 3);
}

#[test]
fn forced_trips_then_random() {
    let mut f = FaultEntry::new("forced_then_random".to_string());
    f.set_pending(2);
    assert!(f.trip(1));
    assert_eq!(f.count_pending(), 1);
    assert!(f.trip(1));
    assert_eq!(f.count_pending(), 0);
    assert!(f.trip(4));
    assert!(!f.trip(5));
    assert_eq!(f.count_pending(), 0);
}

#[test]
fn disk_full_scenario() {
    let mut f = FaultEntry::new("disk_full".to_string());
    f.set_pending(2);
    assert!(f.trip(7));
    assert!(f.trip(7));
    assert_eq!(f.count_pending(), 0);
    let third = f.trip(7);
    assert_eq!(third, 7 % 2 == 0);
}

#[test]
fn pending_survives_disabled_period() {
    let mut f = FaultEntry::new("later".to_string());
    f.disable();
    f.set_pending(2);
    assert!(!f.trip(0));
    assert!(!f.trip(1));
    assert_eq!(f.count_pending(), 2);
    f.enable();
    assert!(f.trip(5));
    assert!(f.trip(5));
    assert_eq!(f.count_pending(), 0);
    assert!(!f.trip(5));
}

#[test]
fn duplicate_fault_name_fails_init() {
    let faults = vec![
        FaultEntry::new("a".to_string()),
        FaultEntry::new("b".to_string()),
        FaultEntry::new("a".to_string()),
    ];
    let err = init_faults(&faults).unwrap_err();
    assert_eq!(err.name.as_str(), "a");

    let (rec, _seen) = recorder(0);
    let mut slot: DispatchSlot<Recorder> = DispatchSlot::new();
    let r = init(&mut slot, rec, &Vec::new(), &faults);
    assert!(matches!(r, Err(InitError::DuplicateFault(_))));
}

#[test]
fn second_dispatcher_is_rejected() {
    let (first, seen_first) = recorder(7);
    let (second, seen_second) = recorder(9);
    let mut slot: DispatchSlot<Recorder> = DispatchSlot::new();

    assert!(set_dispatcher(&mut slot, first).is_ok());
    assert!(set_dispatcher(&mut slot, second).is_err());

    // Events keep flowing to the first dispatcher.
    assert_eq!(get_random(&mut slot), 7);
    emit(&mut slot, Event::SetupComplete { details: serde_json::Value::Null });
    assert_eq!(seen_first.borrow().len(), 1);
    assert!(seen_second.borrow().is_empty());
}

#[test]
fn init_announces_catalog_in_order() {
    let (rec, seen) = recorder(0);
    let mut slot: DispatchSlot<Recorder> = DispatchSlot::new();
    let entries = vec![
        entry(Expectation::Always, "first"),
        entry(Expectation::Sometimes, "second"),
    ];
    let faults = vec![FaultEntry::new("only".to_string())];
    assert!(init(&mut slot, rec, &entries, &faults).is_ok());
    assert_eq!(
        *seen.borrow(),
        vec![
            Seen::Register { property: "first".to_string() },
            Seen::Register { property: "second".to_string() },
        ]
    );

    let (other, _) = recorder(1);
    let r = init(&mut slot, other, &entries, &faults);
    assert!(matches!(r, Err(InitError::DispatchAlreadySet)));
}

#[test]
fn init_catalog_registers_every_entry() {
    let (rec, seen) = recorder(0);
    let mut slot: DispatchSlot<Recorder> = DispatchSlot::new();
    set_dispatcher(&mut slot, rec).unwrap();
    let entries = vec![entry(Expectation::Reachable, "r1"), entry(Expectation::Unreachable, "r2")];
    init_catalog(&mut slot, &entries);
    assert_eq!(seen.borrow().len(), 2);
}

#[test]
fn expectation_check_table() {
    assert!(Expectation::Always.check(true));
    assert!(!Expectation::Always.check(false));
    assert!(Expectation::AlwaysOrUnreachable.check(true));
    assert!(!Expectation::AlwaysOrUnreachable.check(false));
    assert!(Expectation::Sometimes.check(true));
    assert!(Expectation::Sometimes.check(false));
    assert!(Expectation::Reachable.check(true));
    assert!(Expectation::Reachable.check(false));
    assert!(!Expectation::Unreachable.check(true));
    assert!(!Expectation::Unreachable.check(false));
}

#[test]
fn expectation_must_hit_table() {
    assert!(Expectation::Always.must_hit());
    assert!(!Expectation::AlwaysOrUnreachable.must_hit());
    assert!(Expectation::Sometimes.must_hit());
    assert!(Expectation::Reachable.must_hit());
    assert!(!Expectation::Unreachable.must_hit());
}

#[test]
fn get_fault_by_name_absent_is_none() {
    let faults = vec![FaultEntry::new("present".to_string())];
    assert!(get_fault_by_name(&faults, "absent").is_none());
    assert_eq!(get_fault_by_name(&faults, "present"), Some(0));
}

#[test]
fn enable_all_and_disable_all_toggle_every_fault() {
    let mut faults = vec![
        FaultEntry::new("x".to_string()),
        FaultEntry::new("y".to_string()),
    ];
    faults[0].set_pending(4);
    disable_all(&mut faults);
    assert!(!faults[0].trip(0));
    assert!(!faults[1].trip(0));
    assert_eq!(faults[0].count_pending(), 4);
    enable_all(&mut faults);
    assert!(faults[0].trip(1));
    assert_eq!(faults[0].count_pending(), 3);
}

#[test]
fn powerloss_mode_round_trips() {
    let mut reg = precept::fault::PowerlossRegister::new();
    assert_eq!(fault_powerloss_mode(&reg), FaultPowerlossMode::Exit { code: 0 });
    set_fault_powerloss_mode(&mut reg, FaultPowerlossMode::Panic);
    assert_eq!(fault_powerloss_mode(&reg), FaultPowerlossMode::Panic);
    set_fault_powerloss_mode(&mut reg, FaultPowerlossMode::Exit { code: -3 });
    assert_eq!(fault_powerloss_mode(&reg), FaultPowerlossMode::Exit { code: -3 });
    set_fault_powerloss_mode(&mut reg, FaultPowerlossMode::Exit { code: 255 });
    assert_eq!(fault_powerloss_mode(&reg), FaultPowerlossMode::Exit { code: 255 });
}

#[test]
fn choose_random_picks_an_option() {
    let mut slot: DispatchSlot<NoopDispatch> = DispatchSlot::new();
    let empty: [u32; 0] = [];
    assert!(choose_random(&mut slot, &empty).is_none());
    let options = [10u32, 20, 30];
    let picked = *choose_random(&mut slot, &options).unwrap();
    assert!(options.contains(&picked));

    let (rec, _) = recorder(4);
    let mut slot: DispatchSlot<Recorder> = DispatchSlot::new();
    set_dispatcher(&mut slot, rec).unwrap();
    // The word 4 selects index 4 % 3 == 1.
    assert_eq!(*choose_random(&mut slot, &options).unwrap(), 20);
}

#[test]
fn dispatcher_accessor_reflects_installation() {
    let mut slot: DispatchSlot<Recorder> = DispatchSlot::new();
    assert!(dispatcher(&slot).is_none());
    let (rec, _) = recorder(3);
    set_dispatcher(&mut slot, rec).unwrap();
    assert!(dispatcher(&slot).is_some());
}
