use open_vault::first_run::{FirstRunStep, MemoryStore, StoreFaults, INSTALLED_VALUE};

fn faults(open_fails: bool, read_fails: bool, write_fails: bool) -> StoreFaults {
    StoreFaults { open_fails, read_fails, write_fails }
}

#[test]
fn fresh_store_first_check_then_not() {
    let mut store = MemoryStore::new();
    assert!(store.check_first_run());
    assert_eq!(store.installed, Some(1));
    assert!(!store.check_first_run());
}

#[test]
fn fresh_store_reports_first_run_exactly_once() {
    let mut store = MemoryStore::new();
    let answers: Vec<bool> = (0..50).map(|_| store.check_first_run()).collect();
    assert!(answers[0]);
    assert!(answers[1..].iter().all(|a| !a));
    assert_eq!(store.installed, Some(INSTALLED_VALUE));
}

#[test]
fn store_with_flag_is_not_first_run_and_unchanged() {
    let mut store = MemoryStore::new();
    store.installed = Some(7);
    assert!(!store.check_first_run());
    assert_eq!(store.installed, Some(7));
}

#[test]
fn unopenable_store_is_always_first_run() {
    let mut store = MemoryStore::with_faults(faults(true, false, false));
    for _ in 0..10 {
        assert!(store.check_first_run());
    }
    assert_eq!(store.installed, None);
}

#[test]
fn unreadable_store_is_always_first_run() {
    let mut store = MemoryStore::with_faults(faults(false, true, false));
    for _ in 0..10 {
        assert!(store.check_first_run());
    }
    assert_eq!(store.installed, Some(1));
}

#[test]
fn unwritable_store_is_always_first_run() {
    let mut store = MemoryStore::with_faults(faults(false, false, true));
    for _ in 0..10 {
        assert!(store.check_first_run());
    }
    assert_eq!(store.installed, None);
}

#[test]
fn store_operations_follow_faults() {
    let mut store = MemoryStore::with_faults(faults(false, false, true));
    assert!(store.open_namespace());
    assert_eq!(store.read_flag(), None);
    assert!(!store.write_flag(1));
    store.faults.write_fails = false;
    assert!(store.write_flag(3));
    assert_eq!(store.read_flag(), Some(3));
    store.faults.read_fails = true;
    assert_eq!(store.read_flag(), None);
    store.faults.open_fails = true;
    assert!(!store.open_namespace());
}

#[test]
fn steps_when_flag_is_present() {
    let step = FirstRunStep::start();
    assert_eq!(step, FirstRunStep::OpenNamespace);
    let step = step.advance(true);
    assert_eq!(step, FirstRunStep::ReadFlag);
    let step = step.advance(true);
    assert_eq!(step.answer(), Some(false));
}

#[test]
fn steps_when_flag_is_missing() {
    let step = FirstRunStep::start().advance(true).advance(false);
    assert_eq!(step, FirstRunStep::WriteFlag);
    assert_eq!(step.answer(), None);
    assert_eq!(step.advance(true).answer(), Some(true));
    assert_eq!(step.advance(false).answer(), Some(true));
}

#[test]
fn steps_when_namespace_fails() {
    let step = FirstRunStep::start().advance(false);
    assert_eq!(step, FirstRunStep::Finished(true));
    assert_eq!(step.advance(false), FirstRunStep::Finished(true));
}
