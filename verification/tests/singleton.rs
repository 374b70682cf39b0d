use torbind::{AcquireStep, ClientCell, Error, acquire_step};

#[test]
fn fresh_slot_is_empty() {
    let c: ClientCell<u32> = ClientCell::new();
    assert!(c.needs_init());
    assert!(c.get().is_none());
}

#[test]
fn first_success_fills_the_slot() {
    let mut c: ClientCell<u32> = ClientCell::new();
    assert!(c.complete_acquire(Ok(7)).is_ok());
    assert!(!c.needs_init());
    assert_eq!(c.get(), Some(&7));
}

#[test]
fn later_attempts_observe_the_first_client() {
    let mut c: ClientCell<u32> = ClientCell::new();
    c.complete_acquire(Ok(7)).unwrap();
    c.complete_acquire(Ok(9)).unwrap();
    assert_eq!(c.get(), Some(&7));
    c.complete_acquire(Err(Error::ArtiClient("late failure".to_string()))).unwrap();
    assert_eq!(c.get(), Some(&7));
}

#[test]
fn failed_first_attempt_permits_retry() {
    let mut c: ClientCell<u32> = ClientCell::new();
    let e = c.complete_acquire(Err(Error::ArtiClient("bootstrap failed".to_string()))).unwrap_err();
    assert!(matches!(e, Error::ArtiClient(_)));
    assert_eq!(e.message(), "bootstrap failed");
    assert!(c.needs_init());
    c.complete_acquire(Ok(3)).unwrap();
    assert_eq!(c.get(), Some(&3));
}

#[test]
fn empty_slot_initializes_from_the_supplied_path() {
    let c: ClientCell<u32> = ClientCell::new();
    let base = String::from("/tmp/anon-test");
    match acquire_step(&c, Some(&base)) {
        AcquireStep::Initialize(p) => {
            assert!(p.allow_onion_addrs);
            let d = p.storage.unwrap();
            assert_eq!(d.cache_dir, "/tmp/anon-test/cache");
            assert_eq!(d.state_dir, "/tmp/anon-test/state");
        }
        AcquireStep::UseExisting => panic!("empty slot must initialize"),
    }
}

#[test]
fn ready_slot_ignores_a_later_path() {
    let mut c: ClientCell<u32> = ClientCell::new();
    c.complete_acquire(Ok(7)).unwrap();
    let other = String::from("/tmp/other-base");
    assert!(matches!(acquire_step(&c, Some(&other)), AcquireStep::UseExisting));
    assert!(matches!(acquire_step(&c, None), AcquireStep::UseExisting));
    assert_eq!(c.get(), Some(&7));
}
