use sync_tokens::latch::Latch;

#[test]
fn new_latch_is_pending() {
    let mut latch: Latch<&str, u32> = Latch::new();
    assert!(!latch.is_fired());
    assert_eq!(latch.poll(1), None);
}

#[test]
fn fire_resumes_the_stored_continuation() {
    let mut latch: Latch<&str, u32> = Latch::new();
    assert_eq!(latch.poll(7), None);
    let resumed = latch.fire("done");
    assert!(matches!(resumed, Ok(Some(7))));
    assert!(latch.is_fired());
}

#[test]
fn fire_without_waiter_resumes_nothing() {
    let mut latch: Latch<u8, u32> = Latch::new();
    assert!(matches!(latch.fire(3), Ok(None)));
    assert_eq!(latch.poll(1), Some(3));
}

#[test]
fn later_poll_replaces_earlier_continuation() {
    let mut latch: Latch<u8, u32> = Latch::new();
    assert_eq!(latch.poll(1), None);
    assert_eq!(latch.poll(2), None);
    assert!(matches!(latch.fire(9), Ok(Some(2))));
}

#[test]
fn second_fire_is_rejected_and_changes_nothing() {
    let mut latch: Latch<&str, u32> = Latch::new();
    assert!(matches!(latch.fire("v1"), Ok(None)));
    match latch.fire("v2") {
        Err(e) => assert_eq!(e.rejected, "v2"),
        Ok(_) => panic!("a second fire must fail"),
    }
    assert!(latch.is_fired());
    assert_eq!(latch.poll(5), Some("v1"));
}

#[test]
fn fired_latch_delivers_to_every_poll_and_stores_nothing() {
    let mut latch: Latch<String, u32> = Latch::new();
    assert!(matches!(latch.fire(String::from("done")), Ok(None)));
    for c in 0..5u32 {
        assert_eq!(latch.poll(c), Some(String::from("done")));
    }
    // Nothing was stored: a refused fire hands back no continuation either.
    assert!(latch.fire(String::from("again")).is_err());
    assert!(latch.is_fired());
}

#[test]
fn repeated_unit_fire_fires_once() {
    let mut latch: Latch<(), u32> = Latch::new();
    assert_eq!(latch.poll(4), None);
    let mut resumed = 0;
    for _ in 0..4 {
        if let Ok(Some(c)) = latch.fire(()) {
            assert_eq!(c, 4);
            resumed += 1;
        }
    }
    assert_eq!(resumed, 1);
    assert!(latch.is_fired());
}
