use bot_lifecycle::bridge::EventBridge;
use bot_lifecycle::cell::SetOnce;
use bot_lifecycle::options::ApplicationId;

#[test]
fn new_slot_is_empty() {
    let slot = SetOnce::create();
    assert_eq!(slot.get(), None);
}

#[test]
fn first_set_fills_the_slot() {
    let mut slot = SetOnce::create();
    assert!(slot.set(92));
    assert_eq!(slot.get(), Some(92));
}

#[test]
fn second_set_is_a_no_op() {
    let mut slot = SetOnce::create();
    assert!(slot.set(92));
    assert!(!slot.set(62));
    assert_eq!(slot.get(), Some(92));
    assert!(!slot.set(92));
    assert_eq!(slot.get(), Some(92));
}

#[test]
fn slot_holds_extreme_values() {
    let mut zero = SetOnce::create();
    assert!(zero.set(0));
    assert_eq!(zero.get(), Some(0));
    let mut max = SetOnce::create();
    assert!(max.set(u64::MAX));
    assert_eq!(max.get(), Some(u64::MAX));
}

#[test]
fn reading_does_not_change_the_slot() {
    let mut slot = SetOnce::create();
    assert_eq!(slot.get(), None);
    assert_eq!(slot.get(), None);
    assert!(slot.set(7));
    assert_eq!(slot.get(), Some(7));
    assert_eq!(slot.get(), Some(7));
}

#[test]
fn unbound_bridge_delivers_no_event() {
    let bridge = EventBridge::create();
    for _ in 0..10 {
        assert_eq!(bridge.raw_event(), None);
    }
}

#[test]
fn bound_bridge_delivers_to_its_framework() {
    let mut bridge = EventBridge::create();
    assert!(bridge.bind(ApplicationId(41)));
    assert_eq!(bridge.raw_event(), Some(ApplicationId(41)));
    assert_eq!(bridge.raw_event(), Some(ApplicationId(41)));
}

#[test]
fn bridge_keeps_its_first_binding() {
    let mut bridge = EventBridge::create();
    assert!(bridge.bind(ApplicationId(1)));
    assert!(!bridge.bind(ApplicationId(2)));
    assert_eq!(bridge.raw_event(), Some(ApplicationId(1)));
}
