use counter_bridge::bridge::{AsyncCounterBridge, CounterIter};
use counter_bridge::counting::StepResult;

#[test]
fn five_steps_in_order() {
    let mut bridge = AsyncCounterBridge::new();
    for expected in 1..=5usize {
        assert_eq!(bridge.step(), StepResult::Value(expected));
    }
}

#[test]
fn sixth_step_signals_exhaustion() {
    let mut bridge = AsyncCounterBridge::new();
    for _ in 0..5 {
        assert!(matches!(bridge.step(), StepResult::Value(_)));
    }
    assert_eq!(bridge.step(), StepResult::Exhausted);
    assert_eq!(bridge.step(), StepResult::Exhausted);
}

#[test]
fn independent_instances() {
    let mut first = AsyncCounterBridge::new();
    let mut second = AsyncCounterBridge::new();
    assert_eq!(first.step(), StepResult::Value(1));
    assert_eq!(first.step(), StepResult::Value(2));
    assert_eq!(first.step(), StepResult::Value(3));
    assert_eq!(second.step(), StepResult::Value(1));
    assert_eq!(first.current(), 3);
    assert_eq!(second.current(), 1);
}

#[test]
fn exhaustion_is_idempotent() {
    let mut bridge = AsyncCounterBridge::new();
    for _ in 0..5 {
        assert!(matches!(bridge.step(), StepResult::Value(_)));
    }
    for _ in 0..100 {
        assert_eq!(bridge.step(), StepResult::Exhausted);
        assert_eq!(bridge.current(), 5);
    }
}

#[test]
fn full_scenario() {
    let mut bridge = AsyncCounterBridge::new();
    assert_eq!(bridge.step(), StepResult::Value(1));
    assert_eq!(bridge.step(), StepResult::Value(2));
    assert_eq!(bridge.step(), StepResult::Value(3));
    assert_eq!(bridge.step(), StepResult::Value(4));
    assert_eq!(bridge.step(), StepResult::Value(5));
    assert_eq!(bridge.step(), StepResult::Exhausted);
    assert_eq!(bridge.step(), StepResult::Exhausted);
}

#[test]
fn fresh_bridge_counter_is_zero() {
    let bridge = AsyncCounterBridge::new();
    assert_eq!(bridge.current(), 0);
}

#[test]
fn async_iterator_is_self() {
    let mut bridge = AsyncCounterBridge::new();
    bridge.as_async_iterator();
    assert_eq!(bridge.step(), StepResult::Value(1));
}

#[test]
fn sync_iterator_counts_to_five() {
    let mut it = CounterIter::new();
    for expected in 1..=5usize {
        assert_eq!(it.next(), Some(expected));
    }
    assert_eq!(it.next(), None);
    assert_eq!(it.next(), None);
}

#[test]
fn sync_iterator_is_self() {
    let mut it = CounterIter::new();
    it.as_iterator();
    assert_eq!(it.next(), Some(1));
}
