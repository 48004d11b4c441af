use std::cell::RefCell;
use std::rc::Rc;

use eventbus::{deliver, DeadEvent, Delivery, EventBus, HandlerSet};

type Log = Rc<RefCell<Vec<String>>>;

fn new_log() -> Log {
    Rc::new(RefCell::new(Vec::new()))
}

fn entries(log: &Log) -> Vec<String> {
    log.borrow().clone()
}

/// Every call returns a closure of one and the same type, so each is the
/// same handler as far as the bus is concerned.
fn string_recorder(log: Log, tag: &'static str) -> impl Fn(&String) + 'static {
    move |s: &String| log.borrow_mut().push(format!("{}:{}", tag, s))
}

fn unrouted_recorder(log: Log) -> impl Fn(&DeadEvent) + 'static {
    move |d: &DeadEvent| {
        let text = match d.downcast_ref::<String>() {
            Some(s) => format!("string {}", s),
            None => match d.downcast_ref::<i32>() {
                Some(n) => format!("i32 {}", n),
                None => "unknown".to_string(),
            },
        };
        log.borrow_mut().push(format!("dead:{}", text));
    }
}

#[test]
fn registering_twice_calls_once() {
    let log = new_log();
    let mut bus = EventBus::new();
    bus.register(string_recorder(log.clone(), "a"));
    bus.register(string_recorder(log.clone(), "a"));
    bus.post("x".to_string());
    assert_eq!(entries(&log), vec!["a:x".to_string()]);
}

#[test]
fn captured_state_is_not_identity() {
    let log = new_log();
    let mut bus = EventBus::new();
    bus.register(string_recorder(log.clone(), "first"));
    bus.register(string_recorder(log.clone(), "second"));
    bus.post("x".to_string());
    assert_eq!(entries(&log), vec!["first:x".to_string()]);
}

#[test]
fn register_then_unregister_calls_none() {
    let log = new_log();
    let mut bus = EventBus::new();
    bus.register(string_recorder(log.clone(), "a"));
    bus.unregister(string_recorder(log.clone(), "a"));
    bus.post("x".to_string());
    assert!(entries(&log).is_empty());
}

#[test]
fn unregister_all_keeps_other_types() {
    let log = new_log();
    let mut bus = EventBus::new();
    bus.register(string_recorder(log.clone(), "s"));
    let l2 = log.clone();
    bus.register(move |n: &i32| l2.borrow_mut().push(format!("i:{}", n)));
    bus.unregister_all::<String>();
    bus.post("x".to_string());
    bus.post(7i32);
    assert_eq!(entries(&log), vec!["i:7".to_string()]);
}

#[test]
fn unrouted_handler_recovers_value() {
    let log = new_log();
    let mut bus = EventBus::new();
    bus.register(unrouted_recorder(log.clone()));
    bus.post("lost".to_string());
    assert_eq!(entries(&log), vec!["dead:string lost".to_string()]);
}

#[test]
fn unrouted_without_handlers_is_silent() {
    let bus = EventBus::new();
    bus.post(5u8);
    bus.post("nobody".to_string());
}

#[test]
fn routes_by_exact_type() {
    let log = new_log();
    let mut bus = EventBus::new();
    let la = log.clone();
    bus.register(move |s: &&str| la.borrow_mut().push(format!("A:{}", s)));
    let lb = log.clone();
    bus.register(move |n: &i32| lb.borrow_mut().push(format!("B:{}", n)));
    bus.post("hi");
    assert_eq!(entries(&log), vec!["A:hi".to_string()]);
    bus.post(42i32);
    assert_eq!(entries(&log), vec!["A:hi".to_string(), "B:42".to_string()]);
    bus.post(3.14f64);
    assert_eq!(entries(&log), vec!["A:hi".to_string(), "B:42".to_string()]);
}

#[test]
fn unregister_one_of_two() {
    let log = new_log();
    let mut bus = EventBus::new();
    let la = log.clone();
    let handler_a = move |s: &String| la.borrow_mut().push(format!("A:{}", s));
    let lb = log.clone();
    bus.register(handler_a.clone());
    bus.register(move |s: &String| lb.borrow_mut().push(format!("B:{}", s)));
    bus.unregister(handler_a);
    bus.post("x".to_string());
    assert_eq!(entries(&log), vec!["B:x".to_string()]);
}

#[test]
fn unrouted_downcast_to_other_type_is_no_match() {
    let log = new_log();
    let mut bus = EventBus::new();
    bus.register(unrouted_recorder(log.clone()));
    bus.post(2.5f64);
    bus.post(9i32);
    assert_eq!(
        entries(&log),
        vec!["dead:unknown".to_string(), "dead:i32 9".to_string()]
    );
}

#[test]
fn unrouted_event_is_not_wrapped_again() {
    let log = new_log();
    let mut bus = EventBus::new();
    bus.register(unrouted_recorder(log.clone()));
    bus.post(1u16);
    assert_eq!(entries(&log), vec!["dead:unknown".to_string()]);
}

#[test]
fn posting_dead_event_without_handlers_calls_nothing() {
    let log = new_log();
    let mut bus = EventBus::new();
    bus.register(string_recorder(log.clone(), "s"));
    bus.post(DeadEvent::new(3i32));
    assert!(entries(&log).is_empty());
}

#[test]
fn redundant_operations_are_no_ops() {
    let log = new_log();
    let mut bus = EventBus::new();
    bus.unregister(string_recorder(log.clone(), "s"));
    bus.unregister_all::<String>();
    bus.register(string_recorder(log.clone(), "s"));
    bus.unregister_all::<i32>();
    bus.unregister(|_: &i32| {});
    bus.post("y".to_string());
    assert_eq!(entries(&log), vec!["s:y".to_string()]);
}

#[test]
fn handler_set_insert_dedups_by_key() {
    let log = new_log();
    let mut set: HandlerSet<String> = HandlerSet::new();
    assert_eq!(set.len(), 0);
    let k1 = set.insert(string_recorder(log.clone(), "a"));
    let k2 = set.insert(string_recorder(log.clone(), "b"));
    assert_eq!(k1, k2);
    assert_eq!(set.len(), 1);
    let l2 = log.clone();
    let k3 = set.insert(move |s: &String| l2.borrow_mut().push(format!("c:{}", s)));
    assert_ne!(k1, k3);
    assert_eq!(set.len(), 2);
    assert_eq!(set.position(&k1), Some(0));
    assert_eq!(set.position(&k3), Some(1));
}

#[test]
fn handler_set_remove_keeps_order() {
    let log = new_log();
    let mut set: HandlerSet<String> = HandlerSet::new();
    let la = log.clone();
    let ka = set.insert(move |s: &String| la.borrow_mut().push(format!("a:{}", s)));
    let lb = log.clone();
    let kb = set.insert(move |s: &String| lb.borrow_mut().push(format!("b:{}", s)));
    let lc = log.clone();
    let kc = set.insert(move |s: &String| lc.borrow_mut().push(format!("c:{}", s)));
    set.remove(&kb);
    assert_eq!(set.len(), 2);
    assert_eq!(set.position(&ka), Some(0));
    assert_eq!(set.position(&kb), None);
    assert_eq!(set.position(&kc), Some(1));
    set.remove(&kb);
    assert_eq!(set.len(), 2);
    assert_eq!(set.dispatch(&"z".to_string()), 2);
    assert_eq!(entries(&log), vec!["a:z".to_string(), "c:z".to_string()]);
}

#[test]
fn handler_set_or_new() {
    let log = new_log();
    let fresh: HandlerSet<String> = HandlerSet::or_new(None);
    assert_eq!(fresh.len(), 0);
    let mut set: HandlerSet<String> = HandlerSet::new();
    set.insert(string_recorder(log.clone(), "a"));
    let kept = HandlerSet::or_new(Some(set));
    assert_eq!(kept.len(), 1);
}

#[test]
fn deliver_routed_counts_primary() {
    let log = new_log();
    let mut primary: HandlerSet<String> = HandlerSet::new();
    primary.insert(string_recorder(log.clone(), "p"));
    let mut fallback: HandlerSet<DeadEvent> = HandlerSet::new();
    fallback.insert(unrouted_recorder(log.clone()));
    let r = deliver(Some(&primary), Some(&fallback), "m".to_string());
    assert_eq!(r, Delivery::Routed(1));
    assert_eq!(entries(&log), vec!["p:m".to_string()]);
}

#[test]
fn deliver_empty_primary_goes_unrouted() {
    let log = new_log();
    let primary: HandlerSet<String> = HandlerSet::new();
    let mut fallback: HandlerSet<DeadEvent> = HandlerSet::new();
    fallback.insert(unrouted_recorder(log.clone()));
    let r = deliver(Some(&primary), Some(&fallback), "m".to_string());
    assert_eq!(r, Delivery::Unrouted(1));
    assert_eq!(entries(&log), vec!["dead:string m".to_string()]);
}

#[test]
fn deliver_with_no_sets_calls_nothing() {
    let r = deliver::<String>(None, None, "m".to_string());
    assert_eq!(r, Delivery::Unrouted(0));
}
