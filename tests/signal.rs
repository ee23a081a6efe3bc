use std::cell::{Cell, RefCell};
use std::rc::Rc;

use signal_hub::{Callback, Signal, SignalCtor};

/// Counts its invocations, records the arguments it saw and answers `reply`.
#[derive(Clone)]
struct Probe {
    hits: Rc<Cell<i32>>,
    seen: Rc<RefCell<Vec<i32>>>,
    reply: Option<SignalCtor>,
}

impl Probe {
    fn new(hits: &Rc<Cell<i32>>, reply: Option<SignalCtor>) -> Probe {
        Probe { hits: hits.clone(), seen: Rc::new(RefCell::new(Vec::new())), reply }
    }
}

impl Callback<i32> for Probe {
    fn call(&self, args: i32) -> Option<SignalCtor> {
        self.hits.set(self.hits.get() + 1);
        self.seen.borrow_mut().push(args);
        self.reply
    }
}

#[test]
fn test_multi_emit() {
    let mut signal = Signal::new();
    let count = Rc::new(Cell::new(0));
    signal.listener(Probe::new(&count, None)).unwrap();
    signal.emit(0);
    signal.emit(0);
    assert_eq!(count.get(), 2);
}

#[test]
fn test_multi_listener() {
    let mut signal = Signal::new();
    let count = Rc::new(Cell::new(0));
    let first = signal.listener(Probe::new(&count, None)).unwrap();
    signal.listener(Probe::new(&count, None)).unwrap();
    signal.emit(0);
    assert_eq!(count.get(), 2);
    assert!(signal.off(first));
}

#[test]
fn break_stops_later_listeners() {
    let mut signal = Signal::new();
    let count = Rc::new(Cell::new(0));
    let l1 = signal.listener(Probe::new(&count, None)).unwrap();
    let l2 = signal.listener(Probe::new(&count, Some(SignalCtor::BREAK))).unwrap();
    signal.listener(Probe::new(&count, None)).unwrap();
    let trace = signal.emit(7);
    assert_eq!(count.get(), 2);
    assert_eq!(trace, vec![(l1, None), (l2, Some(SignalCtor::BREAK))]);
    // the listener that broke stays registered
    signal.emit(7);
    assert_eq!(count.get(), 4);
}

#[test]
fn identities_are_distinct() {
    let mut signal = Signal::new();
    let count = Rc::new(Cell::new(0));
    let probe = Probe::new(&count, None);
    let a = signal.listener(probe.clone()).unwrap();
    let b = signal.listener(probe.clone()).unwrap();
    assert_eq!(a, 0);
    assert_eq!(b, 1);
    signal.emit(1);
    assert_eq!(count.get(), 2);
}

#[test]
fn attach_is_idempotent() {
    let mut signal = Signal::new();
    let count = Rc::new(Cell::new(0));
    let probe = Probe::new(&count, None);
    let id = signal.listener(probe.clone()).unwrap();
    assert!(!signal.attach(id, probe.clone()));
    signal.emit(1);
    assert_eq!(count.get(), 1);
    assert!(signal.off(id));
    assert!(signal.attach(id, probe.clone()));
    signal.emit(1);
    assert_eq!(count.get(), 2);
}

#[test]
fn attach_refuses_unissued_identity() {
    let mut signal: Signal<Probe> = Signal::new();
    let count = Rc::new(Cell::new(0));
    assert!(!signal.attach(5, Probe::new(&count, None)));
    assert_eq!(signal.emit(1), vec![]);
}

#[test]
fn off_reports_presence() {
    let mut signal = Signal::new();
    let count = Rc::new(Cell::new(0));
    let id = signal.listener(Probe::new(&count, None)).unwrap();
    assert!(!signal.off(id + 1));
    assert!(signal.off(id));
    assert!(!signal.off(id));
    signal.emit(3);
    assert_eq!(count.get(), 0);
}

#[test]
fn fan_out_reaches_each_once() {
    let mut signal = Signal::new();
    let count = Rc::new(Cell::new(0));
    let probes: Vec<Probe> = (0..4).map(|_| Probe::new(&count, None)).collect();
    let ids: Vec<u64> = probes.iter().map(|p| signal.listener(p.clone()).unwrap()).collect();
    let trace = signal.emit(9);
    assert_eq!(count.get(), 4);
    let reached: Vec<u64> = trace.iter().map(|c| c.0).collect();
    assert_eq!(reached, ids);
    for p in &probes {
        assert_eq!(*p.seen.borrow(), vec![9]);
    }
}

#[test]
fn unsubscribe_removes_and_halts() {
    let mut signal = Signal::new();
    let count = Rc::new(Cell::new(0));
    let a = signal.listener(Probe::new(&count, None)).unwrap();
    let b = signal.listener(Probe::new(&count, Some(SignalCtor::OFF))).unwrap();
    let c = signal.listener(Probe::new(&count, None)).unwrap();
    let trace = signal.emit(1);
    assert_eq!(trace, vec![(a, None), (b, Some(SignalCtor::OFF))]);
    assert_eq!(count.get(), 2);
    let trace = signal.emit(1);
    assert_eq!(trace, vec![(a, None), (c, None)]);
    assert!(!signal.off(b));
}

#[test]
fn removal_during_emission_keeps_snapshot() {
    let mut signal = Signal::new();
    let count = Rc::new(Cell::new(0));
    let a = signal.listener(Probe::new(&count, None)).unwrap();
    let b = signal.listener(Probe::new(&count, None)).unwrap();
    let mut dispatch = signal.begin_emit();
    let (id, body) = dispatch.current().unwrap();
    assert_eq!(id, a);
    let outcome = body.call(4);
    // the first listener removes the second one from the live registry
    assert!(signal.off(b));
    assert!(dispatch.settle(&mut signal, outcome));
    let (id, body) = dispatch.current().unwrap();
    assert_eq!(id, b);
    let outcome = body.call(4);
    assert!(dispatch.settle(&mut signal, outcome));
    assert!(dispatch.current().is_none());
    assert_eq!(count.get(), 2);
    assert_eq!(signal.emit(4), vec![(a, None)]);
}

#[test]
fn listener_added_during_emission_waits() {
    let mut signal = Signal::new();
    let count = Rc::new(Cell::new(0));
    let a = signal.listener(Probe::new(&count, None)).unwrap();
    let mut dispatch = signal.begin_emit();
    let (_, body) = dispatch.current().unwrap();
    let outcome = body.call(2);
    let late = signal.listener(Probe::new(&count, None)).unwrap();
    assert!(dispatch.settle(&mut signal, outcome));
    assert!(dispatch.current().is_none());
    assert_eq!(count.get(), 1);
    assert_eq!(signal.emit(2), vec![(a, None), (late, None)]);
}

#[test]
fn settle_off_leaves_registry() {
    let mut signal = Signal::new();
    let count = Rc::new(Cell::new(0));
    let a = signal.listener(Probe::new(&count, None)).unwrap();
    let b = signal.listener(Probe::new(&count, None)).unwrap();
    let mut dispatch = signal.begin_emit();
    assert!(!dispatch.settle(&mut signal, Some(SignalCtor::OFF)));
    assert!(dispatch.current().is_none());
    assert_eq!(signal.emit(0), vec![(b, None)]);
    assert!(!signal.off(a));
}

#[test]
fn close_empties() {
    let mut signal = Signal::new();
    let count = Rc::new(Cell::new(0));
    let id = signal.listener(Probe::new(&count, None)).unwrap();
    signal.listener(Probe::new(&count, None)).unwrap();
    signal.close();
    assert_eq!(signal.emit(5), vec![]);
    assert_eq!(count.get(), 0);
    assert!(!signal.off(id));
    // identities are not reused after a clear
    assert_eq!(signal.listener(Probe::new(&count, None)), Some(2));
}

#[test]
fn empty_signal_emits_nothing() {
    let mut signal: Signal<Probe> = Signal::new();
    assert_eq!(signal.emit(0), vec![]);
}
