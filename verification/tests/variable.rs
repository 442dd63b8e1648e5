use aicc_core::variable::{Listener, ListenerError, Variable};
use std::cell::Cell;
use std::rc::Rc;

/// Listeners for exercising the value cell: one counts its
/// invocations, one additionally checks the value it observes, one
/// asks for its own removal after a number of calls.
enum TestListener {
    Counting(Rc<Cell<u32>>),
    Expecting(Rc<Cell<u32>>, f32),
    RemoveAfter(Rc<Cell<u32>>, u32),
    AlwaysFailing(Rc<Cell<u32>>),
}

impl Listener<f32> for TestListener {
    type Effect = ();

    // The ghost notification relation is erased in compiled code and
    // never called; a test listener needs no meaningful one.
    fn on_notify(_: Self, _: f32, _: Self, _: vstd::seq::Seq<()>, _: bool) -> bool {
        true
    }

    fn notify(&mut self, val: &f32) -> (Result<(), ListenerError>, Vec<()>) {
        match self {
            TestListener::Counting(calls) => {
                calls.set(calls.get() + 1);
                (Ok(()), Vec::new())
            }
            TestListener::Expecting(calls, expected) => {
                assert_eq!(*expected, *val);
                calls.set(calls.get() + 1);
                (Ok(()), Vec::new())
            }
            TestListener::RemoveAfter(calls, limit) => {
                calls.set(calls.get() + 1);
                if calls.get() >= *limit {
                    (Err(ListenerError::RemoveListener), Vec::new())
                } else {
                    (Ok(()), Vec::new())
                }
            }
            TestListener::AlwaysFailing(calls) => {
                calls.set(calls.get() + 1);
                (Err(ListenerError::Custom("consumer failed".to_string())), Vec::new())
            }
        }
    }
}

#[test]
fn test_callbacks() {
    let calls = Rc::new(Cell::new(0));
    let mut var: Variable<f32, TestListener> = Variable::new(42_f32);

    var.add_listener(TestListener::Counting(calls.clone()));

    var.set_value(42_f32);
    assert_eq!(0, calls.get());

    var.set_value(12.34_f32);
    assert_eq!(1, calls.get());

    let second = Rc::new(Cell::new(0));
    var.add_listener(TestListener::Expecting(second.clone(), -42_f32));

    var.set_value(12.34_f32);
    assert_eq!(1, calls.get());

    var.set_value(-42_f32);
    assert_eq!(2, calls.get());
    assert_eq!(1, second.get());
}

#[test]
fn test_value() {
    let mut var: Variable<f32, TestListener> = Variable::new(1_f32);

    {
        // Test getting the value of an immutable reference works
        let reference = &var;
        assert_eq!(1_f32, *reference.value());
    }

    var.set_value(42_f32);
    assert_eq!(42_f32, *var.value());
}

#[test]
fn removed_listener_is_not_notified_again() {
    let stays = Rc::new(Cell::new(0));
    let leaves = Rc::new(Cell::new(0));
    let mut var: Variable<f32, TestListener> = Variable::new(0_f32);

    var.add_listener(TestListener::RemoveAfter(leaves.clone(), 1));
    var.add_listener(TestListener::Counting(stays.clone()));

    var.set_value(1_f32);
    assert_eq!(1, leaves.get());
    assert_eq!(1, stays.get());
    // The listener that asked for removal was pruned after the pass.
    assert_eq!(1, var.listeners().len());

    var.set_value(2_f32);
    assert_eq!(1, leaves.get());
    assert_eq!(2, stays.get());
}

#[test]
fn a_failing_listener_is_retained() {
    let failures = Rc::new(Cell::new(0));
    let mut var: Variable<f32, TestListener> = Variable::new(0_f32);
    var.add_listener(TestListener::AlwaysFailing(failures.clone()));

    var.set_value(1_f32);
    var.set_value(2_f32);
    // A recoverable failure never prunes the listener.
    assert_eq!(2, failures.get());
    assert_eq!(1, var.listeners().len());
}

struct Tagged(Rc<std::cell::RefCell<Vec<u32>>>, u32);

impl Listener<u32> for Tagged {
    type Effect = ();

    fn on_notify(_: Self, _: u32, _: Self, _: vstd::seq::Seq<()>, _: bool) -> bool {
        true
    }

    fn notify(&mut self, _val: &u32) -> (Result<(), ListenerError>, Vec<()>) {
        self.0.borrow_mut().push(self.1);
        (Ok(()), Vec::new())
    }
}

#[test]
fn notification_order_is_registration_order() {
    let log = Rc::new(std::cell::RefCell::new(Vec::new()));

    let mut var: Variable<u32, Tagged> = Variable::new(0);
    var.add_listener(Tagged(log.clone(), 1));
    var.add_listener(Tagged(log.clone(), 2));
    var.add_listener(Tagged(log.clone(), 3));

    var.set_value(9);
    assert_eq!(*log.borrow(), vec![1, 2, 3]);
}
