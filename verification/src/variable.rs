//! Reactive value cells.
//!
//! A [`Variable`] holds a typed value and an ordered sequence of
//! listeners. Setting a value equal to the current one notifies nobody;
//! setting a different value notifies every live listener exactly once,
//! in registration order, before the new value is stored. A listener
//! may ask for its own permanent removal, which is honoured after the
//! notification pass completes, and may emit effects (register writes,
//! telemetry records) that the caller carries out.

use vstd::prelude::*;
use vstd::std_specs::cmp::PartialEqSpec;

verus! {

/// What a listener reports when it cannot consume a change: ask for
/// permanent removal, or report a recoverable failure (the listener is
/// kept and the failure only logged).
#[derive(Debug)]
pub enum ListenerError {
    /// The listener is done for good and wants to be pruned.
    RemoveListener,
    /// An input/output path on the consumer's side failed.
    Io(String),
    /// Any other recoverable consumer-side failure.
    Custom(String),
}

/// Whether a listener's verdict asks for the listener's removal.
pub open spec fn requests_removal(r: Result<(), ListenerError>) -> bool {
    r matches Err(ListenerError::RemoveListener)
}

/// A consumer of value changes. Each implementation fixes, through
/// [`Listener::on_notify`], the relation one notification satisfies;
/// [`Variable::set_value`] promises that relation for every listener it
/// notifies.
pub trait Listener<T>: Sized {
    /// What a notification may emit for the caller to carry out.
    type Effect;

    /// The relation one notification establishes between the
    /// listener's prior state, the observed value, its new state, the
    /// effects it emitted, and whether it asked to be removed.
    spec fn on_notify(pre: Self, val: T, post: Self, effects: Seq<Self::Effect>, removed: bool) -> bool;

    /// Observes a changed value; returns the verdict and the emitted
    /// effects.
    fn notify(&mut self, val: &T) -> (r: (Result<(), ListenerError>, Vec<Self::Effect>))
        ensures
            Self::on_notify(*old(self), *val, *final(self), r.1@, requests_removal(r.0)),
    ;
}

/// One record per notified listener, in notification order: the
/// listener's state after the call, what it emitted, and whether it
/// asked to be removed.
pub open spec fn notified<T, L: Listener<T>>(
    pre: Seq<L>,
    val: T,
    trace: Seq<(L, Seq<L::Effect>, bool)>,
) -> bool {
    &&& trace.len() == pre.len()
    &&& forall|i: int|
        0 <= i < pre.len() ==> #[trigger] L::on_notify(
            pre[i],
            val,
            trace[i].0,
            trace[i].1,
            trace[i].2,
        )
}

/// The listeners that survive a notification pass, in their original
/// order: those that did not ask to be removed.
pub open spec fn survivors<T, L: Listener<T>>(trace: Seq<(L, Seq<L::Effect>, bool)>) -> Seq<L>
    decreases trace.len(),
{
    if trace.len() == 0 {
        Seq::empty()
    } else {
        let rest = survivors::<T, L>(trace.drop_last());
        if trace.last().2 {
            rest
        } else {
            rest.push(trace.last().0)
        }
    }
}

/// Everything a notification pass emitted, in notification order.
pub open spec fn emitted<T, L: Listener<T>>(trace: Seq<(L, Seq<L::Effect>, bool)>) -> Seq<
    L::Effect,
>
    decreases trace.len(),
{
    if trace.len() == 0 {
        Seq::empty()
    } else {
        emitted::<T, L>(trace.drop_last()) + trace.last().1
    }
}

/// What holds after a value cell accepted a changed value: some
/// notification pass over the old listeners took place, the survivors
/// remain in order, everything emitted is handed back in order, and
/// the new value is stored.
pub open spec fn set_value_post<T, L: Listener<T>>(
    pre_listeners: Seq<L>,
    val: T,
    post_value: T,
    post_listeners: Seq<L>,
    effects: Seq<L::Effect>,
) -> bool {
    exists|trace: Seq<(L, Seq<L::Effect>, bool)>|
        {
            &&& #[trigger] notified(pre_listeners, val, trace)
            &&& post_listeners == survivors::<T, L>(trace)
            &&& effects == emitted::<T, L>(trace)
            &&& post_value == val
        }
}

/// A typed value cell with change-triggered notification: the unit of
/// composition between command sources, actuators and telemetry.
pub struct Variable<T, L> {
    value: T,
    listeners: Vec<L>,
}

impl<T: PartialEq, L: Listener<T>> Variable<T, L> {
    /// The current value, as seen by specifications.
    pub closed spec fn spec_value(&self) -> T {
        self.value
    }

    /// The registered listeners in registration order, as seen by
    /// specifications.
    pub closed spec fn spec_listeners(&self) -> Seq<L> {
        self.listeners@
    }

    pub fn new(value: T) -> (r: Variable<T, L>)
        ensures
            r.spec_value() == value,
            r.spec_listeners() == Seq::<L>::empty(),
    {
        Variable { value, listeners: Vec::new() }
    }

    /// Registers a listener behind all existing ones.
    pub fn add_listener(&mut self, listener: L)
        ensures
            final(self).spec_value() == old(self).spec_value(),
            final(self).spec_listeners() == old(self).spec_listeners().push(listener),
    {
        self.listeners.push(listener);
    }

    /// The current value.
    pub fn value(&self) -> (r: &T)
        ensures
            *r == self.spec_value(),
    {
        &self.value
    }

    /// The registered listeners, for inspection.
    pub fn listeners(&self) -> (r: &Vec<L>)
        ensures
            r@ == self.spec_listeners(),
    {
        &self.listeners
    }

    /// Stores a new value. If it equals the current value nothing
    /// happens and nobody is notified; otherwise every listener is
    /// notified exactly once, in registration order, listeners that
    /// asked for removal are pruned after the pass, and everything the
    /// pass emitted is returned in order.
    ///
    /// The two cases are always exhaustive; which one a given value
    /// selects is pinned to spec equality for every value type whose
    /// `==` obeys vstd's eq-spec obligation, as the deployed `u32`
    /// does ([`crate::session::applied`] states both cases there
    /// unconditionally).
    pub fn set_value(&mut self, val: T) -> (effects: Vec<L::Effect>)
        ensures
            (*final(self) == *old(self) && effects@.len() == 0) || set_value_post(
                old(self).spec_listeners(),
                val,
                final(self).spec_value(),
                final(self).spec_listeners(),
                effects@,
            ),
            T::obeys_eq_spec() ==> {
                if old(self).spec_value().eq_spec(&val) {
                    *final(self) == *old(self) && effects@.len() == 0
                } else {
                    set_value_post(
                        old(self).spec_listeners(),
                        val,
                        final(self).spec_value(),
                        final(self).spec_listeners(),
                        effects@,
                    )
                }
            },
    {
        if self.value != val {
            let ghost pre_listeners = self.listeners@;
            let ghost mut trace: Seq<(L, Seq<L::Effect>, bool)> = Seq::empty();
            let mut effects: Vec<L::Effect> = Vec::new();
            let mut keep: Vec<bool> = Vec::new();
            let n = self.listeners.len();
            let mut i: usize = 0;
            while i < n
                invariant
                    i <= n,
                    n == pre_listeners.len(),
                    self.listeners@.len() == n,
                    self.value == old(self).spec_value(),
                    keep@.len() == i,
                    trace.len() == i,
                    notified(pre_listeners.take(i as int), val, trace),
                    forall|j: int| 0 <= j < i ==> self.listeners@[j] == (#[trigger] trace[j]).0,
                    forall|j: int| 0 <= j < i ==> keep@[j] == !(#[trigger] trace[j]).2,
                    forall|j: int| i <= j < n ==> self.listeners@[j] == pre_listeners[j],
                    effects@ == emitted::<T, L>(trace),
                decreases n - i,
            {
                let listener = &mut self.listeners[i];
                let (verdict, mut emitted_now) = listener.notify(&val);
                let ghost emitted_now_view = emitted_now@;
                let removed = match verdict {
                    Err(ListenerError::RemoveListener) => true,
                    _ => false,
                };
                effects.append(&mut emitted_now);
                keep.push(!removed);
                proof {
                    assert(L::on_notify(
                        pre_listeners[i as int],
                        val,
                        self.listeners@[i as int],
                        emitted_now_view,
                        removed,
                    ));
                    let rec = (self.listeners@[i as int], emitted_now_view, removed);
                    let trace2 = trace.push(rec);
                    assert(trace2.drop_last() =~= trace);
                    assert(pre_listeners.take(i + 1).drop_last() =~= pre_listeners.take(i as int));
                    assert(pre_listeners.take(i + 1)[i as int] == pre_listeners[i as int]);
                    trace = trace2;
                }
                i = i + 1;
            }
            proof {
                assert(pre_listeners.take(n as int) =~= pre_listeners);
            }
            // Prune after the full pass: rebuild the listener list from
            // the survivors, keeping their order.
            let ghost notified_listeners = self.listeners@;
            let mut kept: Vec<L> = Vec::new();
            let mut j: usize = 0;
            while j < n
                invariant
                    j <= n,
                    n == trace.len(),
                    keep@.len() == n,
                    self.value == old(self).spec_value(),
                    notified_listeners.len() == n,
                    self.listeners@ =~= notified_listeners.skip(j as int),
                    forall|k: int| 0 <= k < n ==> notified_listeners[k] == (#[trigger] trace[k]).0,
                    forall|k: int| 0 <= k < n ==> keep@[k] == !(#[trigger] trace[k]).2,
                    kept@ == survivors::<T, L>(trace.take(j as int)),
                decreases n - j,
            {
                let listener = self.listeners.remove(0);
                if keep[j] {
                    kept.push(listener);
                }
                proof {
                    assert(trace.take(j + 1).drop_last() =~= trace.take(j as int));
                    assert(self.listeners@ =~= notified_listeners.skip(j + 1));
                }
                j = j + 1;
            }
            self.listeners = kept;
            self.value = val;
            proof {
                assert(trace.take(n as int) =~= trace);
                assert(notified(pre_listeners, val, trace));
                assert(set_value_post(
                    pre_listeners,
                    val,
                    self.spec_value(),
                    self.spec_listeners(),
                    effects@,
                ));
            }
            effects
        } else {
            Vec::new()
        }
    }
}

} // verus!
