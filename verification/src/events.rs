//! Events that any number of parties can subscribe to.

use core::marker::PhantomData;
use vstd::prelude::*;

verus! {

/// One subscription to an event: the action to take when the event occurs.
pub struct Subscription<Arg: Clone, F: Fn(Arg)> {
    action: F,
    argument: PhantomData<Arg>,
}

/// A kind of event which can be subscribed to from various sources.
pub struct Event<Arg: Clone, F: Fn(Arg)> {
    subscriptions: Vec<Subscription<Arg, F>>,
}

impl<Arg: Clone, F: Fn(Arg)> Subscription<Arg, F> {
    /// The action of the subscription.
    pub closed spec fn action(&self) -> F {
        self.action
    }

    /// A subscription that takes the action `func`.
    pub fn new(func: F) -> (subscription: Self)
        ensures
            subscription.action() == func,
    {
        Subscription { action: func, argument: PhantomData }
    }
}

impl<Arg: Clone, F: Fn(Arg)> Event<Arg, F> {
    /// The actions of the subscriptions, first subscribed first.
    pub closed spec fn actions(&self) -> Seq<F> {
        self.subscriptions@.map_values(|subscription: Subscription<Arg, F>| subscription.action())
    }

    /// Whether `action` has been taken on a clone of `arg`.
    pub open spec fn taken_on(action: F, arg: Arg) -> bool {
        exists|given: Arg| cloned(arg, given) && #[trigger] call_ensures(action, (given,), ())
    }

    /// An event without subscriptions.
    pub fn new() -> (event: Self)
        ensures
            event.actions() == Seq::<F>::empty(),
    {
        let event = Event { subscriptions: Vec::new() };
        assert(event.actions() =~= Seq::<F>::empty());
        event
    }

    /// Subscribes `func` to the event, behind those subscribed already.
    pub fn subscribe(&mut self, func: F)
        ensures
            final(self).actions() == old(self).actions().push(func),
    {
        self.subscriptions.push(Subscription::new(func));
        assert(self.actions() =~= old(self).actions().push(func));
    }

    /// Lets the event occur: every subscribed action is taken once, in the
    /// order of subscription, each on a clone of `arg`.
    pub fn call(&self, arg: Arg)
        requires
            forall|index: int, given: Arg|
                0 <= index < self.actions().len() ==> #[trigger] call_requires(
                    self.actions()[index],
                    (given,),
                ),
        ensures
            forall|index: int|
                0 <= index < self.actions().len() ==> Self::taken_on(
                    #[trigger] self.actions()[index],
                    arg,
                ),
    {
        let mut taken: usize = 0;
        while taken < self.subscriptions.len()
            invariant
                taken <= self.subscriptions.len(),
                self.actions().len() == self.subscriptions.len(),
                forall|index: int, given: Arg|
                    0 <= index < self.actions().len() ==> #[trigger] call_requires(
                        self.actions()[index],
                        (given,),
                    ),
                forall|index: int|
                    0 <= index < taken ==> Self::taken_on(#[trigger] self.actions()[index], arg),
            decreases self.subscriptions.len() - taken,
        {
            let action = &self.subscriptions[taken].action;
            assert(*action == self.actions()[taken as int]);
            let given = arg.clone();
            action(given);
            taken += 1;
        }
    }
}

impl<Arg: Clone, F: Fn(Arg)> Default for Event<Arg, F> {
    fn default() -> (event: Self)
        ensures
            event.actions() == Seq::<F>::empty(),
    {
        Event::new()
    }
}

} // verus!
