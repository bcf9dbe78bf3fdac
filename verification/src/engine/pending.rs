//! Requests that wait for their answers.
use std::collections::HashMap;
use vstd::prelude::*;

verus! {

broadcast use vstd::std_specs::hash::group_hash_axioms;

/// Those who wait, by the command word that they wait for. There is one for each word:
/// who asks later takes the place of who asked before.
#[derive(Debug)]
pub struct Pending<T> {
    waiting: HashMap<u16, T>,
}

impl<T> View for Pending<T> {
    type V = Map<u16, T>;

    closed spec fn view(&self) -> Map<u16, T> {
        self.waiting@
    }
}

impl<T> Pending<T> {
    /// Nobody waits.
    pub fn new() -> (r: Self)
        ensures
            r@ == Map::<u16, T>::empty(),
    {
        Pending { waiting: HashMap::new() }
    }

    /// Somebody waits for a command word. Gives back who waited for it before.
    pub fn wait(&mut self, expected: u16, who: T) -> (r: Option<T>)
        ensures
            final(self)@ == old(self)@.insert(expected, who),
            r == if old(self)@.contains_key(expected) {
                Some(old(self)@[expected])
            } else {
                None
            },
    {
        self.waiting.insert(expected, who)
    }

    /// A packet answers a command word, or there is no more use in waiting for it. Gives
    /// back who waited.
    pub fn take(&mut self, answered: u16) -> (r: Option<T>)
        ensures
            final(self)@ == old(self)@.remove(answered),
            r == if old(self)@.contains_key(answered) {
                Some(old(self)@[answered])
            } else {
                None
            },
    {
        let r = self.waiting.remove(&answered);
        proof {
            assert(self@ =~= old(self)@.remove(answered));
        }
        r
    }
}

} // verus!
