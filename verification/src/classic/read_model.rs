//! The Classic workspace's read model: the core's bottles, their states and
//! the profiles configuration, with change detection.
//!
//! `B` is a bottle handle, `S` a bottle state and `C` a profiles
//! configuration of the core; each is paired with the id it is found by.

use vstd::prelude::*;
use vstd::std_specs::cmp::PartialEqSpec;

verus! {

/// The profiles configuration with its selected profile.
pub struct ProfilesSnapshot<C> {
    pub config: C,
    pub selected_id: u128,
    pub selected_name: String,
}

/// The ids of an id-keyed list, in order.
pub open spec fn ids<T>(items: Seq<(u128, T)>) -> Seq<u128> {
    items.map_values(|item: (u128, T)| item.0)
}

/// Position of the first item with `id`, if any.
pub open spec fn first_index<T>(items: Seq<(u128, T)>, id: u128) -> Option<int> {
    if exists|k: int| 0 <= k < items.len() && items[k].0 == id {
        Some(choose|k: int| 0 <= k < items.len() && items[k].0 == id
            && forall|j: int| 0 <= j < k ==> items[j].0 != id)
    } else {
        None
    }
}

/// Finds the first item with `id`.
pub fn find_index<T>(items: &Vec<(u128, T)>, id: u128) -> (res: Option<usize>)
    ensures
        match res {
            Some(k) => k < items@.len() && items@[k as int].0 == id
                && forall|j: int| 0 <= j < k ==> items@[j].0 != id,
            None => forall|j: int| 0 <= j < items@.len() ==> items@[j].0 != id,
        },
{
    let mut k: usize = 0;
    while k < items.len()
        invariant
            0 <= k <= items@.len(),
            forall|j: int| 0 <= j < k ==> items@[j].0 != id,
        decreases items@.len() - k,
    {
        if items[k].0 == id {
            return Some(k);
        }
        k += 1;
    }
    None
}

/// The read model.
pub struct ReadModel<B, S, C> {
    pub bottles: Vec<(u128, B)>,
    pub bottle_states: Vec<(u128, S)>,
    pub profiles: ProfilesSnapshot<C>,
}

impl<B, S: PartialEq, C: PartialEq> ReadModel<B, S, C> {
    /// A read model of the given bottles, the states that could be read of
    /// them, and the profiles configuration.
    pub fn new(bottles: Vec<(u128, B)>, bottle_states: Vec<(u128, S)>, profiles: ProfilesSnapshot<C>) -> (model: Self)
        ensures
            model.bottles == bottles,
            model.bottle_states == bottle_states,
            model.profiles == profiles,
    {
        ReadModel { bottles, bottle_states, profiles }
    }

    /// Takes a new bottle list; it replaces the list, and the states with the
    /// ones given for it, only when the ids differ from the current ones.
    pub fn set_bottles(&mut self, bottles: Vec<(u128, B)>, states: Vec<(u128, S)>) -> (changed: bool)
        ensures
            changed == (ids(old(self).bottles@) != ids(bottles@)),
            changed ==> final(self).bottles == bottles && final(self).bottle_states == states,
            !changed ==> final(self).bottles == old(self).bottles && final(self).bottle_states == old(self).bottle_states,
            final(self).profiles == old(self).profiles,
    {
        let mut same = self.bottles.len() == bottles.len();
        proof {
            assert(ids(self.bottles@).len() == self.bottles@.len());
            assert(ids(bottles@).len() == bottles@.len());
        }
        let mut k: usize = 0;
        while same && k < bottles.len()
            invariant
                same ==> self.bottles@.len() == bottles@.len(),
                0 <= k <= bottles@.len(),
                same ==> forall|j: int| 0 <= j < k ==> self.bottles@[j].0 == bottles@[j].0,
                !same ==> ids(self.bottles@) != ids(bottles@),
            decreases bottles@.len() - k + (if same { 1int } else { 0int }),
        {
            if self.bottles[k].0 != bottles[k].0 {
                proof {
                    assert(ids(self.bottles@)[k as int] != ids(bottles@)[k as int]);
                }
                same = false;
            } else {
                k += 1;
            }
        }
        if same {
            assert(ids(self.bottles@) =~= ids(bottles@));
            return false;
        }
        self.bottles = bottles;
        self.bottle_states = states;
        true
    }

    /// The read model after a new state of bottle `id` came in, and whether
    /// it changed: an equal state changes nothing, a different one replaces
    /// the bottle's state, and a state of an unknown bottle is appended.
    pub open spec fn state_set(old: Self, id: u128, state: S, new: Self, changed: bool) -> bool {
        &&& new.bottles == old.bottles
        &&& new.profiles == old.profiles
        &&& match first_index(old.bottle_states@, id) {
            None => changed && new.bottle_states@ == old.bottle_states@.push((id, state)),
            Some(k) => {
                &&& changed ==> new.bottle_states@ == old.bottle_states@.update(k, (id, state))
                &&& !changed ==> new.bottle_states@ == old.bottle_states@
                &&& S::obeys_eq_spec() ==> changed == !old.bottle_states@[k].1.eq_spec(&state)
            },
        }
    }

    /// Takes a new state of one bottle; returns whether the model changed.
    pub fn set_bottle_state(&mut self, id: u128, state: S) -> (changed: bool)
        ensures
            Self::state_set(*old(self), id, state, *final(self), changed),
    {
        match find_index(&self.bottle_states, id) {
            Some(k) => {
                proof {
                    let items = old(self).bottle_states@;
                    assert(items[k as int].0 == id && forall|j: int| 0 <= j < k ==> items[j].0 != id);
                    assert(first_index(items, id) == Some(k as int)) by {
                        let c = choose|c: int| 0 <= c < items.len() && items[c].0 == id
                            && forall|j: int| 0 <= j < c ==> items[j].0 != id;
                        if c < k {
                        } else if c > k {
                            assert(items[k as int].0 != id);
                        }
                    }
                }
                if self.bottle_states[k].1 == state {
                    return false;
                }
                self.bottle_states.set(k, (id, state));
                true
            },
            None => {
                self.bottle_states.push((id, state));
                true
            },
        }
    }

    /// Whether a bottle with `id` is known.
    pub fn has_bottle(&self, id: u128) -> (res: bool)
        ensures
            res == exists|k: int| 0 <= k < self.bottles@.len() && self.bottles@[k].0 == id,
    {
        find_index(&self.bottles, id).is_some()
    }

    /// Whether a state of the bottle with `id` is known.
    pub fn has_bottle_state(&self, id: u128) -> (res: bool)
        ensures
            res == exists|k: int| 0 <= k < self.bottle_states@.len() && self.bottle_states@[k].0 == id,
    {
        find_index(&self.bottle_states, id).is_some()
    }
}

} // verus!
