use vstd::prelude::*;

use std::collections::HashMap;

verus! {

broadcast use vstd::std_specs::hash::group_hash_axioms;

/// Why a registration was refused.
#[derive(Debug, Clone, Copy, PartialEq, Eq, Structural)]
pub enum RegistryError {
    /// A robot with this id is registered already.
    AlreadyRegistered { id: u32 },
}

/// The console's records of the robots that are alive, keyed by robot id.
/// A record is created when a robot announces itself, replaced on each accepted
/// update, and removed when the robot announces that it is dying.
pub struct RobotRegistry<R> {
    robots: HashMap<u32, R>,
}

impl<R> View for RobotRegistry<R> {
    type V = Map<u32, R>;

    closed spec fn view(&self) -> Map<u32, R> {
        self.robots@
    }
}

impl<R> RobotRegistry<R> {
    pub fn new() -> (reg: RobotRegistry<R>)
        ensures
            reg@ == Map::<u32, R>::empty(),
    {
        RobotRegistry { robots: HashMap::new() }
    }

    pub fn len(&self) -> (n: usize)
        ensures
            n == self@.len(),
    {
        self.robots.len()
    }

    pub fn is_empty(&self) -> (r: bool)
        ensures
            r == (self@.len() == 0),
    {
        let r = self.robots.is_empty();
        proof {
            if !r {
                assert(!(self@ =~= Map::<u32, R>::empty()));
                let k = choose|k: u32| self@.contains_key(k);
                assert(self@.dom().contains(k));
                vstd::set_lib::lemma_set_empty_equivalency_len(self@.dom());
            } else {
                assert(self@.dom() =~= Set::<u32>::empty());
            }
        }
        r
    }

    pub fn contains(&self, id: u32) -> (r: bool)
        ensures
            r == self@.contains_key(id),
    {
        self.robots.contains_key(&id)
    }

    /// Adds the record of a new robot; an id that is registered already is refused
    /// and the registry is left as it was.
    pub fn register(&mut self, id: u32, record: R) -> (r: Result<(), RegistryError>)
        ensures
            old(self)@.contains_key(id) ==> r == Err::<(), RegistryError>(
                RegistryError::AlreadyRegistered { id },
            ) && final(self)@ == old(self)@,
            !old(self)@.contains_key(id) ==> r is Ok && final(self)@ == old(self)@.insert(
                id,
                record,
            ),
    {
        if self.robots.contains_key(&id) {
            return Err(RegistryError::AlreadyRegistered { id });
        }
        self.robots.insert(id, record);
        Ok(())
    }

    /// The record of robot `id`, if it is registered.
    pub fn get(&self, id: u32) -> (r: Option<&R>)
        ensures
            match r {
                Some(rec) => self@.contains_key(id) && *rec == self@[id],
                None => !self@.contains_key(id),
            },
    {
        self.robots.get(&id)
    }

    /// Replaces the record of robot `id`; for an unknown id nothing changes.
    /// Returns whether the robot was registered.
    pub fn update(&mut self, id: u32, record: R) -> (found: bool)
        ensures
            found == old(self)@.contains_key(id),
            found ==> final(self)@ == old(self)@.insert(id, record),
            !found ==> final(self)@ == old(self)@,
    {
        if !self.robots.contains_key(&id) {
            return false;
        }
        self.robots.insert(id, record);
        true
    }

    /// Removes robot `id`, if registered, and tells whether no robot is left.
    pub fn unregister(&mut self, id: u32) -> (now_empty: bool)
        ensures
            final(self)@ == old(self)@.remove(id),
            now_empty == (final(self)@.len() == 0),
    {
        self.robots.remove(&id);
        self.is_empty()
    }
}

} // verus!
