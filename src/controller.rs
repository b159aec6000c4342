use vstd::prelude::*;

use crate::messages::{Message, MessageType};

verus! {

/// What the robot's run loop does after one round of control messages.
#[derive(Debug, Clone, Copy, PartialEq, Eq, Structural)]
pub enum StepAction {
    /// A kill message came: announce death and leave the loop.
    Die,
    /// Paused: evaluate nothing and keep the cycle counter.
    Idle,
    /// Pull every top-level behavior with this cycle number.
    Evaluate { cycle: u64 },
}

/// The paused flag after the control messages `msgs`, and whether a kill came.
/// Messages are taken in order and a kill ends the round: Start runs, Pause toggles,
/// any other kind is ignored.
pub open spec fn drain_controls(paused: bool, msgs: Seq<Message>) -> (bool, bool)
    decreases msgs.len(),
{
    if msgs.len() == 0 {
        (paused, false)
    } else {
        match msgs[0].spec_type() {
            MessageType::Kill => (paused, true),
            MessageType::Start => drain_controls(false, msgs.drop_first()),
            MessageType::Pause => drain_controls(!paused, msgs.drop_first()),
            _ => drain_controls(paused, msgs.drop_first()),
        }
    }
}

/// Drives the top-level behaviors of one robot: a paused/running state machine
/// with a cycle counter. It starts paused at cycle 0.
pub struct Controller<B> {
    behaviors: Vec<B>,
    paused: bool,
    cycle: u64,
}

impl<B> Controller<B> {
    pub closed spec fn spec_behaviors(&self) -> Seq<B> {
        self.behaviors@
    }

    pub closed spec fn spec_paused(&self) -> bool {
        self.paused
    }

    pub closed spec fn spec_cycle(&self) -> u64 {
        self.cycle
    }

    pub fn new() -> (c: Controller<B>)
        ensures
            c.spec_behaviors() == Seq::<B>::empty(),
            c.spec_paused(),
            c.spec_cycle() == 0,
    {
        Controller { behaviors: Vec::new(), paused: true, cycle: 0 }
    }

    pub fn add_behavior(&mut self, behavior: B)
        ensures
            final(self).spec_behaviors() == old(self).spec_behaviors().push(behavior),
            final(self).spec_paused() == old(self).spec_paused(),
            final(self).spec_cycle() == old(self).spec_cycle(),
    {
        self.behaviors.push(behavior);
    }

    pub fn set_paused(&mut self, paused: bool)
        ensures
            final(self).spec_behaviors() == old(self).spec_behaviors(),
            final(self).spec_paused() == paused,
            final(self).spec_cycle() == old(self).spec_cycle(),
    {
        self.paused = paused;
    }

    pub fn behaviors(&self) -> (r: &Vec<B>)
        ensures
            r@ == self.spec_behaviors(),
    {
        &self.behaviors
    }

    pub fn is_paused(&self) -> (r: bool)
        ensures
            r == self.spec_paused(),
    {
        self.paused
    }

    pub fn cycle(&self) -> (r: u64)
        ensures
            r == self.spec_cycle(),
    {
        self.cycle
    }

    fn handle_start(&mut self)
        ensures
            *final(self) == (Controller { paused: false, ..*old(self) }),
    {
        self.paused = false;
    }

    fn handle_pause(&mut self)
        ensures
            *final(self) == (Controller { paused: !old(self).paused, ..*old(self) }),
    {
        self.paused = !self.paused;
    }

    /// Applies the control messages in order, stopping at a kill; returns whether one came.
    pub fn handle_msgs(&mut self, msgs: &Vec<Message>) -> (got_kill: bool)
        ensures
            (final(self).spec_paused(), got_kill) == drain_controls(old(self).spec_paused(), msgs@),
            final(self).spec_behaviors() == old(self).spec_behaviors(),
            final(self).spec_cycle() == old(self).spec_cycle(),
    {
        let mut i: usize = 0;
        assert(msgs@.subrange(0, msgs@.len() as int) =~= msgs@);
        while i < msgs.len()
            invariant
                0 <= i <= msgs@.len(),
                drain_controls(self.paused, msgs@.subrange(i as int, msgs@.len() as int))
                    == drain_controls(old(self).paused, msgs@),
                self.behaviors@ == old(self).behaviors@,
                self.cycle == old(self).cycle,
            decreases msgs@.len() - i,
        {
            proof {
                let rest = msgs@.subrange(i as int, msgs@.len() as int);
                assert(rest.drop_first() =~= msgs@.subrange(i + 1, msgs@.len() as int));
                assert(rest[0] == msgs@[i as int]);
            }
            match msgs[i].get_type() {
                MessageType::Start => self.handle_start(),
                MessageType::Kill => {
                    return true;
                },
                MessageType::Pause => self.handle_pause(),
                _ => {},
            }
            i = i + 1;
        }
        proof {
            assert(msgs@.subrange(i as int, msgs@.len() as int).len() == 0);
        }
        false
    }

    /// One iteration of the run loop, after its control messages were drained:
    /// die on a kill; otherwise evaluate the current cycle when running, and count it.
    pub fn step(&mut self, msgs: &Vec<Message>) -> (action: StepAction)
        requires
            old(self).spec_cycle() < u64::MAX,
        ensures
            ({
                let (paused, killed) = drain_controls(old(self).spec_paused(), msgs@);
                &&& final(self).spec_paused() == paused
                &&& final(self).spec_behaviors() == old(self).spec_behaviors()
                &&& killed ==> action == StepAction::Die && final(self).spec_cycle() == old(
                    self,
                ).spec_cycle()
                &&& !killed && paused ==> action == StepAction::Idle && final(self).spec_cycle()
                    == old(self).spec_cycle()
                &&& !killed && !paused ==> action == (StepAction::Evaluate {
                    cycle: old(self).spec_cycle(),
                }) && final(self).spec_cycle() == old(self).spec_cycle() + 1
            }),
    {
        if self.handle_msgs(msgs) {
            return StepAction::Die;
        }
        if self.paused {
            return StepAction::Idle;
        }
        let cycle = self.cycle;
        self.cycle = self.cycle + 1;
        StepAction::Evaluate { cycle }
    }
}

} // verus!
