use vstd::prelude::*;

use crate::messages::{Message, MessageType};

verus! {

/// Messages that arrived while the robot waited for a reply of another kind.
/// They are held in arrival order and handed out at the next plain check.
pub struct MessageQueue {
    queued: Vec<Message>,
}

impl View for MessageQueue {
    type V = Seq<Message>;

    closed spec fn view(&self) -> Seq<Message> {
        self.queued@
    }
}

impl MessageQueue {
    pub fn new() -> (q: MessageQueue)
        ensures
            q@ == Seq::<Message>::empty(),
    {
        MessageQueue { queued: Vec::new() }
    }

    pub fn len(&self) -> (n: usize)
        ensures
            n == self@.len(),
    {
        self.queued.len()
    }

    /// Opens a check for messages. A plain check (`wait_for` is `None`) first takes
    /// every held message, oldest first; a wait for one kind takes none.
    pub fn begin_check(&mut self, wait_for: Option<MessageType>) -> (msgs: Vec<Message>)
        ensures
            wait_for is None ==> msgs@ == old(self)@ && final(self)@ == Seq::<Message>::empty(),
            wait_for is Some ==> msgs@ == Seq::<Message>::empty() && final(self)@ == old(self)@,
    {
        if wait_for.is_none() {
            let mut taken: Vec<Message> = Vec::new();
            std::mem::swap(&mut taken, &mut self.queued);
            taken
        } else {
            Vec::new()
        }
    }

    /// Routes one received message during a check. The awaited kind goes to `msgs`
    /// and ends the check (the result is `true`); while waiting, any other kind is
    /// held back; in a plain check every message goes to `msgs`.
    pub fn route(&mut self, msg: Message, wait_for: Option<MessageType>, msgs: &mut Vec<Message>) -> (done:
        bool)
        ensures
            done == (wait_for == Some(msg.spec_type())),
            done || wait_for is None ==> final(msgs)@ == old(msgs)@.push(msg) && final(self)@ == old(
                self,
            )@,
            !done && wait_for is Some ==> final(self)@ == old(self)@.push(msg) && final(msgs)@
                == old(msgs)@,
    {
        match wait_for {
            Some(t) => {
                if t == msg.get_type() {
                    msgs.push(msg);
                    true
                } else {
                    self.queued.push(msg);
                    false
                }
            },
            None => {
                msgs.push(msg);
                false
            },
        }
    }
}

} // verus!
