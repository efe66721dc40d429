//! The node's output, as the node sees it: an ordered list of lines that
//! takes one message at a time, or refuses it.

use crate::message::{Message, MessageView};
use vstd::prelude::*;

verus! {

/// An output sink. While it is open, each message written to it is kept after
/// those written before; once it is closed it takes nothing.
pub struct Outbox {
    lines: Vec<Message>,
    open: bool,
}

impl Outbox {
    /// The messages written and not yet taken, oldest first.
    pub closed spec fn lines(&self) -> Seq<MessageView> {
        Seq::new(self.lines@.len(), |i: int| self.lines@[i]@)
    }

    /// Whether the sink takes a write.
    pub closed spec fn accepts(&self) -> bool {
        self.open
    }

    /// An open sink that holds nothing.
    pub fn new() -> (out: Outbox)
        ensures
            out.accepts(),
            out.lines() == Seq::<MessageView>::empty(),
    {
        let out = Outbox { lines: Vec::new(), open: true };
        assert(out.lines() =~= Seq::<MessageView>::empty());
        out
    }

    /// Whether the sink takes a write.
    pub fn is_open(&self) -> (b: bool)
        ensures
            b == self.accepts(),
    {
        self.open
    }

    /// The number of messages written and not yet taken.
    pub fn len(&self) -> (n: usize)
        ensures
            n == self.lines().len(),
    {
        self.lines.len()
    }

    /// Closes the sink: every later write is refused. What it holds stays.
    pub fn close(&mut self)
        ensures
            !final(self).accepts(),
            final(self).lines() == old(self).lines(),
    {
        self.open = false;
    }

    /// Writes one message after those already held, or refuses it.
    /// Returns whether the message was taken.
    pub fn write(&mut self, line: Message) -> (taken: bool)
        ensures
            taken == old(self).accepts(),
            final(self).accepts() == old(self).accepts(),
            taken ==> final(self).lines() == old(self).lines().push(line@),
            !taken ==> final(self).lines() == old(self).lines(),
    {
        if self.open {
            self.lines.push(line);
            assert(self.lines() =~= old(self).lines().push(line@));
            true
        } else {
            false
        }
    }

    /// Hands out the messages held, oldest first, and leaves the sink empty.
    pub fn take(&mut self) -> (taken: Vec<Message>)
        ensures
            final(self).accepts() == old(self).accepts(),
            final(self).lines() == Seq::<MessageView>::empty(),
            taken@.len() == old(self).lines().len(),
            forall|i: int| 0 <= i < taken@.len() ==> (#[trigger] taken@[i])@ == old(self).lines()[i],
    {
        let mut taken: Vec<Message> = Vec::new();
        std::mem::swap(&mut self.lines, &mut taken);
        assert(self.lines() =~= Seq::<MessageView>::empty());
        taken
    }
}

} // verus!
