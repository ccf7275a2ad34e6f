//! Decisions of draining a stream of raw operation payloads.
use vstd::prelude::*;
use crate::errors::StoreError;

verus! {

/// One item read from an operation stream, after the attempt to decode its
/// payload.
#[derive(Debug)]
pub enum StreamItem<Op> {
    /// The payload decoded to an operation.
    Decoded(Op),
    /// The payload did not decode; the decoder's description of why.
    Undecodable(String),
    /// The stream itself failed.
    Failed(StoreError),
}

/// What to do with one stream item.
#[derive(Debug)]
pub enum DrainStep<Op> {
    /// Broadcast the operation to all subscribers and go on.
    Broadcast(Op),
    /// Log the decoding failure and go on.
    Skip(String),
    /// Stop draining and report the stream's error.
    Stop(StoreError),
}

/// The number of operations broadcast while draining, up to the first
/// stream failure: undecodable payloads are skipped.
pub open spec fn spec_drain_count<Op>(items: Seq<StreamItem<Op>>) -> nat
    decreases items.len(),
{
    if items.len() == 0 {
        0
    } else {
        match items[0] {
            StreamItem::Decoded(_) => 1 + spec_drain_count(items.drop_first()),
            StreamItem::Undecodable(_) => spec_drain_count(items.drop_first()),
            StreamItem::Failed(_) => 0,
        }
    }
}

/// Whether the stream reports a failure (the drain then ends with it).
pub open spec fn spec_drain_fails<Op>(items: Seq<StreamItem<Op>>) -> bool {
    exists|i: int| 0 <= i < items.len() && items[i] is Failed
}

/// Counts the operations broadcast while draining one stream.
pub struct OperationDrain {
    count: usize,
}

impl OperationDrain {
    /// The number of operations broadcast so far.
    pub closed spec fn spec_count(self) -> nat {
        self.count as nat
    }

    /// A drain that has seen nothing yet.
    pub fn new() -> (d: OperationDrain)
        ensures
            d.spec_count() == 0,
    {
        OperationDrain { count: 0 }
    }

    /// The number of operations broadcast so far (the drain's result once
    /// the stream ended cleanly).
    pub fn count(&self) -> (r: usize)
        ensures
            r == self.spec_count(),
    {
        self.count
    }

    /// Decides what to do with one item: a decoded operation is broadcast
    /// and counted, an undecodable payload is skipped, a stream failure
    /// stops the drain with that error.
    pub fn next<Op>(&mut self, item: StreamItem<Op>) -> (step: DrainStep<Op>)
        requires
            item is Decoded ==> old(self).spec_count() < usize::MAX,
        ensures
            match item {
                StreamItem::Decoded(op) => step == DrainStep::Broadcast(op)
                    && final(self).spec_count() == old(self).spec_count() + 1,
                StreamItem::Undecodable(why) => step == DrainStep::<Op>::Skip(why)
                    && final(self).spec_count() == old(self).spec_count(),
                StreamItem::Failed(e) => step == DrainStep::<Op>::Stop(e)
                    && final(self).spec_count() == old(self).spec_count(),
            },
    {
        match item {
            StreamItem::Decoded(op) => {
                self.count = self.count + 1;
                DrainStep::Broadcast(op)
            },
            StreamItem::Undecodable(why) => DrainStep::Skip(why),
            StreamItem::Failed(e) => DrainStep::Stop(e),
        }
    }
}

/// Draining items one by one from a fresh drain, the count after the last
/// item before any failure is the number of decoded operations among them:
/// each step adds what `spec_drain_count` adds for its item.
pub proof fn law_drain_counts_decoded<Op>(items: Seq<StreamItem<Op>>, item: StreamItem<Op>)
    requires
        !spec_drain_fails(items),
    ensures
        spec_drain_count(items.push(item)) == spec_drain_count(items) + match item {
            StreamItem::Decoded(_) => 1nat,
            _ => 0nat,
        },
        !(item is Failed) ==> !spec_drain_fails(items.push(item)),
    decreases items.len(),
{
    if items.len() == 0 {
        assert(items.push(item).drop_first() =~= Seq::<StreamItem<Op>>::empty());
        assert(items.push(item)[0] == item);
        assert(spec_drain_count(Seq::<StreamItem<Op>>::empty()) == 0);
    } else {
        assert(items.push(item)[0] == items[0]);
        assert(!(items[0] is Failed));
        assert(items.push(item).drop_first() =~= items.drop_first().push(item));
        assert(!spec_drain_fails(items.drop_first())) by {
            if spec_drain_fails(items.drop_first()) {
                let i = choose|i: int| 0 <= i < items.drop_first().len() && items.drop_first()[i] is Failed;
                assert(items[i + 1] is Failed);
            }
        }
        law_drain_counts_decoded(items.drop_first(), item);
    }
    if !(item is Failed) {
        assert forall|i: int| 0 <= i < items.push(item).len() implies !(items.push(item)[i] is Failed) by {
            if i < items.len() {
                assert(items.push(item)[i] == items[i]);
            }
        }
    }
}

} // verus!
