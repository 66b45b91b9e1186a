use vstd::prelude::*;
use vstd::slice::{slice_subrange, slice_to_vec};

verus! {

/// Why a relay direction could not go on.
#[derive(Clone, Copy, Debug, PartialEq, Eq, Structural)]
pub enum RelayError {
    /// The sink accepted no byte of a non-empty write.
    WriteStalled,
}

/// What the owner of a [`Pipe`] has to do next on its sink.
#[derive(Clone, Copy, Debug, PartialEq, Eq, Structural)]
pub enum WriteStep {
    /// Write the bytes that [`Pipe::pending`] returns.
    Write,
    /// Every byte of the current chunk was written: flush the sink.
    Flush,
    /// Nothing is owed to the sink: read the next chunk.
    Idle,
}

/// One direction of the relay: the chunk most recently read from a source,
/// how much of it the sink has taken, and whether the sink still needs a flush.
///
/// Its ghost history records every byte read from the source (`accepted`) and
/// every byte handed to the sink (`delivered`). What is delivered is always the
/// accepted stream minus the unwritten tail of the current chunk.
pub struct Pipe {
    chunk: Vec<u8>,
    sent: usize,
    unflushed: bool,
    accepted: Ghost<Seq<u8>>,
    delivered: Ghost<Seq<u8>>,
}

impl Pipe {
    /// Bytes read from the source so far, in order.
    pub closed spec fn accepted(&self) -> Seq<u8> {
        self.accepted@
    }

    /// Bytes handed to the sink so far, in order.
    pub closed spec fn delivered(&self) -> Seq<u8> {
        self.delivered@
    }

    /// The part of the current chunk that the sink has not taken yet.
    pub closed spec fn unwritten(&self) -> Seq<u8> {
        self.chunk@.subrange(self.sent as int, self.chunk@.len() as int)
    }

    /// Whether the sink has taken bytes since its last flush.
    pub closed spec fn needs_flush(&self) -> bool {
        self.unflushed
    }

    pub closed spec fn wf(&self) -> bool {
        &&& self.sent <= self.chunk@.len()
        &&& self.accepted@ == self.delivered@ + self.unwritten()
        &&& self.unwritten().len() > 0 ==> self.unflushed
    }

    /// The step that the state of the pipe calls for.
    pub open spec fn step_spec(&self) -> WriteStep {
        if self.unwritten().len() > 0 {
            WriteStep::Write
        } else if self.needs_flush() {
            WriteStep::Flush
        } else {
            WriteStep::Idle
        }
    }

    /// An empty pipe: nothing read, nothing written.
    pub fn new() -> (r: Pipe)
        ensures
            r.wf(),
            r.accepted() == Seq::<u8>::empty(),
            r.delivered() == Seq::<u8>::empty(),
            r.unwritten() == Seq::<u8>::empty(),
            !r.needs_flush(),
    {
        let r = Pipe {
            chunk: Vec::new(),
            sent: 0,
            unflushed: false,
            accepted: Ghost(Seq::empty()),
            delivered: Ghost(Seq::empty()),
        };
        proof {
            assert(r.unwritten() =~= Seq::<u8>::empty());
            assert(r.accepted@ =~= r.delivered@ + r.unwritten());
        }
        r
    }

    /// What the sink needs next.
    pub fn next_step(&self) -> (r: WriteStep)
        requires
            self.wf(),
        ensures
            r == self.step_spec(),
    {
        if self.sent < self.chunk.len() {
            WriteStep::Write
        } else if self.unflushed {
            WriteStep::Flush
        } else {
            WriteStep::Idle
        }
    }

    /// The bytes still owed to the sink, in order.
    pub fn pending(&self) -> (r: &[u8])
        requires
            self.wf(),
        ensures
            r@ == self.unwritten(),
    {
        slice_subrange(self.chunk.as_slice(), self.sent, self.chunk.len())
    }

    /// Takes a chunk just read from the source. An empty chunk is the source's
    /// end of stream: the pipe is left as it was and `false` is returned.
    pub fn accept(&mut self, data: &[u8]) -> (r: bool)
        requires
            old(self).wf(),
            old(self).step_spec() == WriteStep::Idle,
        ensures
            final(self).wf(),
            r == (data@.len() > 0),
            r ==> final(self).accepted() == old(self).accepted() + data@,
            r ==> final(self).unwritten() == data@,
            r ==> final(self).needs_flush(),
            !r ==> *final(self) == *old(self),
            final(self).delivered() == old(self).delivered(),
    {
        if data.len() == 0 {
            return false;
        }
        let ghost before = self.accepted@;
        self.chunk = slice_to_vec(data);
        self.sent = 0;
        self.unflushed = true;
        self.accepted = Ghost(before + data@);
        proof {
            assert(self.unwritten() =~= data@);
            assert(old(self).unwritten() =~= Seq::<u8>::empty());
            assert(before =~= self.delivered@);
        }
        true
    }

    /// Records that the sink took the first `written` bytes of
    /// [`Pipe::pending`]. A sink that takes nothing of a non-empty write
    /// would never drain the pipe: that is an error and nothing changes.
    pub fn record_written(&mut self, written: usize) -> (r: Result<(), RelayError>)
        requires
            old(self).wf(),
            written <= old(self).unwritten().len(),
        ensures
            final(self).wf(),
            r is Err <==> (written == 0 && old(self).unwritten().len() > 0),
            r is Err ==> *final(self) == *old(self),
            r is Ok ==> final(self).delivered() == old(self).delivered()
                + old(self).unwritten().take(written as int),
            r is Ok ==> final(self).unwritten() == old(self).unwritten().skip(written as int),
            final(self).accepted() == old(self).accepted(),
            final(self).needs_flush() == old(self).needs_flush(),
    {
        if written == 0 && self.sent < self.chunk.len() {
            return Err(RelayError::WriteStalled);
        }
        let ghost old_unwritten = self.unwritten();
        let ghost before = self.delivered@;
        let len = self.chunk.len();
        assert(old_unwritten.len() == len - self.sent);
        self.sent = self.sent + written;
        self.delivered = Ghost(before + old_unwritten.take(written as int));
        proof {
            assert(self.unwritten() =~= old_unwritten.skip(written as int));
            assert(old_unwritten =~= old_unwritten.take(written as int) + old_unwritten.skip(
                written as int,
            ));
            assert(self.accepted@ =~= self.delivered@ + self.unwritten());
        }
        Ok(())
    }

    /// Records that the sink was flushed after the whole chunk was written.
    pub fn record_flushed(&mut self)
        requires
            old(self).wf(),
            old(self).unwritten().len() == 0,
        ensures
            final(self).wf(),
            !final(self).needs_flush(),
            final(self).accepted() == old(self).accepted(),
            final(self).delivered() == old(self).delivered(),
            final(self).unwritten() == old(self).unwritten(),
    {
        self.unflushed = false;
    }
}

/// Relayed bytes arrive in order, with nothing lost, doubled or reordered:
/// whatever a well-formed pipe has delivered is a prefix of what it accepted,
/// and once it is idle again the two are equal.
pub proof fn lemma_delivered_in_order(p: &Pipe)
    requires
        p.wf(),
    ensures
        p.accepted().take(p.delivered().len() as int) == p.delivered(),
        p.step_spec() != WriteStep::Write ==> p.delivered() == p.accepted(),
{
    assert(p.accepted().take(p.delivered().len() as int) =~= p.delivered());
    if p.step_spec() != WriteStep::Write {
        assert(p.accepted() =~= p.delivered());
    }
}

} // verus!
