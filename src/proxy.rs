use vstd::prelude::*;
use crate::pipe::{Pipe, RelayError, WriteStep};

verus! {

/// Identifier under which standard input is registered with the multiplexer.
pub const STDIN: usize = 0;

/// Identifier under which the PTY master is registered with the multiplexer.
pub const PTY_MASTER: usize = 1;

/// The source side of a relay direction.
#[derive(Clone, Copy, Debug, PartialEq, Eq, Structural)]
pub enum Channel {
    /// Standard input, relayed to the PTY master.
    Stdin,
    /// The PTY master, relayed to standard output.
    PtyMaster,
}

/// A failure that ends the proxy loop.
#[derive(Clone, Copy, Debug, PartialEq, Eq, Structural)]
pub enum ProxyError {
    /// A read, write or flush failed for a reason other than a hang-up.
    Io,
    /// A sink accepted no byte of a non-empty write.
    WriteStalled,
    /// A notification with an unknown identifier, or an event that the loop
    /// did not ask for.
    ProtocolViolation,
}

/// How the proxy loop ended.
#[derive(Clone, Copy, Debug, PartialEq, Eq, Structural)]
pub enum Termination {
    /// A peer closed its end: the normal way out.
    PeerClosed,
    /// An error that the caller has to report.
    Failed(ProxyError),
}

/// The loop runs until it terminates, and never runs again after that.
#[derive(Clone, Copy, Debug, PartialEq, Eq, Structural)]
pub enum LoopState {
    Running,
    Terminated(Termination),
}

/// What the driver of the loop observed.
pub enum Event {
    /// The multiplexer reported a handle ready to read.
    Ready { token: usize, read_closed: bool },
    /// A read on the active channel returned these bytes (none at end of stream).
    Read { data: Vec<u8> },
    /// A write of [`Proxy::pending`] took this many bytes.
    Wrote { count: usize },
    /// The sink of the active channel was flushed.
    Flushed,
    /// The last read, write or flush failed.
    Failed,
}

/// What the driver of the loop has to do next.
#[derive(Clone, Copy, Debug, PartialEq, Eq, Structural)]
pub enum Action {
    /// Take the next notification, waiting on the multiplexer if none is left.
    Wait,
    /// Read from the channel into a bounded buffer.
    Read(Channel),
    /// Write [`Proxy::pending`] of the channel to its sink.
    Write(Channel),
    /// Flush the sink of the channel.
    Flush(Channel),
    /// Stop: the loop is over.
    Stop(Termination),
}

/// Records a write of `written` bytes of the pipe's pending chunk and says what
/// the sink needs next: more writing until no byte is left, then a flush.
pub fn write_buffer_to(pipe: &mut Pipe, written: usize) -> (r: Result<WriteStep, RelayError>)
    requires
        old(pipe).wf(),
        written <= old(pipe).unwritten().len(),
    ensures
        final(pipe).wf(),
        r is Err <==> (written == 0 && old(pipe).unwritten().len() > 0),
        r is Err ==> *final(pipe) == *old(pipe),
        r is Ok ==> final(pipe).delivered() == old(pipe).delivered() + old(pipe).unwritten().take(
            written as int,
        ),
        r is Ok ==> final(pipe).unwritten() == old(pipe).unwritten().skip(written as int),
        r is Ok ==> r->Ok_0 == final(pipe).step_spec(),
        final(pipe).accepted() == old(pipe).accepted(),
        final(pipe).needs_flush() == old(pipe).needs_flush(),
{
    match pipe.record_written(written) {
        Ok(()) => Ok(pipe.next_step()),
        Err(e) => Err(e),
    }
}

/// The single-threaded relay between standard input and the PTY master, as a
/// state machine: the driver reports each [`Event`] and performs the returned
/// [`Action`]. Once terminated it never runs again.
pub struct Proxy {
    state: LoopState,
    active: Option<Channel>,
    inbound: Pipe,
    outbound: Pipe,
}

/// The other direction.
pub open spec fn other(ch: Channel) -> Channel {
    match ch {
        Channel::Stdin => Channel::PtyMaster,
        Channel::PtyMaster => Channel::Stdin,
    }
}

pub open spec fn failed(e: ProxyError) -> (LoopState, Option<Channel>, Action) {
    (LoopState::Terminated(Termination::Failed(e)), None, Action::Stop(Termination::Failed(e)))
}

pub open spec fn peer_closed() -> (LoopState, Option<Channel>, Action) {
    (LoopState::Terminated(Termination::PeerClosed), None, Action::Stop(Termination::PeerClosed))
}

impl Proxy {
    pub closed spec fn state(&self) -> LoopState {
        self.state
    }

    /// The channel whose bytes are being moved, if any.
    pub closed spec fn active(&self) -> Option<Channel> {
        self.active
    }

    /// Standard input to the PTY master.
    pub closed spec fn inbound(&self) -> Pipe {
        self.inbound
    }

    /// The PTY master to standard output.
    pub closed spec fn outbound(&self) -> Pipe {
        self.outbound
    }

    pub open spec fn pipe(&self, ch: Channel) -> Pipe {
        match ch {
            Channel::Stdin => self.inbound(),
            Channel::PtyMaster => self.outbound(),
        }
    }

    /// Both pipes are well formed. While the loop runs, the direction that is
    /// not being serviced owes its sink nothing, and when no direction is
    /// serviced (the loop waits) neither does.
    pub open spec fn wf(&self) -> bool {
        &&& self.inbound().wf()
        &&& self.outbound().wf()
        &&& self.state() == LoopState::Running ==> match self.active() {
            None => self.inbound().step_spec() == WriteStep::Idle && self.outbound().step_spec()
                == WriteStep::Idle,
            Some(ch) => self.pipe(other(ch)).step_spec() == WriteStep::Idle,
        }
    }

    /// The state, active channel and action that follow an event.
    pub open spec fn transition(&self, ev: Event) -> (LoopState, Option<Channel>, Action) {
        match self.state() {
            LoopState::Terminated(t) => (self.state(), self.active(), Action::Stop(t)),
            LoopState::Running => match ev {
                Event::Ready { token, read_closed } => {
                    if self.active() is Some {
                        failed(ProxyError::ProtocolViolation)
                    } else if read_closed {
                        peer_closed()
                    } else if token == STDIN {
                        (LoopState::Running, Some(Channel::Stdin), Action::Read(Channel::Stdin))
                    } else if token == PTY_MASTER {
                        (
                            LoopState::Running,
                            Some(Channel::PtyMaster),
                            Action::Read(Channel::PtyMaster),
                        )
                    } else {
                        failed(ProxyError::ProtocolViolation)
                    }
                },
                Event::Read { data } => match self.active() {
                    None => failed(ProxyError::ProtocolViolation),
                    Some(ch) => if self.pipe(ch).step_spec() != WriteStep::Idle {
                        failed(ProxyError::ProtocolViolation)
                    } else if data@.len() == 0 {
                        peer_closed()
                    } else {
                        (LoopState::Running, Some(ch), Action::Write(ch))
                    },
                },
                Event::Wrote { count } => match self.active() {
                    None => failed(ProxyError::ProtocolViolation),
                    Some(ch) => {
                        let left = self.pipe(ch).unwritten().len();
                        if count > left {
                            failed(ProxyError::ProtocolViolation)
                        } else if count == 0 && left > 0 {
                            failed(ProxyError::WriteStalled)
                        } else if count < left {
                            (LoopState::Running, Some(ch), Action::Write(ch))
                        } else if self.pipe(ch).needs_flush() {
                            (LoopState::Running, Some(ch), Action::Flush(ch))
                        } else {
                            (LoopState::Running, None, Action::Wait)
                        }
                    },
                },
                Event::Flushed => match self.active() {
                    None => failed(ProxyError::ProtocolViolation),
                    Some(ch) => if self.pipe(ch).unwritten().len() > 0 {
                        failed(ProxyError::ProtocolViolation)
                    } else {
                        (LoopState::Running, None, Action::Wait)
                    },
                },
                Event::Failed => failed(ProxyError::Io),
            },
        }
    }

    /// A loop that is running and has moved no byte yet.
    pub fn new() -> (r: Proxy)
        ensures
            r.wf(),
            r.state() == LoopState::Running,
            r.active() is None,
            r.inbound().accepted() == Seq::<u8>::empty(),
            r.inbound().delivered() == Seq::<u8>::empty(),
            r.inbound().step_spec() == WriteStep::Idle,
            r.outbound().accepted() == Seq::<u8>::empty(),
            r.outbound().delivered() == Seq::<u8>::empty(),
            r.outbound().step_spec() == WriteStep::Idle,
    {
        Proxy { state: LoopState::Running, active: None, inbound: Pipe::new(), outbound: Pipe::new() }
    }

    /// Whether the loop has ended.
    pub fn is_terminated(&self) -> (r: bool)
        ensures
            r == (self.state() is Terminated),
    {
        self.state != LoopState::Running
    }

    /// The bytes still owed to the sink of a channel.
    pub fn pending(&self, ch: Channel) -> (r: &[u8])
        requires
            self.wf(),
        ensures
            r@ == self.pipe(ch).unwritten(),
    {
        match ch {
            Channel::Stdin => self.inbound.pending(),
            Channel::PtyMaster => self.outbound.pending(),
        }
    }

    /// What an event does to the bytes of the two directions: a read fills the
    /// active pipe, a write drains it, a flush clears its flush debt, and every
    /// event that ends the loop leaves both pipes as they were.
    pub open spec fn effect(&self, ev: Event, next: &Proxy) -> bool {
        let (st, act, a) = self.transition(ev);
        let unchanged = next.inbound() == self.inbound() && next.outbound() == self.outbound();
        if st is Terminated || self.state() is Terminated {
            unchanged
        } else {
            match ev {
                Event::Read { data } => {
                    let ch = act->Some_0;
                    &&& next.pipe(ch).accepted() == self.pipe(ch).accepted() + data@
                    &&& next.pipe(ch).delivered() == self.pipe(ch).delivered()
                    &&& next.pipe(ch).unwritten() == data@
                    &&& next.pipe(ch).needs_flush()
                    &&& next.pipe(other(ch)) == self.pipe(other(ch))
                },
                Event::Wrote { count } => {
                    let ch = self.active()->Some_0;
                    let p = self.pipe(ch);
                    &&& next.pipe(ch).accepted() == p.accepted()
                    &&& next.pipe(ch).delivered() == p.delivered() + p.unwritten().take(count as int)
                    &&& next.pipe(ch).unwritten() == p.unwritten().skip(count as int)
                    &&& next.pipe(ch).needs_flush() == p.needs_flush()
                    &&& next.pipe(other(ch)) == self.pipe(other(ch))
                },
                Event::Flushed => {
                    let ch = self.active()->Some_0;
                    let p = self.pipe(ch);
                    &&& next.pipe(ch).accepted() == p.accepted()
                    &&& next.pipe(ch).delivered() == p.delivered()
                    &&& next.pipe(ch).unwritten() == p.unwritten()
                    &&& !next.pipe(ch).needs_flush()
                    &&& next.pipe(other(ch)) == self.pipe(other(ch))
                },
                _ => unchanged,
            }
        }
    }

    /// Advances the loop by one event and returns what the driver does next.
    pub fn step(&mut self, ev: Event) -> (r: Action)
        requires
            old(self).wf(),
        ensures
            final(self).wf(),
            (final(self).state(), final(self).active(), r) == old(self).transition(ev),
            old(self).effect(ev, final(self)),
    {
        match self.state {
            LoopState::Terminated(t) => {
                return Action::Stop(t);
            },
            LoopState::Running => {},
        }
        match ev {
            Event::Ready { token, read_closed } => {
                if self.active.is_some() {
                    self.stop(Termination::Failed(ProxyError::ProtocolViolation))
                } else if read_closed {
                    self.stop(Termination::PeerClosed)
                } else if token == STDIN {
                    self.active = Some(Channel::Stdin);
                    Action::Read(Channel::Stdin)
                } else if token == PTY_MASTER {
                    self.active = Some(Channel::PtyMaster);
                    Action::Read(Channel::PtyMaster)
                } else {
                    self.stop(Termination::Failed(ProxyError::ProtocolViolation))
                }
            },
            Event::Read { data } => match self.active {
                None => self.stop(Termination::Failed(ProxyError::ProtocolViolation)),
                Some(ch) => {
                    let next = match ch {
                        Channel::Stdin => self.inbound.next_step(),
                        Channel::PtyMaster => self.outbound.next_step(),
                    };
                    if next != WriteStep::Idle {
                        self.stop(Termination::Failed(ProxyError::ProtocolViolation))
                    } else if data.len() == 0 {
                        self.stop(Termination::PeerClosed)
                    } else {
                        match ch {
                            Channel::Stdin => {
                                self.inbound.accept(data.as_slice());
                            },
                            Channel::PtyMaster => {
                                self.outbound.accept(data.as_slice());
                            },
                        }
                        Action::Write(ch)
                    }
                },
            },
            Event::Wrote { count } => match self.active {
                None => self.stop(Termination::Failed(ProxyError::ProtocolViolation)),
                Some(ch) => {
                    let left = self.pending(ch).len();
                    if count > left {
                        self.stop(Termination::Failed(ProxyError::ProtocolViolation))
                    } else {
                        let res = match ch {
                            Channel::Stdin => write_buffer_to(&mut self.inbound, count),
                            Channel::PtyMaster => write_buffer_to(&mut self.outbound, count),
                        };
                        match res {
                            Err(_) => self.stop(Termination::Failed(ProxyError::WriteStalled)),
                            Ok(WriteStep::Write) => Action::Write(ch),
                            Ok(WriteStep::Flush) => Action::Flush(ch),
                            Ok(WriteStep::Idle) => {
                                self.active = None;
                                Action::Wait
                            },
                        }
                    }
                },
            },
            Event::Flushed => match self.active {
                None => self.stop(Termination::Failed(ProxyError::ProtocolViolation)),
                Some(ch) => {
                    if self.pending(ch).len() > 0 {
                        self.stop(Termination::Failed(ProxyError::ProtocolViolation))
                    } else {
                        match ch {
                            Channel::Stdin => self.inbound.record_flushed(),
                            Channel::PtyMaster => self.outbound.record_flushed(),
                        }
                        self.active = None;
                        Action::Wait
                    }
                },
            },
            Event::Failed => self.stop(Termination::Failed(ProxyError::Io)),
        }
    }

    fn stop(&mut self, t: Termination) -> (r: Action)
        ensures
            final(self).state() == LoopState::Terminated(t),
            final(self).active() is None,
            final(self).inbound() == old(self).inbound(),
            final(self).outbound() == old(self).outbound(),
            r == Action::Stop(t),
    {
        self.state = LoopState::Terminated(t);
        self.active = None;
        Action::Stop(t)
    }
}

/// Each direction relays its bytes in order, with no loss, duplication or
/// reordering: what a sink has been handed is a prefix of what was read from
/// the source, and equals it whenever no write is under way.
pub proof fn lemma_relayed_in_order(p: &Proxy, ch: Channel)
    requires
        p.wf(),
    ensures
        p.pipe(ch).accepted().take(p.pipe(ch).delivered().len() as int) == p.pipe(ch).delivered(),
        p.pipe(ch).step_spec() != WriteStep::Write ==> p.pipe(ch).delivered()
            == p.pipe(ch).accepted(),
{
    crate::pipe::lemma_delivered_in_order(&p.pipe(ch));
}

/// A hang-up ends a waiting loop successfully at the notification that
/// reports it, whichever handle reports it, with no further input.
pub proof fn lemma_hangup_ends_loop(p: &Proxy, token: usize)
    requires
        p.wf(),
        p.state() == LoopState::Running,
        p.active() is None,
    ensures
        p.transition(Event::Ready { token, read_closed: true }) == peer_closed(),
{
}

/// A read of no bytes is a hang-up too: when a waiting loop is told that a
/// registered handle is readable and the read that follows returns nothing,
/// the loop ends successfully at that read.
pub proof fn lemma_empty_read_ends_loop(p: &Proxy, q: &Proxy, token: usize, empty: Vec<u8>)
    requires
        p.wf(),
        p.state() == LoopState::Running,
        p.active() is None,
        token == STDIN || token == PTY_MASTER,
        q.wf(),
        (q.state(), q.active()) == (
            p.transition(Event::Ready { token, read_closed: false }).0,
            p.transition(Event::Ready { token, read_closed: false }).1,
        ),
        p.effect(Event::Ready { token, read_closed: false }, q),
        empty@.len() == 0,
    ensures
        q.transition(Event::Read { data: empty }) == peer_closed(),
{
}

/// A terminated loop is never resumed: every later event leaves it where it
/// stopped and only repeats why.
pub proof fn lemma_terminated_is_final(p: &Proxy, ev: Event)
    requires
        p.state() is Terminated,
    ensures
        p.transition(ev).0 == p.state(),
        p.transition(ev).2 == Action::Stop(p.state()->Terminated_0),
{
}

/// The result that the caller reports for a finished loop: a peer hang-up is
/// success, anything else the error that ended it.
pub fn outcome(t: Termination) -> (r: Result<(), ProxyError>)
    ensures
        t == Termination::PeerClosed ==> r == Ok::<(), ProxyError>(()),
        t is Failed ==> r == Err::<(), ProxyError>(t->Failed_0),
{
    match t {
        Termination::PeerClosed => Ok(()),
        Termination::Failed(e) => Err(e),
    }
}

} // verus!
