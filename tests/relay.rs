use ptyproxy::pipe::{Pipe, RelayError, WriteStep};
use ptyproxy::proxy::{
    outcome, write_buffer_to, Action, Channel, Event, Proxy, ProxyError, Termination, PTY_MASTER,
    STDIN,
};

/// Drives one readiness notification through the loop: the source yields
/// `chunk`, the sink takes at most `max_write` bytes per write.
fn relay_chunk(p: &mut Proxy, token: usize, chunk: &[u8], max_write: usize, sink: &mut Vec<u8>) -> Action {
    let mut action = p.step(Event::Ready { token, read_closed: false });
    loop {
        match action {
            Action::Read(_) => {
                action = p.step(Event::Read { data: chunk.to_vec() });
            }
            Action::Write(ch) => {
                let pending = p.pending(ch);
                let n = pending.len().min(max_write);
                sink.extend_from_slice(&pending[..n]);
                action = p.step(Event::Wrote { count: n });
            }
            Action::Flush(_) => {
                action = p.step(Event::Flushed);
            }
            Action::Wait | Action::Stop(_) => return action,
        }
    }
}

#[test]
fn hello_reaches_the_master() {
    let mut p = Proxy::new();
    let mut master = Vec::new();
    let a = relay_chunk(&mut p, STDIN, b"hello\n", 4096, &mut master);
    assert_eq!(a, Action::Wait);
    assert_eq!(master, b"hello\n".to_vec());
}

#[test]
fn pong_reaches_stdout_and_is_flushed() {
    let mut p = Proxy::new();
    assert_eq!(p.step(Event::Ready { token: PTY_MASTER, read_closed: false }), Action::Read(Channel::PtyMaster));
    assert_eq!(p.step(Event::Read { data: b"pong".to_vec() }), Action::Write(Channel::PtyMaster));
    assert_eq!(p.pending(Channel::PtyMaster), b"pong");
    assert_eq!(p.step(Event::Wrote { count: 4 }), Action::Flush(Channel::PtyMaster));
    assert_eq!(p.step(Event::Flushed), Action::Wait);
    assert!(p.pending(Channel::PtyMaster).is_empty());
}

#[test]
fn partial_writes_keep_order_without_loss() {
    let mut p = Proxy::new();
    let mut master = Vec::new();
    let mut stdout = Vec::new();
    let input: Vec<u8> = (0u8..=255).collect();
    for chunk in input.chunks(37) {
        assert_eq!(relay_chunk(&mut p, STDIN, chunk, 5, &mut master), Action::Wait);
        assert_eq!(relay_chunk(&mut p, PTY_MASTER, chunk, 3, &mut stdout), Action::Wait);
    }
    assert_eq!(master, input);
    assert_eq!(stdout, input);
}

#[test]
fn hangup_ends_loop_successfully() {
    let mut p = Proxy::new();
    let a = p.step(Event::Ready { token: PTY_MASTER, read_closed: true });
    assert_eq!(a, Action::Stop(Termination::PeerClosed));
    assert!(p.is_terminated());
    assert_eq!(outcome(Termination::PeerClosed), Ok(()));
}

#[test]
fn hangup_on_stdin_ends_loop_successfully() {
    let mut p = Proxy::new();
    let a = p.step(Event::Ready { token: STDIN, read_closed: true });
    assert_eq!(a, Action::Stop(Termination::PeerClosed));
}

#[test]
fn empty_read_ends_loop_successfully() {
    let mut p = Proxy::new();
    let mut sink = Vec::new();
    let a = relay_chunk(&mut p, PTY_MASTER, b"", 10, &mut sink);
    assert_eq!(a, Action::Stop(Termination::PeerClosed));
    assert!(sink.is_empty());
}

#[test]
fn unknown_token_is_a_protocol_violation() {
    let mut p = Proxy::new();
    let a = p.step(Event::Ready { token: 7, read_closed: false });
    assert_eq!(a, Action::Stop(Termination::Failed(ProxyError::ProtocolViolation)));
    assert_eq!(outcome(Termination::Failed(ProxyError::ProtocolViolation)), Err(ProxyError::ProtocolViolation));
}

#[test]
fn out_of_order_event_is_a_protocol_violation() {
    let mut p = Proxy::new();
    let a = p.step(Event::Wrote { count: 0 });
    assert_eq!(a, Action::Stop(Termination::Failed(ProxyError::ProtocolViolation)));
}

#[test]
fn io_failure_ends_loop_with_error() {
    let mut p = Proxy::new();
    p.step(Event::Ready { token: STDIN, read_closed: false });
    let a = p.step(Event::Failed);
    assert_eq!(a, Action::Stop(Termination::Failed(ProxyError::Io)));
    assert_eq!(outcome(Termination::Failed(ProxyError::Io)), Err(ProxyError::Io));
}

#[test]
fn stalled_write_ends_loop_with_error() {
    let mut p = Proxy::new();
    p.step(Event::Ready { token: STDIN, read_closed: false });
    p.step(Event::Read { data: vec![1, 2, 3] });
    let a = p.step(Event::Wrote { count: 0 });
    assert_eq!(a, Action::Stop(Termination::Failed(ProxyError::WriteStalled)));
}

#[test]
fn terminated_loop_is_never_resumed() {
    let mut p = Proxy::new();
    p.step(Event::Ready { token: STDIN, read_closed: true });
    let a = p.step(Event::Ready { token: STDIN, read_closed: false });
    assert_eq!(a, Action::Stop(Termination::PeerClosed));
    assert!(p.is_terminated());
}

#[test]
fn write_buffer_to_drains_then_flushes() {
    let mut pipe = Pipe::new();
    assert_eq!(pipe.next_step(), WriteStep::Idle);
    assert!(pipe.accept(b"abcdef"));
    assert_eq!(pipe.pending(), b"abcdef");
    assert_eq!(write_buffer_to(&mut pipe, 4), Ok(WriteStep::Write));
    assert_eq!(pipe.pending(), b"ef");
    assert_eq!(write_buffer_to(&mut pipe, 0), Err(RelayError::WriteStalled));
    assert_eq!(pipe.pending(), b"ef");
    assert_eq!(write_buffer_to(&mut pipe, 2), Ok(WriteStep::Flush));
    pipe.record_flushed();
    assert_eq!(pipe.next_step(), WriteStep::Idle);
}

#[test]
fn empty_chunk_is_end_of_stream() {
    let mut pipe = Pipe::new();
    assert!(!pipe.accept(b""));
    assert_eq!(pipe.next_step(), WriteStep::Idle);
}
