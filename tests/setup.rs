use nix::pty::openpty;
use nix::sys::termios::{tcgetattr, LocalFlags};
use ptyproxy::allocation::{after_alloc_step, first_alloc_step, AllocProgress, AllocStep, AllocationError};
use ptyproxy::terminal::TerminalModes;

#[test]
fn allocation_runs_its_steps_in_order() {
    let mut step = first_alloc_step();
    assert_eq!(step, AllocStep::OpenMaster);
    let mut seen = vec![step];
    loop {
        match after_alloc_step(step, true) {
            Ok(AllocProgress::Next(s)) => {
                seen.push(s);
                step = s;
            }
            Ok(AllocProgress::Done) => break,
            Err(e) => panic!("unexpected failure at {:?}", e.step),
        }
    }
    assert_eq!(seen, vec![AllocStep::OpenMaster, AllocStep::Grant, AllocStep::Unlock, AllocStep::ResolvePath]);
}

#[test]
fn allocation_failure_names_its_step() {
    assert_eq!(after_alloc_step(AllocStep::Grant, false), Err(AllocationError { step: AllocStep::Grant }));
    assert_eq!(after_alloc_step(AllocStep::Unlock, false), Err(AllocationError { step: AllocStep::Unlock }));
    assert_eq!(after_alloc_step(AllocStep::OpenMaster, false), Err(AllocationError { step: AllocStep::OpenMaster }));
    assert_eq!(after_alloc_step(AllocStep::ResolvePath, false), Err(AllocationError { step: AllocStep::ResolvePath }));
}

#[test]
fn raw_mode_disables_echo_lines_and_signals_and_restore_gives_snapshot() {
    let pair = openpty(None, None).expect("openpty");
    let captured = tcgetattr(&pair.slave).expect("tcgetattr");
    let mut modes = TerminalModes::capture(captured.clone());
    let raw = modes.set_raw().expect("first raw request");
    assert!(!raw.local_flags.contains(LocalFlags::ECHO));
    assert!(!raw.local_flags.contains(LocalFlags::ICANON));
    assert!(!raw.local_flags.contains(LocalFlags::ISIG));
    assert!(modes.set_raw().is_none());
    assert_eq!(*modes.snapshot_ref(), captured);
    assert_eq!(*modes.snapshot_ref(), *modes.snapshot_ref());
    assert_eq!(modes.restore(), captured);
}
