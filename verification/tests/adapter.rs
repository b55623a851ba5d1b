//! Tests of the terminal handle, the process-wide cell and the single-shot
//! input poller.

use tokio_ncurses::handle::{FatalFault, TerminalCell, TerminalFD};
use tokio_ncurses::poller::{GetchFuture, PollDirective, PollPhase};

#[test]
fn open_success_keeps_descriptor() {
    let h = TerminalFD::new(3).unwrap();
    assert_eq!(h.raw_fd(), 3);
    assert!(!h.released);
}

#[test]
fn open_failure_is_fatal_fault() {
    match TerminalFD::new(-1) {
        Ok(_) => panic!("a failed open must not become a handle"),
        Err(e) => assert_eq!(e, FatalFault::TerminalOpenFailed),
    }
}

#[test]
fn release_closes_exactly_once() {
    let mut h = TerminalFD::new(5).unwrap();
    assert!(h.release());
    assert!(!h.release());
    assert!(!h.release());
    assert_eq!(h.raw_fd(), 5);
}

#[test]
fn cell_starts_empty_and_fills_once() {
    let mut cell = TerminalCell::new();
    assert!(!cell.is_initialized());
    let rejected = cell.install(TerminalFD::new(4).unwrap());
    assert!(rejected.is_none());
    assert!(cell.is_initialized());
    assert_eq!(cell.fd(), 4);
}

#[test]
fn racing_installs_keep_first_descriptor() {
    let mut cell = TerminalCell::new();
    assert!(cell.install(TerminalFD::new(4).unwrap()).is_none());

    // A second first-use attempt (the loser of an initialization race) is
    // rejected: the cell keeps the first descriptor, and the loser gets its
    // handle back to close that descriptor again.
    let mut loser = cell.install(TerminalFD::new(9).unwrap()).unwrap();
    assert_eq!(loser.raw_fd(), 9);
    assert!(loser.release());
    assert_eq!(cell.fd(), 4);

    // And a third attempt still observes the identical descriptor.
    assert!(cell.install(TerminalFD::new(11).unwrap()).is_some());
    assert_eq!(cell.fd(), 4);
}

#[test]
fn never_ready_stays_pending() {
    let mut f = GetchFuture::new(0);
    for _ in 0..5 {
        assert_eq!(f.poll_step(false), PollDirective::Suspend);
        assert!(!f.is_done());
        assert_eq!(f.phase, PollPhase::Suspended);
        assert_eq!(f.reads, 0);
    }
}

#[test]
fn space_bar_code_returned() {
    let mut f = GetchFuture::new(0);
    assert_eq!(f.poll_step(false), PollDirective::Suspend);
    assert_eq!(f.poll_step(true), PollDirective::ReadInput);
    assert_eq!(f.reads, 0);
    assert_eq!(f.finish(32), 32);
    assert!(f.is_done());
    assert_eq!(f.reads, 1);
}

#[test]
fn sentinel_code_unmodified() {
    let mut f = GetchFuture::new(0);
    assert_eq!(f.poll_step(true), PollDirective::ReadInput);
    assert_eq!(f.finish(-1), -1);
    assert!(f.is_done());
}

#[test]
fn cancelled_invocation_reads_nothing() {
    let mut f = GetchFuture::new(7);
    assert_eq!(f.poll_step(false), PollDirective::Suspend);
    assert_eq!(f.poll_step(false), PollDirective::Suspend);
    // Abandoned while suspended: no underlying read was ever directed.
    assert_eq!(f.reads, 0);
    drop(f);
}

#[test]
fn n_invocations_n_reads_one_open() {
    let mut cell = TerminalCell::new();
    let mut reads: u64 = 0;
    let mut installs: u32 = 0;
    for n in 0..3 {
        if !cell.is_initialized() {
            // Only the very first invocation pays the open.
            assert!(cell.install(TerminalFD::new(6).unwrap()).is_none());
            installs += 1;
        }
        let fd = cell.fd();
        assert_eq!(fd, 6);
        let mut f = GetchFuture::new(fd);
        assert_eq!(f.poll_step(false), PollDirective::Suspend);
        assert_eq!(f.poll_step(true), PollDirective::ReadInput);
        assert_eq!(f.finish(32 + n), 32 + n);
        reads += f.reads;
    }
    assert_eq!(installs, 1);
    assert_eq!(reads, 3);
}
