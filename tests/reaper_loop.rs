use container_supervisor::reaper::{
    classify_signal, Reaper, ReaperAction, ReaperEvent, ReaperPhase, SignalClass, SignalNumbers,
    WaitOutcome,
};

const SIGCHLD: i32 = 17;
const SIGURG: i32 = 23;
const SIGWINCH: i32 = 28;
const SIGTERM: i32 = 15;
const SIGHUP: i32 = 1;

fn linux() -> SignalNumbers {
    SignalNumbers { child: SIGCHLD, preempt: SIGURG, resize: SIGWINCH }
}

fn ready(init_pid: i32) -> Reaper {
    let (r, first) = Reaper::new(init_pid, linux());
    assert_eq!(first, ReaperAction::WaitForSignal);
    assert_eq!(r.phase, ReaperPhase::AwaitSignal);
    r
}

#[test]
fn signal_classes() {
    assert_eq!(classify_signal(linux(), 17), SignalClass::ChildStatus);
    assert_eq!(classify_signal(linux(), 23), SignalClass::Ignored);
    assert_eq!(classify_signal(linux(), 28), SignalClass::Resize);
    assert_eq!(classify_signal(linux(), SIGTERM), SignalClass::Forward);
    assert_eq!(classify_signal(linux(), SIGHUP), SignalClass::Forward);
}

#[test]
fn signal_classes_follow_host_numbers() {
    let mips = SignalNumbers { child: 18, preempt: 21, resize: 20 };
    assert_eq!(classify_signal(mips, 18), SignalClass::ChildStatus);
    assert_eq!(classify_signal(mips, 21), SignalClass::Ignored);
    assert_eq!(classify_signal(mips, 20), SignalClass::Resize);
    assert_eq!(classify_signal(mips, 17), SignalClass::Forward);
}

#[test]
fn unrelated_child_exits_first_then_init() {
    let mut r = ready(100);
    assert_eq!(r.step(ReaperEvent::Signal { sig: SIGCHLD }), ReaperAction::ReapAny);
    let other = WaitOutcome::Exited { pid: 200, code: 3 };
    assert_eq!(r.step(ReaperEvent::Reaped { outcome: other }), ReaperAction::ReapAny);
    assert!(!r.is_done());
    let init = WaitOutcome::Exited { pid: 100, code: 0 };
    assert_eq!(r.step(ReaperEvent::Reaped { outcome: init }), ReaperAction::Exit { status: 0 });
    assert!(r.is_done());
    assert_eq!(r.phase, ReaperPhase::Finished);
}

#[test]
fn unrelated_child_then_drain_empty_then_init() {
    let mut r = ready(100);
    r.step(ReaperEvent::Signal { sig: SIGCHLD });
    let other = WaitOutcome::Exited { pid: 200, code: 1 };
    assert_eq!(r.step(ReaperEvent::Reaped { outcome: other }), ReaperAction::ReapAny);
    let empty = WaitOutcome::StillAlive;
    assert_eq!(r.step(ReaperEvent::Reaped { outcome: empty }), ReaperAction::WaitForSignal);
    assert_eq!(r.phase, ReaperPhase::AwaitSignal);
    assert_eq!(r.step(ReaperEvent::Signal { sig: SIGCHLD }), ReaperAction::ReapAny);
    let init = WaitOutcome::Exited { pid: 100, code: 0 };
    assert_eq!(r.step(ReaperEvent::Reaped { outcome: init }), ReaperAction::Exit { status: 0 });
}

#[test]
fn ignored_signal_not_forwarded() {
    let mut r = ready(100);
    assert_eq!(r.step(ReaperEvent::Signal { sig: SIGURG }), ReaperAction::WaitForSignal);
    assert!(!r.is_done());
    assert_eq!(r.step(ReaperEvent::Signal { sig: SIGCHLD }), ReaperAction::ReapAny);
    let init = WaitOutcome::Exited { pid: 100, code: 7 };
    assert_eq!(r.step(ReaperEvent::Reaped { outcome: init }), ReaperAction::Exit { status: 7 });
}

#[test]
fn resize_signal_not_forwarded() {
    let mut r = ready(100);
    assert_eq!(r.step(ReaperEvent::Signal { sig: SIGWINCH }), ReaperAction::WaitForSignal);
    assert_eq!(r.phase, ReaperPhase::AwaitSignal);
}

#[test]
fn forward_failure_keeps_looping() {
    let mut r = ready(100);
    assert_eq!(
        r.step(ReaperEvent::Signal { sig: SIGTERM }),
        ReaperAction::ForwardSignal { pid: 100, sig: SIGTERM }
    );
    assert_eq!(r.step(ReaperEvent::Forwarded { ok: false }), ReaperAction::WaitForSignal);
    assert!(!r.is_done());
    assert_eq!(r.step(ReaperEvent::Signal { sig: SIGCHLD }), ReaperAction::ReapAny);
    let init = WaitOutcome::Exited { pid: 100, code: 0 };
    assert_eq!(r.step(ReaperEvent::Reaped { outcome: init }), ReaperAction::Exit { status: 0 });
}

#[test]
fn init_killed_by_signal_returns_signal_number() {
    let mut r = ready(100);
    r.step(ReaperEvent::Signal { sig: SIGCHLD });
    let init = WaitOutcome::Signaled { pid: 100, signal: 9 };
    assert_eq!(r.step(ReaperEvent::Reaped { outcome: init }), ReaperAction::Exit { status: 9 });
}

#[test]
fn unrelated_child_killed_is_absorbed() {
    let mut r = ready(100);
    r.step(ReaperEvent::Signal { sig: SIGCHLD });
    let other = WaitOutcome::Signaled { pid: 300, signal: 9 };
    assert_eq!(r.step(ReaperEvent::Reaped { outcome: other }), ReaperAction::ReapAny);
    let stopped = WaitOutcome::OtherStatus;
    assert_eq!(r.step(ReaperEvent::Reaped { outcome: stopped }), ReaperAction::ReapAny);
    assert_eq!(r.phase, ReaperPhase::Draining);
}

#[test]
fn failures_abort() {
    let mut r = ready(100);
    assert_eq!(r.step(ReaperEvent::WaitFailed), ReaperAction::Abort);
    let mut r = ready(100);
    r.step(ReaperEvent::Signal { sig: SIGCHLD });
    assert_eq!(r.step(ReaperEvent::Reaped { outcome: WaitOutcome::Failed }), ReaperAction::Abort);
    assert!(r.is_done());
}

#[test]
fn events_out_of_turn_are_refused() {
    let r = ready(100);
    assert!(!r.accepts_event(&ReaperEvent::Forwarded { ok: true }));
    assert!(r.accepts_event(&ReaperEvent::Signal { sig: SIGCHLD }));
    assert!(!r.accepts_event(&ReaperEvent::Reaped { outcome: WaitOutcome::StillAlive }));
}
