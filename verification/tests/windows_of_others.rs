use rst_win32::cloak::{
    cloak, is_marked, recover_orphans, uncloak, CloakAction, CloakStep, CLOAK_PROP,
};
use rst_win32::model::Edges;
use rst_win32::single_instance::{
    acquire_named, SingleInstance, SingleInstanceResult, MUTEX_NAME,
};
use rst_win32::tiling_apply::{
    apply, close, focus, to_rect, ApplyReport, FocusAction, FocusReply, Placed, TileTarget,
    WindowRect,
};
use rst_win32::utf16::to_wide;

#[test]
fn prod_mutex_name_is_stable_and_session_local() {
    assert_eq!(MUTEX_NAME, "resticker_single_instance");
    assert!(!MUTEX_NAME.starts_with(r"Global\"));
}

/// The named locks of a session: a name is there for as long as someone holds a
/// handle on it.
struct Locks {
    held: Vec<(Vec<u16>, usize)>,
    next: usize,
}

impl Locks {
    fn new() -> Self {
        Locks { held: Vec::new(), next: 1 }
    }

    fn acquire(&mut self, name: &str) -> SingleInstanceResult {
        let wide = to_wide(name);
        if name.contains('\\') {
            return acquire_named(None, 123).0;
        }
        let there = self.held.iter().any(|(n, _)| *n == wide);
        let handle = self.next;
        self.next += 1;
        self.held.push((wide, handle));
        let (result, to_close) = acquire_named(Some(handle), if there { 183 } else { 0 });
        if let Some(handle) = to_close {
            self.close(handle);
        }
        result
    }

    fn close(&mut self, handle: usize) {
        self.held.retain(|(_, h)| *h != handle);
    }

    fn release(&mut self, result: SingleInstanceResult) {
        if let SingleInstanceResult::Acquired(SingleInstance { handle }) = result {
            self.close(handle);
        }
    }
}

#[test]
fn second_acquire_in_same_process_sees_already_running() {
    let mut locks = Locks::new();
    let name = "resticker_test_lifecycle";
    let first = locks.acquire(name);
    assert!(matches!(first, SingleInstanceResult::Acquired(_)));
    let second = locks.acquire(name);
    assert!(matches!(second, SingleInstanceResult::AlreadyRunning));
    locks.release(first);
    let third = locks.acquire(name);
    assert!(matches!(third, SingleInstanceResult::Acquired(_)));
}

#[test]
fn independent_names_do_not_interfere() {
    let mut locks = Locks::new();
    let name_a = "resticker_test_isolated_a";
    let name_b = "resticker_test_isolated_b";

    let lock_a = locks.acquire(name_a);
    assert!(matches!(lock_a, SingleInstanceResult::Acquired(_)));

    let lock_b = locks.acquire(name_b);
    assert!(matches!(lock_b, SingleInstanceResult::Acquired(_)));

    let lock_a_again = locks.acquire(name_a);
    assert!(matches!(lock_a_again, SingleInstanceResult::AlreadyRunning));
}

#[test]
fn invalid_mutex_name_returns_error() {
    let mut locks = Locks::new();
    let result = locks.acquire(r"resticker\invalid\name");
    assert!(matches!(result, SingleInstanceResult::Error));
    assert_eq!(acquire_named(None, 183), (SingleInstanceResult::Error, None));
}

#[test]
fn a_handle_on_a_lock_of_another_copy_is_closed() {
    assert_eq!(
        acquire_named(Some(11), 0),
        (SingleInstanceResult::Acquired(SingleInstance { handle: 11 }), None)
    );
    assert_eq!(
        acquire_named(Some(12), 183),
        (SingleInstanceResult::AlreadyRunning, Some(12))
    );
}

/// Runs a way of hiding or showing to its end, with what succeeds, and lists
/// what was asked for.
fn run(mut step: CloakStep, replies: &[bool]) -> (Vec<CloakAction>, bool) {
    let mut asked = Vec::new();
    for reply in replies {
        asked.push(step.action);
        step.advance(*reply);
    }
    match step.action {
        CloakAction::Finish(outcome) => (asked, outcome),
        other => panic!("not over: {other:?}"),
    }
}

#[test]
fn cloaking_a_dead_window_fails_instead_of_panicking() {
    assert_eq!(run(cloak(), &[false]), (vec![CloakAction::AskAlive], false));
}

#[test]
fn uncloaking_a_dead_window_fails_instead_of_panicking() {
    assert_eq!(run(uncloak(), &[false]), (vec![CloakAction::AskAlive], false));
}

#[test]
fn a_dead_window_carries_no_marker() {
    assert!(!is_marked(0));
    assert!(is_marked(1));
    assert_eq!(CLOAK_PROP, "resticker.tiling.cloaked");
}

#[test]
fn recovery_on_a_clean_desktop_finds_nothing() {
    assert_eq!(recover_orphans(&vec![]), 0);
}

#[test]
fn recovery_counts_the_windows_that_came_back() {
    assert_eq!(recover_orphans(&vec![true, false, true, true]), 3);
}

#[test]
fn a_window_is_marked_before_it_is_hidden() {
    assert_eq!(
        run(cloak(), &[true, true, true]),
        (
            vec![
                CloakAction::AskAlive,
                CloakAction::SetMark,
                CloakAction::SetCloaked(true),
            ],
            true
        )
    );
    // What cannot be marked is not hidden.
    assert_eq!(
        run(cloak(), &[true, false]),
        (vec![CloakAction::AskAlive, CloakAction::SetMark], false)
    );
    // What cannot be hidden loses its mark.
    assert_eq!(
        run(cloak(), &[true, true, false, true]),
        (
            vec![
                CloakAction::AskAlive,
                CloakAction::SetMark,
                CloakAction::SetCloaked(true),
                CloakAction::RemoveMark,
            ],
            false
        )
    );
}

#[test]
fn a_window_that_cannot_be_shown_keeps_its_mark() {
    assert_eq!(
        run(uncloak(), &[true, false]),
        (
            vec![CloakAction::AskAlive, CloakAction::SetCloaked(false)],
            false
        )
    );
    assert_eq!(
        run(uncloak(), &[true, true, false]),
        (
            vec![
                CloakAction::AskAlive,
                CloakAction::SetCloaked(false),
                CloakAction::RemoveMark,
            ],
            true
        )
    );
}

#[test]
fn window_rect_becomes_a_win32_rect() {
    let r = to_rect(WindowRect { x: 100, y: 50, w: 800, h: 600 });
    assert_eq!(r.left, 100);
    assert_eq!(r.top, 50);
    assert_eq!(r.right, 900);
    assert_eq!(r.bottom, 650);
}

#[test]
fn negative_origin_survives_the_conversion() {
    let r = to_rect(WindowRect { x: -1920, y: -200, w: 1920, h: 1080 });
    assert_eq!(r, Edges { left: -1920, top: -200, right: 0, bottom: 880 });
}

#[test]
fn focusing_a_dead_window_fails_instead_of_panicking() {
    let mut step = focus();
    assert_eq!(step.action, FocusAction::AskAlive);
    step.advance(FocusReply::Done(false));
    assert_eq!(step.action, FocusAction::Finish(false));
}

#[test]
fn closing_a_dead_window_fails_instead_of_panicking() {
    assert!(!close(false, true));
    assert!(!close(true, false));
    assert!(close(true, true));
}

#[test]
fn focus_is_first_asked_for_plainly() {
    let mut step = focus();
    step.advance(FocusReply::Done(true));
    assert_eq!(step.action, FocusAction::BringForward);
    step.advance(FocusReply::Done(true));
    assert_eq!(step.action, FocusAction::Finish(true));
}

#[test]
fn input_of_a_window_that_hangs_is_not_joined() {
    let mut step = focus();
    step.advance(FocusReply::Done(true));
    step.advance(FocusReply::Done(false));
    assert_eq!(step.action, FocusAction::LookInFront);
    let mut hung = step;
    hung.advance(FocusReply::InFront { there: true, hangs: true });
    assert_eq!(hung.action, FocusAction::Finish(false));
    let mut none = step;
    none.advance(FocusReply::InFront { there: false, hangs: false });
    assert_eq!(none.action, FocusAction::Finish(false));
}

#[test]
fn joined_input_is_parted_again() {
    let mut step = focus();
    step.advance(FocusReply::Done(true));
    step.advance(FocusReply::Done(false));
    step.advance(FocusReply::InFront { there: true, hangs: false });
    assert_eq!(step.action, FocusAction::AskThreads);
    let mut same = step;
    same.advance(FocusReply::Threads { in_front: 7, own: 7 });
    assert_eq!(same.action, FocusAction::Finish(false));
    step.advance(FocusReply::Threads { in_front: 7, own: 8 });
    assert_eq!(step.action, FocusAction::Attach);
    let mut alone = step;
    alone.advance(FocusReply::Done(false));
    alone.advance(FocusReply::Done(true));
    assert_eq!(alone.action, FocusAction::Finish(true));
    step.advance(FocusReply::Done(true));
    assert_eq!(step.action, FocusAction::BringForwardJoined);
    step.advance(FocusReply::Done(true));
    assert_eq!(step.action, FocusAction::Detach);
    step.advance(FocusReply::Done(false));
    assert_eq!(step.action, FocusAction::Finish(true));
    assert!(!step.attached);
    // A reply that answers nothing changes nothing.
    let over = step;
    step.advance(FocusReply::Threads { in_front: 1, own: 2 });
    assert_eq!(step, over);
}

#[test]
fn an_empty_report_is_empty() {
    assert!(ApplyReport::default().is_empty());
}

#[test]
fn a_report_with_only_dead_windows_is_not_empty() {
    let report = ApplyReport { dead: vec![1], ..Default::default() };
    assert!(!report.is_empty());
}

#[test]
fn applying_nothing_reports_nothing() {
    assert!(apply(&vec![], &vec![]).is_empty());
}

#[test]
fn a_dead_handle_is_reported_as_dead_and_not_attempted() {
    let report = apply(
        &vec![TileTarget {
            hwnd: 0xDEAD_BEEF,
            rect: WindowRect { x: 0, y: 0, w: 100, h: 100 },
        }],
        &vec![Placed::Gone],
    );
    assert_eq!(report.dead, vec![0xDEAD_BEEF]);
    assert!(report.attempted.is_empty());
    assert!(report.refused.is_empty());
}

#[test]
fn each_window_is_reported_once_and_in_order() {
    let rect = WindowRect { x: 0, y: 0, w: 1, h: 1 };
    let targets: Vec<TileTarget> = (1..=5).map(|hwnd| TileTarget { hwnd, rect }).collect();
    let report = apply(
        &targets,
        &vec![Placed::Sent, Placed::Refused, Placed::Sent, Placed::Gone, Placed::Refused],
    );
    assert_eq!(report.attempted, vec![1, 3]);
    assert_eq!(report.dead, vec![4]);
    assert_eq!(report.refused, vec![2, 5]);
}
