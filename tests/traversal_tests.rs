use timetable_links::poller::{PollStep, Poller, Probe, ReadyPolicy};
use timetable_links::results::finalize;
use timetable_links::strategy::{Command, StrategyRun};
use timetable_links::traversal::{
    Action, Event, LinkRules, Mode, PageTarget, TargetWalk, Timing, Watch, WalkPhase,
};

fn strings(items: &[&str]) -> Vec<String> {
    items.iter().map(|s| s.to_string()).collect()
}

fn timing() -> Timing {
    Timing {
        page_settle_ms: 15_000,
        engage_settle_ms: 2_000,
        advance_settle_ms: 2_000,
        changelog_settle_ms: 50,
        cards: ReadyPolicy { timeout_ms: 10_000, interval_ms: 100 },
        overlay: ReadyPolicy { timeout_ms: 2_000, interval_ms: 100 },
        changelog: ReadyPolicy { timeout_ms: 5_000, interval_ms: 250 },
    }
}

fn rules() -> LinkRules {
    LinkRules { suffix: ".pdf".to_string(), storage_host: "files.example.org/".to_string() }
}

#[test]
fn policy_validity() {
    assert!(ReadyPolicy { timeout_ms: 1000, interval_ms: 100 }.is_valid());
    assert!(!ReadyPolicy { timeout_ms: 1000, interval_ms: 0 }.is_valid());
    assert!(!ReadyPolicy { timeout_ms: 50, interval_ms: 100 }.is_valid());
    assert!(!ReadyPolicy { timeout_ms: u64::MAX, interval_ms: 1 }.is_valid());
    assert!(timing().is_valid());
}

#[test]
fn poller_ready_at_once() {
    let mut p = Poller::new(ReadyPolicy { timeout_ms: 1000, interval_ms: 100 });
    assert_eq!(p.observe(Probe::Ready), PollStep::Satisfied);
    assert_eq!(p.waited_ms, 0);
}

#[test]
fn poller_returns_within_timeout_plus_interval() {
    let policy = ReadyPolicy { timeout_ms: 1000, interval_ms: 300 };
    let mut p = Poller::new(policy);
    let mut slept: u64 = 0;
    let mut evaluations = 0;
    loop {
        evaluations += 1;
        let probe = if evaluations % 2 == 0 { Probe::Failed } else { Probe::NotReady };
        match p.observe(probe) {
            PollStep::Sleep(ms) => slept += ms,
            PollStep::TimedOut => break,
            PollStep::Satisfied => panic!("never ready"),
        }
    }
    assert_eq!(slept, 1200);
    assert!(slept < 1000 + 300);
    assert_eq!(evaluations, 5);
}

#[test]
fn poller_ready_after_some_sleeps() {
    let mut p = Poller::new(ReadyPolicy { timeout_ms: 1000, interval_ms: 100 });
    assert_eq!(p.observe(Probe::NotReady), PollStep::Sleep(100));
    assert_eq!(p.observe(Probe::Failed), PollStep::Sleep(100));
    assert_eq!(p.observe(Probe::Ready), PollStep::Satisfied);
    assert_eq!(p.waited_ms, 200);
}

#[test]
fn plain_walk_stops_when_next_is_inert() {
    let r = rules();
    let mut w = TargetWalk::new(Mode::WithoutExpansion, timing());
    assert_eq!(w.step(&r, Event::Completed), Action::Check { watch: Watch::Cards, delay_ms: 15_000 });
    assert_eq!(w.step(&r, Event::Probed(Probe::Ready)), Action::ReadLinks);
    let hrefs = strings(&["https://x.org/a.pdf", "https://x.org/page", "https://x.org/b.pdf"]);
    assert_eq!(w.step(&r, Event::Links(hrefs)), Action::InspectNext);
    assert_eq!(w.step(&r, Event::Next(false)), Action::Finish);
    assert!(w.is_over());
    assert_eq!(w.phase, WalkPhase::Done);
    assert_eq!(w.links, strings(&["https://x.org/a.pdf", "https://x.org/b.pdf"]));
    assert_eq!(w.step(&r, Event::Next(true)), Action::Finish);
    assert_eq!(w.links.len(), 2);
}

#[test]
fn plain_walk_follows_next_pages() {
    let r = rules();
    let mut w = TargetWalk::new(Mode::WithoutExpansion, timing());
    w.step(&r, Event::Completed);
    w.step(&r, Event::Probed(Probe::Ready));
    w.step(&r, Event::Links(strings(&["p1.pdf"])));
    assert_eq!(w.step(&r, Event::Next(true)), Action::Advance { settle_ms: 2_000 });
    assert_eq!(w.step(&r, Event::Completed), Action::Check { watch: Watch::Cards, delay_ms: 15_000 });
    assert!(!w.first_page);
    assert_eq!(w.step(&r, Event::Probed(Probe::NotReady)), Action::Check { watch: Watch::Cards, delay_ms: 100 });
    assert_eq!(w.step(&r, Event::Probed(Probe::Ready)), Action::ReadLinks);
    w.step(&r, Event::Links(strings(&["p2.pdf", "p2.html"])));
    assert_eq!(w.step(&r, Event::Next(false)), Action::Finish);
    assert_eq!(w.links, strings(&["p1.pdf", "p2.pdf"]));
}

#[test]
fn navigation_failure_fails_target() {
    let mut w = TargetWalk::new(Mode::WithExpansion, timing());
    assert_eq!(w.step(&rules(), Event::Failed), Action::Finish);
    assert_eq!(w.phase, WalkPhase::Failed);
    assert!(w.links.is_empty());
}

#[test]
fn unreadable_first_page_fails_target() {
    let r = rules();
    let mut w = TargetWalk::new(Mode::WithoutExpansion, timing());
    w.step(&r, Event::Completed);
    w.step(&r, Event::Probed(Probe::Ready));
    assert_eq!(w.step(&r, Event::Failed), Action::Finish);
    assert_eq!(w.phase, WalkPhase::Failed);
}

#[test]
fn unreadable_later_page_keeps_collected_links() {
    let r = rules();
    let mut w = TargetWalk::new(Mode::WithoutExpansion, timing());
    w.step(&r, Event::Completed);
    w.step(&r, Event::Probed(Probe::Ready));
    w.step(&r, Event::Links(strings(&["p1.pdf"])));
    w.step(&r, Event::Next(true));
    w.step(&r, Event::Completed);
    w.step(&r, Event::Probed(Probe::Ready));
    assert_eq!(w.step(&r, Event::Failed), Action::Finish);
    assert_eq!(w.phase, WalkPhase::Done);
    assert_eq!(w.links, strings(&["p1.pdf"]));
}

#[test]
fn page_that_never_renders_is_empty() {
    let r = rules();
    let mut t = timing();
    t.cards = ReadyPolicy { timeout_ms: 200, interval_ms: 100 };
    let mut w = TargetWalk::new(Mode::WithoutExpansion, t);
    w.step(&r, Event::Completed);
    assert_eq!(w.step(&r, Event::Probed(Probe::NotReady)), Action::Check { watch: Watch::Cards, delay_ms: 100 });
    assert_eq!(w.step(&r, Event::Probed(Probe::Failed)), Action::Check { watch: Watch::Cards, delay_ms: 100 });
    assert_eq!(w.step(&r, Event::Probed(Probe::NotReady)), Action::InspectNext);
    assert_eq!(w.step(&r, Event::Next(false)), Action::Finish);
    assert_eq!(w.phase, WalkPhase::Done);
    assert!(w.links.is_empty());
}

#[test]
fn expansion_walk_engages_each_panel() {
    let r = rules();
    let mut w = TargetWalk::new(Mode::WithExpansion, timing());
    w.step(&r, Event::Completed);
    assert_eq!(w.step(&r, Event::Probed(Probe::Ready)), Action::ListControls);
    assert_eq!(w.step(&r, Event::Listed(2)), Action::Engage { index: 0, settle_ms: 2_000 });
    assert_eq!(w.step(&r, Event::Completed), Action::ReadLinks);
    assert_eq!(w.step(&r, Event::Links(strings(&["one.pdf"]))), Action::GoBack);
    assert_eq!(w.step(&r, Event::Completed), Action::Engage { index: 1, settle_ms: 2_000 });
    assert_eq!(w.step(&r, Event::Failed), Action::ReadLinks);
    assert_eq!(w.step(&r, Event::Failed), Action::Check { watch: Watch::Overlay, delay_ms: 0 });
    assert_eq!(w.step(&r, Event::Probed(Probe::NotReady)), Action::Check { watch: Watch::Overlay, delay_ms: 100 });
    assert_eq!(w.step(&r, Event::Probed(Probe::Ready)), Action::Engage { index: 1, settle_ms: 2_000 });
    assert_eq!(w.step(&r, Event::Completed), Action::InspectNext);
    assert_eq!(w.step(&r, Event::Next(false)), Action::Finish);
    assert_eq!(w.links, strings(&["one.pdf"]));
}

#[test]
fn expansion_walk_without_controls_reads_nothing() {
    let r = rules();
    let mut w = TargetWalk::new(Mode::WithExpansion, timing());
    w.step(&r, Event::Completed);
    w.step(&r, Event::Probed(Probe::Ready));
    assert_eq!(w.step(&r, Event::Listed(0)), Action::InspectNext);
}

#[test]
fn changelog_walk_keeps_storage_links() {
    let r = rules();
    let mut w = TargetWalk::new(Mode::ChangeLog(10), timing());
    assert_eq!(w.step(&r, Event::Completed), Action::Check { watch: Watch::ChangeList, delay_ms: 50 });
    assert_eq!(w.step(&r, Event::Probed(Probe::NotReady)), Action::Check { watch: Watch::ChangeList, delay_ms: 250 });
    assert_eq!(w.step(&r, Event::Probed(Probe::Ready)), Action::ReadLinks);
    let hrefs = strings(&["https://files.example.org/x.pdf", "https://other.org/y.pdf", "https://files.example.org/z.txt"]);
    assert_eq!(w.step(&r, Event::Links(hrefs)), Action::Finish);
    assert_eq!(w.phase, WalkPhase::Done);
    assert_eq!(w.links, strings(&["https://files.example.org/x.pdf"]));
}

#[test]
fn changelog_walk_gives_up_when_list_stays_empty() {
    let r = rules();
    let mut t = timing();
    t.changelog = ReadyPolicy { timeout_ms: 250, interval_ms: 250 };
    let mut w = TargetWalk::new(Mode::ChangeLog(11), t);
    w.step(&r, Event::Completed);
    assert_eq!(w.step(&r, Event::Probed(Probe::NotReady)), Action::Check { watch: Watch::ChangeList, delay_ms: 250 });
    assert_eq!(w.step(&r, Event::Probed(Probe::NotReady)), Action::Finish);
    assert_eq!(w.phase, WalkPhase::Done);
    assert!(w.links.is_empty());
}

fn catalog(urls: &[&str], mode: Mode) -> Vec<PageTarget> {
    urls.iter().map(|u| PageTarget { url: u.to_string(), mode }).collect()
}

/// Drives a plain page walk that reads `hrefs` and finds no next page.
fn plain_page(run: &mut StrategyRun, r: &LinkRules, target: usize, hrefs: &[&str]) -> Command {
    assert_eq!(
        run.step(r, Event::Completed),
        Command::Drive { target, action: Action::Check { watch: Watch::Cards, delay_ms: 15_000 } }
    );
    assert_eq!(run.step(r, Event::Probed(Probe::Ready)), Command::Drive { target, action: Action::ReadLinks });
    assert_eq!(run.step(r, Event::Links(strings(hrefs))), Command::Drive { target, action: Action::InspectNext });
    run.step(r, Event::Next(false))
}

#[test]
fn failing_target_is_skipped_and_counted() {
    let r = rules();
    let targets = catalog(&["t1", "t2", "t3"], Mode::WithoutExpansion);
    let mut run = StrategyRun::new(&targets, timing());
    assert_eq!(run.step(&r, Event::Completed), Command::Drive { target: 0, action: Action::Navigate });
    assert_eq!(plain_page(&mut run, &r, 0, &["one.pdf"]), Command::Drive { target: 1, action: Action::Navigate });
    assert_eq!(run.step(&r, Event::Failed), Command::Drive { target: 2, action: Action::Navigate });
    assert_eq!(plain_page(&mut run, &r, 2, &["three.pdf"]), Command::CloseSession);
    assert_eq!(run.step(&r, Event::Failed), Command::Finish);
    assert!(run.is_finished());
    assert_eq!(run.links, strings(&["one.pdf", "three.pdf"]));
    assert_eq!(run.failures, 1);
}

#[test]
fn session_that_cannot_open_yields_nothing() {
    let r = rules();
    let targets = catalog(&["t1"], Mode::WithoutExpansion);
    let mut run = StrategyRun::new(&targets, timing());
    assert_eq!(run.step(&r, Event::Failed), Command::Finish);
    assert!(run.is_finished());
    assert!(run.links.is_empty());
}

#[test]
fn deadline_keeps_partial_results() {
    let r = rules();
    let targets = catalog(&["t1", "t2"], Mode::WithoutExpansion);
    let mut run = StrategyRun::new(&targets, timing());
    run.step(&r, Event::Completed);
    run.step(&r, Event::Completed);
    run.step(&r, Event::Probed(Probe::Ready));
    run.step(&r, Event::Links(strings(&["early.pdf"])));
    assert_eq!(run.step(&r, Event::Expired), Command::CloseSession);
    assert_eq!(run.step(&r, Event::Completed), Command::Finish);
    assert_eq!(run.links, strings(&["early.pdf"]));
    assert_eq!(run.failures, 0);
}

#[test]
fn empty_target_list_closes_at_once() {
    let mut run = StrategyRun::new(&Vec::new(), timing());
    assert_eq!(run.step(&rules(), Event::Completed), Command::CloseSession);
}

/// Drives a changelog walk that reads `hrefs`, or that never sees the list
/// when `hrefs` is `None`.
fn changelog_page(run: &mut StrategyRun, r: &LinkRules, hrefs: Option<&[&str]>) -> Command {
    run.step(r, Event::Completed);
    match hrefs {
        Some(h) => {
            run.step(r, Event::Probed(Probe::Ready));
            run.step(r, Event::Links(strings(h)))
        }
        None => {
            let mut c = run.step(r, Event::Probed(Probe::NotReady));
            while let Command::Drive { action: Action::Check { .. }, .. } = c {
                c = run.step(r, Event::Probed(Probe::NotReady));
            }
            c
        }
    }
}

#[test]
fn end_to_end_changelog_and_catalog() {
    let r = LinkRules { suffix: ".pdf".to_string(), storage_host: String::new() };
    let changelog = vec![
        PageTarget { url: "changes/10".to_string(), mode: Mode::ChangeLog(10) },
        PageTarget { url: "changes/11".to_string(), mode: Mode::ChangeLog(11) },
    ];
    let mut first = StrategyRun::new(&changelog, timing());
    first.step(&r, Event::Completed);
    assert_eq!(changelog_page(&mut first, &r, Some(&["x_2024.pdf"])), Command::Drive { target: 1, action: Action::Navigate });
    assert_eq!(changelog_page(&mut first, &r, None), Command::CloseSession);
    first.step(&r, Event::Completed);

    let mut second = StrategyRun::new(&catalog(&["A"], Mode::WithoutExpansion), timing());
    second.step(&r, Event::Completed);
    assert_eq!(plain_page(&mut second, &r, 0, &["x_2024.pdf", "y_2023.pdf"]), Command::CloseSession);
    second.step(&r, Event::Completed);

    let out = finalize(&vec![first.links.clone(), second.links.clone()], &strings(&["2023"]));
    assert_eq!(out.list, strings(&["x_2024.pdf"]));
}
