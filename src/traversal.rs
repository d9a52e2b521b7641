//! The walk over one target page: navigate, wait for the content, read the
//! links (expanding each "future schedule" panel when asked to), then follow
//! the "next" control page after page until it is no longer actionable.
//!
//! The walk is a state machine. Each call of [`TargetWalk::step`] takes the
//! outcome of the action asked for last and returns the next action; the
//! caller performs it against the browser. The first action of a new walk is
//! [`Action::Navigate`].

use vstd::prelude::*;
use crate::poller::{poll_next, PollStep, Poller, Probe, ReadyPolicy};
use crate::text::{contains_seq, contains_text, ends_with_seq, ends_with_text};

verus! {

/// How a target page is traversed.
#[derive(Clone, Copy, PartialEq, Eq, Structural, Debug)]
pub enum Mode {
    /// Catalog page; every expansion panel of every page is opened.
    WithExpansion,
    /// Catalog page; only the links shown by default are read.
    WithoutExpansion,
    /// Changelog page with the given id: one page, storage-host links only.
    ChangeLog(i32),
}

/// A page to traverse.
pub struct PageTarget {
    pub url: String,
    pub mode: Mode,
}

/// Which readiness condition a check tests.
#[derive(Clone, Copy, PartialEq, Eq, Structural, Debug)]
pub enum Watch {
    /// The catalog cards have rendered.
    Cards,
    /// The transient overlay of an opened panel is shown.
    Overlay,
    /// The changelog list is populated.
    ChangeList,
}

/// Settle times and readiness policies of a walk.
#[derive(Clone, Copy, PartialEq, Eq, Structural, Debug)]
pub struct Timing {
    /// Minimum wait before the first readiness check of a catalog page.
    pub page_settle_ms: u64,
    /// Wait after engaging a panel control.
    pub engage_settle_ms: u64,
    /// Wait after engaging the "next" control.
    pub advance_settle_ms: u64,
    /// Minimum wait before the first readiness check of a changelog page.
    pub changelog_settle_ms: u64,
    pub cards: ReadyPolicy,
    pub overlay: ReadyPolicy,
    pub changelog: ReadyPolicy,
}

impl Timing {
    pub open spec fn wf(self) -> bool {
        self.cards.wf() && self.overlay.wf() && self.changelog.wf()
    }

    pub fn is_valid(&self) -> (r: bool)
        ensures
            r == self.wf(),
    {
        self.cards.is_valid() && self.overlay.is_valid() && self.changelog.is_valid()
    }
}

/// What makes an anchor's target a document link.
pub struct LinkRules {
    /// The suffix of every document link.
    pub suffix: String,
    /// What a changelog document link must contain.
    pub storage_host: String,
}

pub struct LinkRulesView {
    pub suffix: Seq<char>,
    pub storage_host: Seq<char>,
}

impl View for LinkRules {
    type V = LinkRulesView;

    open spec fn view(&self) -> LinkRulesView {
        LinkRulesView { suffix: self.suffix@, storage_host: self.storage_host@ }
    }
}

/// What the walk asks the caller to do next.
#[derive(Clone, Copy, PartialEq, Eq, Structural, Debug)]
pub enum Action {
    /// Navigate to the target's URL.
    Navigate,
    /// Wait `delay_ms`, then evaluate the readiness condition `watch`.
    Check { watch: Watch, delay_ms: u64 },
    /// Take a snapshot of the expansion controls present now.
    ListControls,
    /// Engage control `index` of the last snapshot, then wait `settle_ms`.
    Engage { index: usize, settle_ms: u64 },
    /// Read the target of every anchor present now.
    ReadLinks,
    /// Return to the page's prior render.
    GoBack,
    /// Tell whether the "next" control exists, is visible and is enabled.
    InspectNext,
    /// Engage the "next" control, then wait `settle_ms`.
    Advance { settle_ms: u64 },
    /// The walk is over.
    Finish,
}

/// What the caller reports after performing an action.
pub enum Event {
    /// The action was performed.
    Completed,
    /// The action failed.
    Failed,
    /// The readiness condition was evaluated.
    Probed(Probe),
    /// The snapshot holds this many expansion controls.
    Listed(usize),
    /// The anchor targets that could be read.
    Links(Vec<String>),
    /// Whether the "next" control is actionable.
    Next(bool),
    /// The overall deadline of the run has passed.
    Expired,
}

pub enum EventView {
    Completed,
    Failed,
    Probed(Probe),
    Listed(usize),
    Links(Seq<Seq<char>>),
    Next(bool),
    Expired,
}

impl View for Event {
    type V = EventView;

    open spec fn view(&self) -> EventView {
        match self {
            Event::Completed => EventView::Completed,
            Event::Failed => EventView::Failed,
            Event::Probed(p) => EventView::Probed(*p),
            Event::Listed(n) => EventView::Listed(*n),
            Event::Links(v) => EventView::Links(v.deep_view()),
            Event::Next(b) => EventView::Next(*b),
            Event::Expired => EventView::Expired,
        }
    }
}

/// Where a walk stands: the reply to which action it is waiting for.
#[derive(Clone, Copy, PartialEq, Eq, Structural, Debug)]
pub enum WalkPhase {
    Navigating,
    AwaitCards(Poller),
    ReadingPage,
    Listing,
    /// The control at the first index, of a snapshot of as many controls as
    /// the second, was engaged.
    Engaged(usize, usize),
    ReadingPanel(usize, usize),
    AwaitOverlay(usize, usize, Poller),
    Dismissing,
    Returning(usize, usize),
    Inspecting,
    Advancing,
    AwaitList(Poller),
    ReadingList,
    /// The walk ended; its links are its result.
    Done,
    /// The target could not be traversed; it contributes nothing.
    Failed,
}

/// The walk over one target.
pub struct TargetWalk {
    pub mode: Mode,
    pub timing: Timing,
    pub phase: WalkPhase,
    /// No "next" control has been followed yet.
    pub first_page: bool,
    /// The document links read so far, in the order read.
    pub links: Vec<String>,
}

pub struct WalkView {
    pub mode: Mode,
    pub timing: Timing,
    pub phase: WalkPhase,
    pub first_page: bool,
    pub links: Seq<Seq<char>>,
}

impl View for TargetWalk {
    type V = WalkView;

    open spec fn view(&self) -> WalkView {
        WalkView {
            mode: self.mode,
            timing: self.timing,
            phase: self.phase,
            first_page: self.first_page,
            links: self.links.deep_view(),
        }
    }
}

/// An anchor target is kept: it ends with the document suffix and, on a
/// changelog page, contains the storage host.
pub open spec fn is_document(h: Seq<char>, rules: LinkRulesView, mode: Mode) -> bool {
    ends_with_seq(h, rules.suffix) && (mode is ChangeLog ==> contains_seq(h, rules.storage_host))
}

pub open spec fn document_filter(rules: LinkRulesView, mode: Mode) -> spec_fn(Seq<char>) -> bool {
    |h: Seq<char>| is_document(h, rules, mode)
}

/// The document links among `hrefs`, in their order.
pub open spec fn documents(hrefs: Seq<Seq<char>>, rules: LinkRulesView, mode: Mode) -> Seq<Seq<char>> {
    hrefs.filter(document_filter(rules, mode))
}

/// A readiness report; any other reply counts as a failed evaluation.
pub open spec fn probe_of(ev: EventView) -> Probe {
    match ev {
        EventView::Probed(p) => p,
        _ => Probe::Failed,
    }
}

pub open spec fn with_phase(w: WalkView, phase: WalkPhase) -> WalkView {
    WalkView { phase, ..w }
}

pub open spec fn with_read(w: WalkView, ev: EventView, rules: LinkRulesView) -> WalkView {
    match ev {
        EventView::Links(h) => WalkView { links: w.links + documents(h, rules, w.mode), ..w },
        _ => w,
    }
}

/// A page has been read: look for the "next" control.
pub open spec fn page_done(w: WalkView) -> (WalkView, Action) {
    (with_phase(w, WalkPhase::Inspecting), Action::InspectNext)
}

/// A page could not be read: the target fails if it is the first page, and
/// otherwise the walk ends with what it has.
pub open spec fn page_failed(w: WalkView) -> (WalkView, Action) {
    if w.first_page {
        (with_phase(w, WalkPhase::Failed), Action::Finish)
    } else {
        (with_phase(w, WalkPhase::Done), Action::Finish)
    }
}

pub open spec fn walk_start(mode: Mode, timing: Timing) -> WalkView {
    WalkView { mode, timing, phase: WalkPhase::Navigating, first_page: true, links: Seq::empty() }
}

/// The transition of a walk: its next state and action, given the reply to
/// its last action.
pub open spec fn walk_next(w: WalkView, rules: LinkRulesView, ev: EventView) -> (WalkView, Action) {
    let t = w.timing;
    match w.phase {
        WalkPhase::Navigating => {
            if ev is Completed {
                if w.mode is ChangeLog {
                    (
                        with_phase(w, WalkPhase::AwaitList(Poller::start(t.changelog))),
                        Action::Check { watch: Watch::ChangeList, delay_ms: t.changelog_settle_ms },
                    )
                } else {
                    (
                        with_phase(w, WalkPhase::AwaitCards(Poller::start(t.cards))),
                        Action::Check { watch: Watch::Cards, delay_ms: t.page_settle_ms },
                    )
                }
            } else {
                (with_phase(w, WalkPhase::Failed), Action::Finish)
            }
        },
        WalkPhase::AwaitCards(p) => {
            let (q, step) = poll_next(p, probe_of(ev));
            match step {
                PollStep::Satisfied => {
                    if w.mode is WithExpansion {
                        (with_phase(w, WalkPhase::Listing), Action::ListControls)
                    } else {
                        (with_phase(w, WalkPhase::ReadingPage), Action::ReadLinks)
                    }
                },
                PollStep::TimedOut => page_done(w),
                PollStep::Sleep(ms) => (
                    with_phase(w, WalkPhase::AwaitCards(q)),
                    Action::Check { watch: Watch::Cards, delay_ms: ms },
                ),
            }
        },
        WalkPhase::ReadingPage => {
            if ev is Links {
                page_done(with_read(w, ev, rules))
            } else {
                page_failed(w)
            }
        },
        WalkPhase::Listing => {
            match ev {
                EventView::Listed(n) => {
                    if n == 0 {
                        page_done(w)
                    } else {
                        (
                            with_phase(w, WalkPhase::Engaged(0, n)),
                            Action::Engage { index: 0, settle_ms: t.engage_settle_ms },
                        )
                    }
                },
                _ => page_failed(w),
            }
        },
        WalkPhase::Engaged(i, n) => (with_phase(w, WalkPhase::ReadingPanel(i, n)), Action::ReadLinks),
        WalkPhase::ReadingPanel(i, n) => {
            let r = with_read(w, ev, rules);
            if i + 1 == n {
                (
                    with_phase(r, WalkPhase::AwaitOverlay(i, n, Poller::start(t.overlay))),
                    Action::Check { watch: Watch::Overlay, delay_ms: 0 },
                )
            } else {
                (with_phase(r, WalkPhase::Returning(i, n)), Action::GoBack)
            }
        },
        WalkPhase::AwaitOverlay(i, n, p) => {
            let (q, step) = poll_next(p, probe_of(ev));
            match step {
                PollStep::Sleep(ms) => (
                    with_phase(w, WalkPhase::AwaitOverlay(i, n, q)),
                    Action::Check { watch: Watch::Overlay, delay_ms: ms },
                ),
                _ => (
                    with_phase(w, WalkPhase::Dismissing),
                    Action::Engage { index: i, settle_ms: t.engage_settle_ms },
                ),
            }
        },
        WalkPhase::Dismissing => page_done(w),
        WalkPhase::Returning(i, n) => (
            with_phase(w, WalkPhase::Engaged((i + 1) as usize, n)),
            Action::Engage { index: (i + 1) as usize, settle_ms: t.engage_settle_ms },
        ),
        WalkPhase::Inspecting => {
            if ev == EventView::Next(true) {
                (with_phase(w, WalkPhase::Advancing), Action::Advance { settle_ms: t.advance_settle_ms })
            } else {
                (with_phase(w, WalkPhase::Done), Action::Finish)
            }
        },
        WalkPhase::Advancing => {
            if ev is Completed {
                (
                    WalkView {
                        phase: WalkPhase::AwaitCards(Poller::start(t.cards)),
                        first_page: false,
                        ..w
                    },
                    Action::Check { watch: Watch::Cards, delay_ms: t.page_settle_ms },
                )
            } else {
                (with_phase(w, WalkPhase::Done), Action::Finish)
            }
        },
        WalkPhase::AwaitList(p) => {
            let (q, step) = poll_next(p, probe_of(ev));
            match step {
                PollStep::Satisfied => (with_phase(w, WalkPhase::ReadingList), Action::ReadLinks),
                PollStep::TimedOut => (with_phase(w, WalkPhase::Done), Action::Finish),
                PollStep::Sleep(ms) => (
                    with_phase(w, WalkPhase::AwaitList(q)),
                    Action::Check { watch: Watch::ChangeList, delay_ms: ms },
                ),
            }
        },
        WalkPhase::ReadingList => (with_phase(with_read(w, ev, rules), WalkPhase::Done), Action::Finish),
        WalkPhase::Done => (w, Action::Finish),
        WalkPhase::Failed => (w, Action::Finish),
    }
}

/// The walk is over.
pub open spec fn walk_over(w: WalkView) -> bool {
    w.phase is Done || w.phase is Failed
}

/// Every poller runs under the policy of its condition, and every panel
/// index lies within its snapshot.
pub open spec fn walk_wf(w: WalkView) -> bool {
    &&& w.timing.wf()
    &&& match w.phase {
        WalkPhase::AwaitCards(p) => p.wf() && p.policy == w.timing.cards,
        WalkPhase::Engaged(i, n) => i < n,
        WalkPhase::ReadingPanel(i, n) => i < n,
        WalkPhase::AwaitOverlay(i, n, p) => i < n && p.wf() && p.policy == w.timing.overlay,
        WalkPhase::Returning(i, n) => i + 1 < n,
        WalkPhase::AwaitList(p) => p.wf() && p.policy == w.timing.changelog,
        _ => true,
    }
}

/// Feeds the replies `evs` to the walk, one after the other.
pub open spec fn walk_run(w: WalkView, rules: LinkRulesView, evs: Seq<EventView>) -> WalkView
    decreases evs.len(),
{
    if evs.len() == 0 {
        w
    } else {
        walk_run(walk_next(w, rules, evs[0]).0, rules, evs.drop_first())
    }
}

/// A walk that is over stays over, with its links, whatever it is told.
pub proof fn lemma_walk_over_is_final(w: WalkView, rules: LinkRulesView, evs: Seq<EventView>)
    requires
        walk_over(w),
    ensures
        walk_run(w, rules, evs) == w,
    decreases evs.len(),
{
    if evs.len() > 0 {
        lemma_walk_over_is_final(w, rules, evs.drop_first());
    }
}

/// Termination of the pagination: once the "next" control is reported not
/// actionable, the walk is over and returns exactly the links collected up
/// to that check; on the first check, those of the first page alone.
pub proof fn lemma_inert_next_ends_walk(w: WalkView, rules: LinkRulesView, rest: Seq<EventView>)
    requires
        w.phase is Inspecting,
    ensures
        walk_run(w, rules, seq![EventView::Next(false)] + rest).phase is Done,
        walk_run(w, rules, seq![EventView::Next(false)] + rest).links == w.links,
{
    let evs = seq![EventView::Next(false)] + rest;
    let d = walk_next(w, rules, evs[0]).0;
    assert(evs.drop_first() =~= rest);
    lemma_walk_over_is_final(d, rules, rest);
}

/// Termination on the first check, from a fresh walk without expansion:
/// when the first page renders, is read as `hrefs`, and the "next" control
/// is then reported not actionable, the walk is over with exactly the
/// document links of `hrefs`, whatever follows.
pub proof fn lemma_single_page_walk(
    timing: Timing,
    rules: LinkRulesView,
    hrefs: Seq<Seq<char>>,
    rest: Seq<EventView>,
)
    requires
        timing.wf(),
    ensures
        ({
            let evs = seq![
                EventView::Completed,
                EventView::Probed(Probe::Ready),
                EventView::Links(hrefs),
                EventView::Next(false),
            ] + rest;
            let end = walk_run(walk_start(Mode::WithoutExpansion, timing), rules, evs);
            end.phase is Done && end.links == documents(hrefs, rules, Mode::WithoutExpansion)
        }),
{
    let evs = seq![
        EventView::Completed,
        EventView::Probed(Probe::Ready),
        EventView::Links(hrefs),
        EventView::Next(false),
    ] + rest;
    let w0 = walk_start(Mode::WithoutExpansion, timing);
    let w1 = walk_next(w0, rules, evs[0]).0;
    let w2 = walk_next(w1, rules, evs[1]).0;
    let w3 = walk_next(w2, rules, evs[2]).0;
    let tail = seq![EventView::Next(false)] + rest;
    assert(evs.drop_first().drop_first().drop_first() =~= tail);
    assert(evs.drop_first()[0] == evs[1]);
    assert(evs.drop_first().drop_first()[0] == evs[2]);
    assert(w3.links =~= documents(hrefs, rules, Mode::WithoutExpansion));
    lemma_inert_next_ends_walk(w3, rules, rest);
    assert(walk_run(w0, rules, evs) == walk_run(w1, rules, evs.drop_first()));
    assert(walk_run(w1, rules, evs.drop_first()) == walk_run(w2, rules, evs.drop_first().drop_first()));
    assert(walk_run(w2, rules, evs.drop_first().drop_first()) == walk_run(w3, rules, tail));
}

/// Whether `h` is a document link under `rules` for a page of mode `mode`.
pub fn is_document_link(h: &String, rules: &LinkRules, mode: Mode) -> (r: bool)
    ensures
        r == is_document(h@, rules@, mode),
{
    if !ends_with_text(h.as_str(), rules.suffix.as_str()) {
        return false;
    }
    match mode {
        Mode::ChangeLog(_) => contains_text(h.as_str(), rules.storage_host.as_str()),
        _ => true,
    }
}

/// The document links among `hrefs`, in their order.
pub fn select_documents(hrefs: &Vec<String>, rules: &LinkRules, mode: Mode) -> (r: Vec<String>)
    ensures
        r.deep_view() == documents(hrefs.deep_view(), rules@, mode),
{
    let ghost f = document_filter(rules@, mode);
    let mut r: Vec<String> = Vec::new();
    let mut i: usize = 0;
    assert(hrefs.deep_view().subrange(0, 0).filter(f) =~= Seq::<Seq<char>>::empty());
    while i < hrefs.len()
        invariant
            i <= hrefs.len(),
            f == document_filter(rules@, mode),
            r.deep_view() == hrefs.deep_view().subrange(0, i as int).filter(f),
        decreases hrefs.len() - i,
    {
        let ghost before = r.deep_view();
        if is_document_link(&hrefs[i], rules, mode) {
            r.push(hrefs[i].clone());
            assert(r.deep_view() =~= before.push(hrefs.deep_view()[i as int]));
        }
        proof {
            let l = hrefs.deep_view();
            assert(l.subrange(0, i + 1) =~= l.subrange(0, i as int).push(l[i as int]));
            l.subrange(0, i as int).lemma_filter_push(l[i as int], f);
        }
        i = i + 1;
    }
    assert(hrefs.deep_view().subrange(0, hrefs.len() as int) =~= hrefs.deep_view());
    r
}

/// The outcome of a readiness check that counts matching elements: ready
/// when at least one is present; `None` stands for a failed lookup.
pub fn probe_from_count(count: Option<usize>) -> (r: Probe)
    ensures
        r == (match count {
            Some(n) => if n > 0 {
                Probe::Ready
            } else {
                Probe::NotReady
            },
            None => Probe::Failed,
        }),
{
    match count {
        Some(n) => if n > 0 {
            Probe::Ready
        } else {
            Probe::NotReady
        },
        None => Probe::Failed,
    }
}

/// The reply to [`Action::InspectNext`]: the "next" control is actionable
/// only when it was found and reported both visible and enabled; `None`
/// stands for a control not found or a query that failed.
pub fn next_control_state(displayed: Option<bool>, enabled: Option<bool>) -> (r: Event)
    ensures
        r@ == EventView::Next(displayed == Some(true) && enabled == Some(true)),
{
    let visible = match displayed {
        Some(b) => b,
        None => false,
    };
    let usable = match enabled {
        Some(b) => b,
        None => false,
    };
    Event::Next(visible && usable)
}

impl TargetWalk {
    pub open spec fn wf(&self) -> bool {
        walk_wf(self@)
    }

    /// A walk at its start; its first action is [`Action::Navigate`].
    pub fn new(mode: Mode, timing: Timing) -> (r: TargetWalk)
        requires
            timing.wf(),
        ensures
            r@ == walk_start(mode, timing),
            r.wf(),
    {
        let r = TargetWalk { mode, timing, phase: WalkPhase::Navigating, first_page: true, links: Vec::new() };
        assert(r@.links =~= Seq::<Seq<char>>::empty());
        r
    }

    /// Whether the walk is over.
    pub fn is_over(&self) -> (r: bool)
        ensures
            r == walk_over(self@),
    {
        match self.phase {
            WalkPhase::Done | WalkPhase::Failed => true,
            _ => false,
        }
    }

    /// Adds the document links among `hrefs` to the links read so far.
    fn read(&mut self, rules: &LinkRules, hrefs: &Vec<String>)
        ensures
            final(self)@ == (WalkView { links: old(self)@.links + documents(hrefs.deep_view(), rules@, old(self).mode), ..old(self)@ }),
    {
        let mut docs = select_documents(hrefs, rules, self.mode);
        let ghost before = self.links.deep_view();
        let ghost added = docs.deep_view();
        self.links.append(&mut docs);
        assert(self.links.deep_view() =~= before + added);
    }

    /// Takes the reply to the last action and returns the next action.
    pub fn step(&mut self, rules: &LinkRules, ev: Event) -> (r: Action)
        requires
            old(self).wf(),
        ensures
            (final(self)@, r) == walk_next(old(self)@, rules@, ev@),
            final(self).wf(),
    {
        let t = self.timing;
        let ghost ev_view = ev@;
        match self.phase {
            WalkPhase::Navigating => {
                if let Event::Completed = ev {
                    match self.mode {
                        Mode::ChangeLog(_) => {
                            self.phase = WalkPhase::AwaitList(Poller::new(t.changelog));
                            Action::Check { watch: Watch::ChangeList, delay_ms: t.changelog_settle_ms }
                        },
                        _ => {
                            self.phase = WalkPhase::AwaitCards(Poller::new(t.cards));
                            Action::Check { watch: Watch::Cards, delay_ms: t.page_settle_ms }
                        },
                    }
                } else {
                    self.phase = WalkPhase::Failed;
                    Action::Finish
                }
            },
            WalkPhase::AwaitCards(p) => {
                let mut q = p;
                let probe = match ev {
                    Event::Probed(x) => x,
                    _ => Probe::Failed,
                };
                match q.observe(probe) {
                    PollStep::Satisfied => {
                        match self.mode {
                            Mode::WithExpansion => {
                                self.phase = WalkPhase::Listing;
                                Action::ListControls
                            },
                            _ => {
                                self.phase = WalkPhase::ReadingPage;
                                Action::ReadLinks
                            },
                        }
                    },
                    PollStep::TimedOut => {
                        self.phase = WalkPhase::Inspecting;
                        Action::InspectNext
                    },
                    PollStep::Sleep(ms) => {
                        self.phase = WalkPhase::AwaitCards(q);
                        Action::Check { watch: Watch::Cards, delay_ms: ms }
                    },
                }
            },
            WalkPhase::ReadingPage => {
                match ev {
                    Event::Links(h) => {
                        self.read(rules, &h);
                        self.phase = WalkPhase::Inspecting;
                        Action::InspectNext
                    },
                    _ => self.fail_page(),
                }
            },
            WalkPhase::Listing => {
                match ev {
                    Event::Listed(n) => {
                        if n == 0 {
                            self.phase = WalkPhase::Inspecting;
                            Action::InspectNext
                        } else {
                            self.phase = WalkPhase::Engaged(0, n);
                            Action::Engage { index: 0, settle_ms: t.engage_settle_ms }
                        }
                    },
                    _ => self.fail_page(),
                }
            },
            WalkPhase::Engaged(i, n) => {
                self.phase = WalkPhase::ReadingPanel(i, n);
                Action::ReadLinks
            },
            WalkPhase::ReadingPanel(i, n) => {
                if let Event::Links(h) = ev {
                    self.read(rules, &h);
                }
                if i + 1 == n {
                    self.phase = WalkPhase::AwaitOverlay(i, n, Poller::new(t.overlay));
                    Action::Check { watch: Watch::Overlay, delay_ms: 0 }
                } else {
                    self.phase = WalkPhase::Returning(i, n);
                    Action::GoBack
                }
            },
            WalkPhase::AwaitOverlay(i, n, p) => {
                let mut q = p;
                let probe = match ev {
                    Event::Probed(x) => x,
                    _ => Probe::Failed,
                };
                match q.observe(probe) {
                    PollStep::Sleep(ms) => {
                        self.phase = WalkPhase::AwaitOverlay(i, n, q);
                        Action::Check { watch: Watch::Overlay, delay_ms: ms }
                    },
                    _ => {
                        self.phase = WalkPhase::Dismissing;
                        Action::Engage { index: i, settle_ms: t.engage_settle_ms }
                    },
                }
            },
            WalkPhase::Dismissing => {
                self.phase = WalkPhase::Inspecting;
                Action::InspectNext
            },
            WalkPhase::Returning(i, n) => {
                self.phase = WalkPhase::Engaged(i + 1, n);
                Action::Engage { index: i + 1, settle_ms: t.engage_settle_ms }
            },
            WalkPhase::Inspecting => {
                if let Event::Next(true) = ev {
                    self.phase = WalkPhase::Advancing;
                    Action::Advance { settle_ms: t.advance_settle_ms }
                } else {
                    self.phase = WalkPhase::Done;
                    Action::Finish
                }
            },
            WalkPhase::Advancing => {
                if let Event::Completed = ev {
                    self.phase = WalkPhase::AwaitCards(Poller::new(t.cards));
                    self.first_page = false;
                    Action::Check { watch: Watch::Cards, delay_ms: t.page_settle_ms }
                } else {
                    self.phase = WalkPhase::Done;
                    Action::Finish
                }
            },
            WalkPhase::AwaitList(p) => {
                let mut q = p;
                let probe = match ev {
                    Event::Probed(x) => x,
                    _ => Probe::Failed,
                };
                match q.observe(probe) {
                    PollStep::Satisfied => {
                        self.phase = WalkPhase::ReadingList;
                        Action::ReadLinks
                    },
                    PollStep::TimedOut => {
                        self.phase = WalkPhase::Done;
                        Action::Finish
                    },
                    PollStep::Sleep(ms) => {
                        self.phase = WalkPhase::AwaitList(q);
                        Action::Check { watch: Watch::ChangeList, delay_ms: ms }
                    },
                }
            },
            WalkPhase::ReadingList => {
                if let Event::Links(h) = ev {
                    self.read(rules, &h);
                }
                self.phase = WalkPhase::Done;
                Action::Finish
            },
            WalkPhase::Done | WalkPhase::Failed => Action::Finish,
        }
    }

    fn fail_page(&mut self) -> (r: Action)
        ensures
            (final(self)@, r) == page_failed(old(self)@),
    {
        if self.first_page {
            self.phase = WalkPhase::Failed;
        } else {
            self.phase = WalkPhase::Done;
        }
        Action::Finish
    }
}

} // verus!
