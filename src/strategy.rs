//! One traversal strategy: a browser session that walks a list of targets in
//! order. A target that fails contributes nothing and is counted; the
//! strategy goes on with the next one. The session is opened first and
//! closed last, also when the overall deadline cuts the run short.
//!
//! Like the walk, the strategy is a state machine driven by the caller: the
//! first command of a new run is [`Command::OpenSession`], and each call of
//! [`StrategyRun::step`] takes the reply to the last command.

use vstd::prelude::*;
use crate::traversal::{
    walk_next, walk_start, walk_wf, Action, Event, EventView, LinkRules, LinkRulesView, Mode,
    PageTarget, TargetWalk, Timing, WalkPhase, WalkView,
};

verus! {

/// What the strategy asks the caller to do next.
#[derive(Clone, Copy, PartialEq, Eq, Structural, Debug)]
pub enum Command {
    /// Open the browser session.
    OpenSession,
    /// Perform `action` of the walk over target `target`.
    Drive { target: usize, action: Action },
    /// Close the browser session; a failure to close is only reported.
    CloseSession,
    /// The strategy is over.
    Finish,
}

#[derive(Clone, Copy, PartialEq, Eq, Structural, Debug)]
pub enum RunPhase {
    Opening,
    /// Walking the target with this index.
    Walking(usize),
    Closing,
    Finished,
}

/// A strategy run in progress.
pub struct StrategyRun {
    /// The mode of each target, in order.
    pub modes: Vec<Mode>,
    pub timing: Timing,
    pub phase: RunPhase,
    /// The walk over the current target.
    pub walk: TargetWalk,
    /// The links of the targets walked so far, target after target.
    pub links: Vec<String>,
    /// How many targets failed.
    pub failures: usize,
}

pub struct RunView {
    pub modes: Seq<Mode>,
    pub timing: Timing,
    pub phase: RunPhase,
    pub walk: WalkView,
    pub links: Seq<Seq<char>>,
    pub failures: nat,
}

impl View for StrategyRun {
    type V = RunView;

    open spec fn view(&self) -> RunView {
        RunView {
            modes: self.modes@,
            timing: self.timing,
            phase: self.phase,
            walk: self.walk@,
            links: self.links.deep_view(),
            failures: self.failures as nat,
        }
    }
}

pub open spec fn run_start(modes: Seq<Mode>, timing: Timing) -> RunView {
    RunView {
        modes,
        timing,
        phase: RunPhase::Opening,
        walk: walk_start(Mode::WithoutExpansion, timing),
        links: Seq::empty(),
        failures: 0,
    }
}

/// Starts the walk over target `k`, or closes the session after the last.
pub open spec fn begin_target(r: RunView, k: int) -> (RunView, Command) {
    if k < r.modes.len() {
        (
            RunView {
                phase: RunPhase::Walking(k as usize),
                walk: walk_start(r.modes[k], r.timing),
                ..r
            },
            Command::Drive { target: k as usize, action: Action::Navigate },
        )
    } else {
        (RunView { phase: RunPhase::Closing, ..r }, Command::CloseSession)
    }
}

/// The transition of a strategy run.
pub open spec fn run_next(r: RunView, rules: LinkRulesView, ev: EventView) -> (RunView, Command) {
    match r.phase {
        RunPhase::Opening => {
            if ev is Completed {
                begin_target(r, 0)
            } else {
                (RunView { phase: RunPhase::Finished, ..r }, Command::Finish)
            }
        },
        RunPhase::Walking(k) => {
            if ev is Expired {
                (
                    RunView { phase: RunPhase::Closing, links: r.links + r.walk.links, ..r },
                    Command::CloseSession,
                )
            } else {
                let (w, a) = walk_next(r.walk, rules, ev);
                if w.phase is Done {
                    begin_target(RunView { walk: w, links: r.links + w.links, ..r }, k + 1)
                } else if w.phase is Failed {
                    begin_target(RunView { walk: w, failures: r.failures + 1, ..r }, k + 1)
                } else {
                    (RunView { walk: w, ..r }, Command::Drive { target: k, action: a })
                }
            }
        },
        RunPhase::Closing => (RunView { phase: RunPhase::Finished, ..r }, Command::Finish),
        RunPhase::Finished => (r, Command::Finish),
    }
}

/// Partial-failure tolerance: a target whose navigation fails contributes
/// nothing, is counted once, and the run goes on with the next target (or
/// closes the session after the last), keeping the links collected so far.
pub proof fn lemma_failed_target_is_skipped(r: RunView, rules: LinkRulesView, k: usize)
    requires
        r.phase == RunPhase::Walking(k),
        r.walk.phase is Navigating,
    ensures
        ({
            let (s, c) = run_next(r, rules, EventView::Failed);
            &&& s.links == r.links
            &&& s.failures == r.failures + 1
            &&& c == if k + 1 < r.modes.len() {
                Command::Drive { target: (k + 1) as usize, action: Action::Navigate }
            } else {
                Command::CloseSession
            }
        }),
{
}

/// The walk runs under the strategy's timing, the index of the current
/// target is in range, and no more targets failed than were walked.
pub open spec fn run_wf(r: RunView) -> bool {
    &&& r.timing.wf()
    &&& walk_wf(r.walk)
    &&& r.walk.timing == r.timing
    &&& r.failures <= r.modes.len()
    &&& match r.phase {
        RunPhase::Opening => r.failures == 0,
        RunPhase::Walking(k) => k < r.modes.len() && r.failures <= k && !(r.walk.phase is Done)
            && !(r.walk.phase is Failed),
        _ => true,
    }
}

/// Appends copies of the links of `src` to `dst`.
fn extend_links(dst: &mut Vec<String>, src: &Vec<String>)
    ensures
        final(dst).deep_view() == old(dst).deep_view() + src.deep_view(),
{
    let ghost start = dst.deep_view();
    let mut i: usize = 0;
    while i < src.len()
        invariant
            i <= src.len(),
            dst.deep_view() == start + src.deep_view().subrange(0, i as int),
        decreases src.len() - i,
    {
        let ghost before = dst.deep_view();
        dst.push(src[i].clone());
        assert(dst.deep_view() =~= before.push(src.deep_view()[i as int]));
        assert(src.deep_view().subrange(0, i + 1) =~= src.deep_view().subrange(0, i as int).push(
            src.deep_view()[i as int],
        ));
        assert(dst.deep_view() =~= start + src.deep_view().subrange(0, i + 1));
        i = i + 1;
    }
    assert(src.deep_view().subrange(0, src.len() as int) =~= src.deep_view());
}

impl StrategyRun {
    pub open spec fn wf(&self) -> bool {
        run_wf(self@)
    }

    /// A run over `targets`; its first command is [`Command::OpenSession`].
    pub fn new(targets: &Vec<PageTarget>, timing: Timing) -> (r: StrategyRun)
        requires
            timing.wf(),
        ensures
            r@ == run_start(Seq::new(targets@.len(), |i: int| targets@[i].mode), timing),
            r.wf(),
    {
        let mut modes: Vec<Mode> = Vec::new();
        let mut i: usize = 0;
        while i < targets.len()
            invariant
                i <= targets.len(),
                modes@ == Seq::new(i as nat, |j: int| targets@[j].mode),
            decreases targets.len() - i,
        {
            modes.push(targets[i].mode);
            assert(modes@ =~= Seq::new((i + 1) as nat, |j: int| targets@[j].mode));
            i = i + 1;
        }
        let r = StrategyRun {
            modes,
            timing,
            phase: RunPhase::Opening,
            walk: TargetWalk::new(Mode::WithoutExpansion, timing),
            links: Vec::new(),
            failures: 0,
        };
        assert(r@.links =~= Seq::<Seq<char>>::empty());
        assert(r@ == run_start(Seq::new(targets@.len(), |i: int| targets@[i].mode), timing));
        r
    }

    /// Whether the run is over.
    pub fn is_finished(&self) -> (r: bool)
        ensures
            r == (self.phase is Finished),
    {
        match self.phase {
            RunPhase::Finished => true,
            _ => false,
        }
    }

    fn begin(&mut self, k: usize) -> (c: Command)
        requires
            old(self).timing.wf(),
            walk_wf(old(self).walk@),
            old(self).walk.timing == old(self).timing,
            old(self).failures <= old(self).modes.len(),
            k <= old(self).modes.len(),
            old(self).failures <= k,
        ensures
            (final(self)@, c) == begin_target(old(self)@, k as int),
            final(self).wf(),
    {
        if k < self.modes.len() {
            self.phase = RunPhase::Walking(k);
            self.walk = TargetWalk::new(self.modes[k], self.timing);
            Command::Drive { target: k, action: Action::Navigate }
        } else {
            self.phase = RunPhase::Closing;
            Command::CloseSession
        }
    }

    /// Takes the reply to the last command and returns the next command.
    pub fn step(&mut self, rules: &LinkRules, ev: Event) -> (c: Command)
        requires
            old(self).wf(),
        ensures
            (final(self)@, c) == run_next(old(self)@, rules@, ev@),
            final(self).wf(),
    {
        match self.phase {
            RunPhase::Opening => {
                if let Event::Completed = ev {
                    self.begin(0)
                } else {
                    self.phase = RunPhase::Finished;
                    Command::Finish
                }
            },
            RunPhase::Walking(k) => {
                if let Event::Expired = ev {
                    extend_links(&mut self.links, &self.walk.links);
                    self.phase = RunPhase::Closing;
                    return Command::CloseSession;
                }
                let n = self.modes.len();
                let a = self.walk.step(rules, ev);
                match self.walk.phase {
                    WalkPhase::Done => {
                        extend_links(&mut self.links, &self.walk.links);
                        self.begin(k + 1)
                    },
                    WalkPhase::Failed => {
                        self.failures = self.failures + 1;
                        self.begin(k + 1)
                    },
                    _ => Command::Drive { target: k, action: a },
                }
            },
            RunPhase::Closing => {
                self.phase = RunPhase::Finished;
                Command::Finish
            },
            RunPhase::Finished => Command::Finish,
        }
    }
}

} // verus!
