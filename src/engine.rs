use vstd::prelude::*;
use crate::outcome::{ModTime, PipelineError, WatchingFuncResult};
use crate::registry::FileListBuilder;

verus! {

/// The step of the current file that is in flight.
#[derive(Clone, Copy, Debug)]
pub enum Stage {
    Decode,
    /// The transform at this index of the file's list.
    Transform(usize),
    Finalize,
}

/// What the engine is waiting for.
#[derive(Clone, Copy, Debug)]
pub enum Phase {
    /// The modification time of the current file.
    Checking,
    /// The outcome of a step, with the retries the invocation has left (`None`: unbounded).
    Running(Stage, Option<u32>),
    /// The end of the wait before the step is run again.
    Backoff(Stage, Option<u32>),
    /// The end of the wait after a processed file.
    Pausing,
    /// The end of an empty pass over an empty set that runs forever.
    Idle,
    /// Nothing: the run is over.
    Stopped,
}

/// What the caller must do next.
#[derive(Debug)]
pub enum Action {
    /// Read the modification time of the file at this index; answer `Event::Modified`.
    CheckModified(usize),
    /// Run the decode step on the path of this file; answer `Event::Stepped`.
    Decode(usize),
    /// Run transform `k` of file `i` on the engine's current value; answer `Event::Stepped`.
    Transform(usize, usize),
    /// Run the finalize step of this file on the current value; answer `Event::Finalized`.
    Finalize(usize),
    /// Report this reason, wait one interval; answer `Event::Waited`.
    Retry(String),
    /// Wait one interval after a processed file; answer `Event::Waited`.
    Pause,
    /// Nothing is watched; answer `Event::Waited`.
    Idle,
    /// The run is over, with this result.
    Stop(Result<(), PipelineError>),
}

/// What the caller observed while doing the last action.
pub enum Event<T> {
    /// The modification time read for the current file, or why it could not be read.
    Modified(Result<ModTime, String>),
    /// The outcome of a decode or transform step.
    Stepped(WatchingFuncResult<T>),
    /// The outcome of a finalize step.
    Finalized(Result<(), String>),
    /// The requested wait is over.
    Waited,
}

/// The fixed shape of a run: transforms per file, retry cap and run-once flag.
pub struct Plan {
    pub steps: Seq<usize>,
    pub max_retries: Option<u32>,
    pub run_once: bool,
}

/// The part of the engine that changes from event to event.
pub struct Snapshot<T> {
    /// Stored modification time of each file.
    pub modified: Seq<ModTime>,
    /// Index of the file being handled.
    pub current: usize,
    /// Whether this is the first pass over the set.
    pub first_pass: bool,
    pub phase: Phase,
    /// Output of the last successful decode or transform.
    pub value: Option<T>,
}

pub open spec fn plan_of<D, F, G>(set: FileListBuilder<D, F, G>) -> Plan {
    Plan {
        steps: Seq::new(set.files().len(), |i: int| set.files()[i].transforms().len() as usize),
        max_retries: set.retries(),
        run_once: set.runs_once(),
    }
}

pub open spec fn times_of<D, F, G>(set: FileListBuilder<D, F, G>) -> Seq<ModTime> {
    Seq::new(set.files().len(), |i: int| set.files()[i].modified())
}

/// Paths, steps and interval of `a` are those of `b`.
pub open spec fn same_steps<D, F, G>(a: FileListBuilder<D, F, G>, b: FileListBuilder<D, F, G>) -> bool {
    &&& a.files().len() == b.files().len()
    &&& forall|i: int| 0 <= i < a.files().len() ==> {
        &&& #[trigger] a.files()[i].path_spec() == b.files()[i].path_spec()
        &&& a.files()[i].transforms() == b.files()[i].transforms()
        &&& a.files()[i].finalizer() == b.files()[i].finalizer()
    }
    &&& a.decoder() == b.decoder()
    &&& a.interval() == b.interval()
}

/// The call that runs `stage` of file `i`.
pub open spec fn call_of(stage: Stage, i: usize) -> Action {
    match stage {
        Stage::Decode => Action::Decode(i),
        Stage::Transform(k) => Action::Transform(i, k),
        Stage::Finalize => Action::Finalize(i),
    }
}

/// The stage after a successful `stage`, for a file with `steps` transforms.
pub open spec fn following(stage: Stage, steps: usize) -> Stage {
    match stage {
        Stage::Decode => if steps > 0 { Stage::Transform(0) } else { Stage::Finalize },
        Stage::Transform(k) => if k + 1 < steps { Stage::Transform((k + 1) as usize) } else { Stage::Finalize },
        Stage::Finalize => Stage::Finalize,
    }
}

/// Budget left after one more retry, or `None` when the budget is spent.
pub open spec fn budget_after(b: Option<u32>) -> Option<Option<u32>> {
    match b {
        None => Some(None),
        Some(n) => if n <= 1 { None } else { Some(Some((n - 1) as u32)) },
    }
}

pub open spec fn stopped<T>(s: Snapshot<T>, r: Result<(), PipelineError>) -> (Snapshot<T>, Action) {
    (Snapshot { phase: Phase::Stopped, ..s }, Action::Stop(r))
}

/// Moving on to the next file, or to the next pass, or stopping after a single pass.
pub open spec fn advance<T>(plan: Plan, s: Snapshot<T>) -> (Snapshot<T>, Action) {
    if s.current + 1 < plan.steps.len() {
        let n = (s.current + 1) as usize;
        (Snapshot { current: n, phase: Phase::Checking, ..s }, Action::CheckModified(n))
    } else if plan.run_once {
        (Snapshot { first_pass: false, phase: Phase::Stopped, ..s }, Action::Stop(Ok(())))
    } else {
        (Snapshot { current: 0, first_pass: false, phase: Phase::Checking, ..s }, Action::CheckModified(0))
    }
}

/// A step asked to be run again, giving `reason`.
pub open spec fn retried<T>(s: Snapshot<T>, reason: String) -> (Snapshot<T>, Action) {
    match s.phase {
        Phase::Running(stage, b) => match budget_after(b) {
            Some(nb) => (Snapshot { phase: Phase::Backoff(stage, nb), ..s }, Action::Retry(reason)),
            None => stopped(s, Err(PipelineError::RetriesExhausted)),
        },
        _ => (s, Action::Idle),
    }
}

/// The event each phase waits for.
pub open spec fn expects<T>(phase: Phase, e: Event<T>) -> bool {
    match phase {
        Phase::Checking => e is Modified,
        Phase::Running(Stage::Finalize, _) => e is Finalized,
        Phase::Running(_, _) => e is Stepped,
        Phase::Backoff(_, _) | Phase::Pausing | Phase::Idle => e is Waited,
        Phase::Stopped => false,
    }
}

/// The engine's response to event `e`: its next snapshot and the action it asks for.
pub open spec fn transition<T>(plan: Plan, s: Snapshot<T>, e: Event<T>) -> (Snapshot<T>, Action) {
    let cur = s.current;
    match e {
        Event::Modified(Err(m)) => stopped(s, Err(PipelineError::Unreadable(m))),
        Event::Modified(Ok(t)) => if s.first_pass || t != s.modified[cur as int] {
            (
                Snapshot {
                    modified: s.modified.update(cur as int, t),
                    phase: Phase::Running(Stage::Decode, plan.max_retries),
                    ..s
                },
                Action::Decode(cur),
            )
        } else {
            advance(plan, s)
        },
        Event::Stepped(WatchingFuncResult::Success(v)) => {
            let next = following(s.phase->Running_0, plan.steps[cur as int]);
            (
                Snapshot { value: Some(v), phase: Phase::Running(next, plan.max_retries), ..s },
                call_of(next, cur),
            )
        },
        Event::Stepped(WatchingFuncResult::Fail(m)) => stopped(s, Err(PipelineError::Failed(m))),
        Event::Stepped(WatchingFuncResult::Retry(m)) => retried(s, m),
        Event::Finalized(Ok(_)) => (Snapshot { phase: Phase::Pausing, ..s }, Action::Pause),
        Event::Finalized(Err(m)) => retried(s, m),
        Event::Waited => match s.phase {
            Phase::Backoff(stage, b) => (Snapshot { phase: Phase::Running(stage, b), ..s }, call_of(stage, cur)),
            Phase::Pausing => advance(plan, s),
            _ => (s, Action::Idle),
        },
    }
}

pub open spec fn stage_fits(stage: Stage, steps: usize) -> bool {
    stage matches Stage::Transform(k) ==> k < steps
}

/// The states a run can reach.
pub open spec fn well_formed<T>(plan: Plan, s: Snapshot<T>) -> bool {
    let n = plan.steps.len();
    &&& s.modified.len() == n
    &&& match s.phase {
        Phase::Idle => n == 0 && !plan.run_once,
        Phase::Stopped => true,
        Phase::Checking | Phase::Pausing => s.current < n,
        Phase::Running(stage, _) | Phase::Backoff(stage, _) => {
            &&& s.current < n
            &&& stage_fits(stage, plan.steps[s.current as int])
            &&& (stage !is Decode ==> s.value is Some)
        },
    }
}

/// The first snapshot and action of a run over `plan`.
pub open spec fn start<T>(plan: Plan, modified: Seq<ModTime>) -> (Snapshot<T>, Action) {
    let s = Snapshot { modified, current: 0, first_pass: true, phase: Phase::Checking, value: None };
    if plan.steps.len() > 0 {
        (s, Action::CheckModified(0))
    } else if plan.run_once {
        (Snapshot { phase: Phase::Stopped, ..s }, Action::Stop(Ok(())))
    } else {
        (Snapshot { phase: Phase::Idle, ..s }, Action::Idle)
    }
}

fn call(stage: Stage, i: usize) -> (r: Action)
    ensures
        r == call_of(stage, i),
{
    match stage {
        Stage::Decode => Action::Decode(i),
        Stage::Transform(k) => Action::Transform(i, k),
        Stage::Finalize => Action::Finalize(i),
    }
}

fn next_stage(stage: Stage, steps: usize) -> (r: Stage)
    requires
        stage_fits(stage, steps),
    ensures
        r == following(stage, steps),
        stage_fits(r, steps),
{
    match stage {
        Stage::Decode => if steps > 0 { Stage::Transform(0) } else { Stage::Finalize },
        Stage::Transform(k) => if k + 1 < steps { Stage::Transform(k + 1) } else { Stage::Finalize },
        Stage::Finalize => Stage::Finalize,
    }
}

/// The running pipeline: a watch set together with where the run stands.
pub struct Engine<T, D, F, G> {
    set: FileListBuilder<D, F, G>,
    first_pass: bool,
    current: usize,
    phase: Phase,
    value: Option<T>,
}

impl<T, D, F, G> Engine<T, D, F, G> {
    /// The watch set, with the modification times recorded so far.
    pub closed spec fn config(&self) -> FileListBuilder<D, F, G> {
        self.set
    }

    pub closed spec fn snapshot(&self) -> Snapshot<T> {
        Snapshot {
            modified: times_of(self.set),
            current: self.current,
            first_pass: self.first_pass,
            phase: self.phase,
            value: self.value,
        }
    }

    pub open spec fn plan(&self) -> Plan {
        plan_of(self.config())
    }

    pub open spec fn wf(&self) -> bool {
        well_formed(self.plan(), self.snapshot())
    }

    /// Whether the engine waits for an event of the kind of `e`.
    pub fn accepts(&self, e: &Event<T>) -> (r: bool)
        ensures
            r == expects(self.snapshot().phase, *e),
    {
        match self.phase {
            Phase::Checking => matches!(e, Event::Modified(_)),
            Phase::Running(Stage::Finalize, _) => matches!(e, Event::Finalized(_)),
            Phase::Running(_, _) => matches!(e, Event::Stepped(_)),
            Phase::Backoff(_, _) | Phase::Pausing | Phase::Idle => matches!(e, Event::Waited),
            Phase::Stopped => false,
        }
    }

    pub fn watch_set(&self) -> (r: &FileListBuilder<D, F, G>)
        ensures
            *r == self.config(),
    {
        &self.set
    }

    /// The value the next transform or finalize step runs on.
    pub fn input(&self) -> (r: Option<&T>)
        ensures
            r is None <==> self.snapshot().value is None,
            r matches Some(x) ==> self.snapshot().value == Some(*x),
    {
        match &self.value {
            Some(v) => Some(v),
            None => None,
        }
    }

    fn advance_file(&mut self) -> (r: Action)
        requires
            old(self).wf(),
            old(self).snapshot().current < old(self).plan().steps.len(),
        ensures
            (final(self).snapshot(), r) == advance(old(self).plan(), old(self).snapshot()),
            final(self).set == old(self).set,
    {
        let n = self.set.file_count();
        if self.current + 1 < n {
            self.current = self.current + 1;
            self.phase = Phase::Checking;
            Action::CheckModified(self.current)
        } else {
            self.first_pass = false;
            if self.set.is_run_once() {
                self.phase = Phase::Stopped;
                Action::Stop(Ok(()))
            } else {
                self.current = 0;
                self.phase = Phase::Checking;
                Action::CheckModified(0)
            }
        }
    }

    fn retry(&mut self, reason: String) -> (r: Action)
        requires
            old(self).wf(),
            old(self).phase is Running,
        ensures
            (final(self).snapshot(), r) == retried(old(self).snapshot(), reason),
            final(self).set == old(self).set,
    {
        match self.phase {
            Phase::Running(stage, b) => match b {
                None => {
                    self.phase = Phase::Backoff(stage, None);
                    Action::Retry(reason)
                },
                Some(n) => if n <= 1 {
                    self.phase = Phase::Stopped;
                    Action::Stop(Err(PipelineError::RetriesExhausted))
                } else {
                    self.phase = Phase::Backoff(stage, Some(n - 1));
                    Action::Retry(reason)
                },
            },
            _ => Action::Idle,
        }
    }

    /// Takes the outcome of the last action and decides the next one.
    pub fn next(&mut self, e: Event<T>) -> (r: Action)
        requires
            old(self).wf(),
            expects(old(self).snapshot().phase, e),
        ensures
            final(self).wf(),
            (final(self).snapshot(), r) == transition(old(self).plan(), old(self).snapshot(), e),
            final(self).plan() == old(self).plan(),
            same_steps(final(self).config(), old(self).config()),
    {
        let ghost s0 = self.snapshot();
        let ghost p0 = self.plan();
        let cur = self.current;
        match e {
            Event::Modified(Err(m)) => {
                self.phase = Phase::Stopped;
                Action::Stop(Err(PipelineError::Unreadable(m)))
            },
            Event::Modified(Ok(t)) => {
                let stored = self.set.file(cur).last_modified();
                if self.first_pass || !t.same_as(&stored) {
                    self.set.set_file_modified(cur, t);
                    self.phase = Phase::Running(Stage::Decode, self.set.max_retries());
                    proof {
                        assert(self.snapshot().modified =~= s0.modified.update(cur as int, t));
                        assert(self.plan().steps =~= p0.steps);
                    }
                    Action::Decode(cur)
                } else {
                    self.advance_file()
                }
            },
            Event::Stepped(WatchingFuncResult::Success(v)) => {
                let stage = match self.phase {
                    Phase::Running(stage, _) => stage,
                    _ => Stage::Finalize,
                };
                let steps = self.set.file(cur).transform_count();
                let st = next_stage(stage, steps);
                self.value = Some(v);
                self.phase = Phase::Running(st, self.set.max_retries());
                call(st, cur)
            },
            Event::Stepped(WatchingFuncResult::Fail(m)) => {
                self.phase = Phase::Stopped;
                Action::Stop(Err(PipelineError::Failed(m)))
            },
            Event::Stepped(WatchingFuncResult::Retry(m)) => self.retry(m),
            Event::Finalized(Ok(_)) => {
                self.phase = Phase::Pausing;
                Action::Pause
            },
            Event::Finalized(Err(m)) => self.retry(m),
            Event::Waited => match self.phase {
                Phase::Backoff(stage, b) => {
                    self.phase = Phase::Running(stage, b);
                    call(stage, cur)
                },
                Phase::Pausing => self.advance_file(),
                _ => Action::Idle,
            },
        }
    }
}

impl<D, F, G> FileListBuilder<D, F, G> {
    /// Starts a run over this set: every file is processed on the first pass.
    pub fn launch<T>(self) -> (r: (Engine<T, D, F, G>, Action))
        ensures
            r.0.wf(),
            r.0.config() == self,
            (r.0.snapshot(), r.1) == start::<T>(plan_of(self), times_of(self)),
    {
        let n = self.file_count();
        let once = self.is_run_once();
        let mut engine = Engine {
            set: self,
            first_pass: true,
            current: 0,
            phase: Phase::Checking,
            value: None,
        };
        if n > 0 {
            (engine, Action::CheckModified(0))
        } else if once {
            engine.phase = Phase::Stopped;
            (engine, Action::Stop(Ok(())))
        } else {
            engine.phase = Phase::Idle;
            (engine, Action::Idle)
        }
    }
}

} // verus!
