use vstd::prelude::*;
use crate::outcome::{ModTime, PipelineError, WatchingFuncResult};
use crate::engine::{
    Action, Event, Phase, Plan, Snapshot, Stage, advance, call_of, following, transition,
    well_formed,
};

verus! {

/// The snapshot and the actions that follow from handing `events` to the engine in order.
pub open spec fn replay<T>(plan: Plan, s: Snapshot<T>, events: Seq<Event<T>>) -> (Snapshot<T>, Seq<Action>)
    decreases events.len(),
{
    if events.len() == 0 {
        (s, Seq::empty())
    } else {
        let (s1, a) = transition(plan, s, events[0]);
        let (s2, rest) = replay(plan, s1, events.drop_first());
        (s2, seq![a] + rest)
    }
}

/// A step that asks for a retry once per reason, each time followed by the wait, then `last`.
pub open spec fn retries_then<T>(reasons: Seq<String>, last: Event<T>) -> Seq<Event<T>>
    decreases reasons.len(),
{
    if reasons.len() == 0 {
        seq![last]
    } else {
        seq![Event::Stepped(WatchingFuncResult::Retry(reasons[0])), Event::Waited]
            + retries_then(reasons.drop_first(), last)
    }
}

/// One report of each reason, each followed by a new invocation `call`.
pub open spec fn retry_log(reasons: Seq<String>, call: Action) -> Seq<Action>
    decreases reasons.len(),
{
    if reasons.len() == 0 {
        Seq::empty()
    } else {
        seq![Action::Retry(reasons[0]), call] + retry_log(reasons.drop_first(), call)
    }
}

/// A file whose modification time is the stored one is skipped after the first pass:
/// no step is run, its stored time stays, and the engine moves on.
pub proof fn unchanged_file_is_skipped<T>(plan: Plan, s: Snapshot<T>, t: ModTime)
    requires
        well_formed(plan, s),
        s.phase is Checking,
        !s.first_pass,
        t == s.modified[s.current as int],
    ensures
        ({
            let (s2, a) = transition(plan, s, Event::Modified(Ok(t)));
            &&& s2.modified == s.modified
            &&& s2.value == s.value
            &&& (a is CheckModified || a == Action::Stop(Ok(())))
            &&& (s2, a) == advance(plan, s)
        }),
{
}

/// On the first pass every file is decoded, whatever its modification time, with a
/// fresh retry budget; the time read is recorded.
pub proof fn first_pass_runs_pipeline<T>(plan: Plan, s: Snapshot<T>, t: ModTime)
    requires
        well_formed(plan, s),
        s.phase is Checking,
        s.first_pass,
    ensures
        ({
            let (s2, a) = transition(plan, s, Event::Modified(Ok(t)));
            &&& a == Action::Decode(s.current)
            &&& s2.phase == Phase::Running(Stage::Decode, plan.max_retries)
            &&& s2.modified == s.modified.update(s.current as int, t)
        }),
{
}

/// Once a file's finalize step succeeds the engine waits one interval and moves on; the
/// first pass ends at the last file, so no file is processed twice in it.
pub proof fn processed_file_moves_on<T>(plan: Plan, s: Snapshot<T>, b: Option<u32>)
    requires
        well_formed(plan, s),
        s.phase == Phase::Running(Stage::Finalize, b),
    ensures
        ({
            let (s2, a) = transition(plan, s, Event::Finalized(Ok(())));
            let (s3, a3) = transition(plan, s2, Event::Waited);
            &&& a == Action::Pause
            &&& (s3, a3) == advance(plan, s2)
            &&& s.current + 1 < plan.steps.len() ==> a3 == Action::CheckModified((s.current + 1) as usize)
                && s3.first_pass == s.first_pass
            &&& s.current + 1 == plan.steps.len() ==> !s3.first_pass
        }),
{
}

/// A step that asks for `k` retries while its budget `n` allows more than `k` attempts
/// is reported `k` times, run again after each report, and then the event `last` meets
/// the step with `n - k` attempts left.
pub proof fn retry_rounds<T>(
    plan: Plan,
    s: Snapshot<T>,
    stage: Stage,
    n: u32,
    reasons: Seq<String>,
    last: Event<T>,
)
    requires
        well_formed(plan, s),
        s.phase == Phase::Running(stage, Some(n)),
        reasons.len() < n,
    ensures
        ({
            let sk = Snapshot { phase: Phase::Running(stage, Some((n - reasons.len()) as u32)), ..s };
            let (s_end, a_end) = transition(plan, sk, last);
            replay(plan, s, retries_then(reasons, last))
                == (s_end, retry_log(reasons, call_of(stage, s.current)).push(a_end))
        }),
    decreases reasons.len(),
{
    let call = call_of(stage, s.current);
    if reasons.len() == 0 {
        let sk = Snapshot { phase: Phase::Running(stage, Some(n)), ..s };
        assert(sk == s);
        let ev = retries_then(reasons, last);
        assert(ev.drop_first() =~= Seq::<Event<T>>::empty());
        assert(ev[0] == last);
        assert(replay(plan, transition(plan, s, last).0, ev.drop_first()).1 =~= Seq::<Action>::empty());
        assert(replay(plan, s, ev) == (
            transition(plan, s, last).0,
            seq![transition(plan, s, last).1] + Seq::<Action>::empty(),
        ));
        assert(retry_log(reasons, call).push(transition(plan, s, last).1)
            =~= seq![transition(plan, s, last).1] + Seq::<Action>::empty());
    } else {
        let r0 = reasons[0];
        let rest = reasons.drop_first();
        let tail = retries_then(rest, last);
        let ev = retries_then(reasons, last);
        let s1 = Snapshot { phase: Phase::Backoff(stage, Some((n - 1) as u32)), ..s };
        let s2 = Snapshot { phase: Phase::Running(stage, Some((n - 1) as u32)), ..s };
        assert(ev[0] == Event::<T>::Stepped(WatchingFuncResult::Retry(r0)));
        assert(transition(plan, s, ev[0]) == (s1, Action::Retry(r0)));
        let ev1 = ev.drop_first();
        assert(ev1 =~= seq![Event::<T>::Waited] + tail);
        assert(ev1[0] == Event::<T>::Waited);
        assert(transition(plan, s1, ev1[0]) == (s2, call));
        assert(ev1.drop_first() =~= tail);
        retry_rounds(plan, s2, stage, (n - 1) as u32, rest, last);
        let sk = Snapshot { phase: Phase::Running(stage, Some((n - reasons.len()) as u32)), ..s };
        let sk2 = Snapshot { phase: Phase::Running(stage, Some(((n - 1) as u32 - rest.len()) as u32)), ..s2 };
        assert(sk == sk2);
        let a_end = transition(plan, sk, last).1;
        let (s_end, rest_acts) = replay(plan, s2, tail);
        assert(replay(plan, s1, ev1) == (s_end, seq![call] + rest_acts));
        assert(replay(plan, s, ev) == (s_end, seq![Action::Retry(r0)] + (seq![call] + rest_acts)));
        assert(retry_log(reasons, call) == seq![Action::Retry(r0), call] + retry_log(rest, call));
        assert(retry_log(reasons, call).push(a_end)
            =~= seq![Action::Retry(r0)] + (seq![call] + retry_log(rest, call).push(a_end)));
    }
}

/// A step that asks for fewer retries than its budget and then succeeds is reported once
/// per retry; its output becomes the engine's value and the next stage is run on it.
pub proof fn retries_below_budget_then_done<T>(
    plan: Plan,
    s: Snapshot<T>,
    stage: Stage,
    n: u32,
    reasons: Seq<String>,
    v: T,
)
    requires
        well_formed(plan, s),
        s.phase == Phase::Running(stage, Some(n)),
        reasons.len() < n,
    ensures
        ({
            let next = following(stage, plan.steps[s.current as int]);
            let (s2, acts) = replay(plan, s, retries_then(reasons, Event::Stepped(WatchingFuncResult::Success(v))));
            &&& acts == retry_log(reasons, call_of(stage, s.current)).push(call_of(next, s.current))
            &&& s2.value == Some(v)
            &&& s2.phase == Phase::Running(next, plan.max_retries)
        }),
{
    retry_rounds(plan, s, stage, n, reasons, Event::Stepped(WatchingFuncResult::Success(v)));
}

/// A step that keeps asking for retries under a budget of `n` attempts is run exactly `n`
/// times, reported `n - 1` times, and the run stops with `RetriesExhausted`.
pub proof fn retries_exhausted<T>(
    plan: Plan,
    s: Snapshot<T>,
    stage: Stage,
    n: u32,
    reasons: Seq<String>,
    x: String,
)
    requires
        well_formed(plan, s),
        s.phase == Phase::Running(stage, Some(n)),
        n >= 1,
        reasons.len() == n - 1,
    ensures
        ({
            let (s2, acts) = replay(plan, s, retries_then(reasons, Event::Stepped(WatchingFuncResult::Retry(x))));
            &&& acts == retry_log(reasons, call_of(stage, s.current)).push(
                Action::Stop(Err(PipelineError::RetriesExhausted)),
            )
            &&& s2.phase is Stopped
        }),
{
    retry_rounds(plan, s, stage, n, reasons, Event::Stepped(WatchingFuncResult::Retry(x)));
}

/// The output of a successful decode or transform is the input of the next stage, and
/// the stages follow the registration order of the transforms.
pub proof fn output_feeds_next_stage<T>(plan: Plan, s: Snapshot<T>, stage: Stage, b: Option<u32>, v: T)
    requires
        well_formed(plan, s),
        s.phase == Phase::Running(stage, b),
        !(stage is Finalize),
    ensures
        ({
            let steps = plan.steps[s.current as int];
            let (s2, a) = transition(plan, s, Event::Stepped(WatchingFuncResult::Success(v)));
            &&& s2.value == Some(v)
            &&& well_formed(plan, s2)
            &&& stage is Decode && steps > 0 ==> a == Action::Transform(s.current, 0)
            &&& (stage matches Stage::Transform(k) && k + 1 < steps)
                ==> a == Action::Transform(s.current, (stage->Transform_0 + 1) as usize)
            &&& stage is Decode && steps == 0 ==> a == Action::Finalize(s.current)
            &&& (stage matches Stage::Transform(k) && k + 1 >= steps) ==> a == Action::Finalize(s.current)
        }),
{
}

/// Only a successful decode or transform changes the engine's value: waits, retries and
/// modification checks hand the next stage the same value.
pub proof fn value_kept_between_stages<T>(plan: Plan, s: Snapshot<T>, e: Event<T>)
    requires
        well_formed(plan, s),
        !(e matches Event::Stepped(WatchingFuncResult::Success(_))),
    ensures
        transition(plan, s, e).0.value == s.value,
{
}

} // verus!
