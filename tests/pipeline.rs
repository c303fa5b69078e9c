use std::cell::RefCell;
use std::rc::Rc;

use file_watcher::engine::{Action, Event};
use file_watcher::outcome::{ModTime, PipelineError, WatchingFuncResult};
use file_watcher::registry::{FileListBuilder, WatchedFile, DEFAULT_INTERVAL_MS};

type Dec = Box<dyn Fn(&str) -> WatchingFuncResult<i64>>;
type Tr = Box<dyn Fn(i64) -> WatchingFuncResult<i64>>;
type Fin = Box<dyn Fn(i64) -> Result<(), String>>;
type Watch = FileListBuilder<Dec, Tr, Fin>;

struct Outcome {
    result: Option<Result<(), PipelineError>>,
    logs: Vec<String>,
    pauses: usize,
    checks: Vec<usize>,
}

fn t(secs: i64) -> ModTime {
    ModTime { secs, nanos: 0 }
}

/// Runs the engine, answering each action, until it stops or `limit` actions were taken.
fn drive(set: Watch, stat: &dyn Fn(&str) -> Result<ModTime, String>, limit: usize) -> Outcome {
    let (mut engine, mut action) = set.launch::<i64>();
    let mut out = Outcome { result: None, logs: Vec::new(), pauses: 0, checks: Vec::new() };
    for _ in 0..limit {
        let event = match action {
            Action::Stop(r) => {
                out.result = Some(r);
                return out;
            }
            Action::CheckModified(i) => {
                out.checks.push(i);
                Event::Modified(stat(engine.watch_set().file(i).path()))
            }
            Action::Decode(i) => {
                let ws = engine.watch_set();
                Event::Stepped((ws.decode_step())(ws.file(i).path()))
            }
            Action::Transform(i, k) => {
                let v = *engine.input().unwrap();
                Event::Stepped((engine.watch_set().file(i).transform(k))(v))
            }
            Action::Finalize(i) => {
                let v = *engine.input().unwrap();
                Event::Finalized((engine.watch_set().file(i).finalize_step())(v))
            }
            Action::Retry(s) => {
                out.logs.push(s);
                Event::Waited
            }
            Action::Pause => {
                out.pauses += 1;
                Event::Waited
            }
            Action::Idle => Event::Waited,
        };
        assert!(engine.accepts(&event));
        action = engine.next(event);
    }
    out
}

fn counter() -> Rc<RefCell<usize>> {
    Rc::new(RefCell::new(0))
}

fn file(path: &str, secs: i64, fin: Fin) -> WatchedFile<Tr, Fin> {
    match WatchedFile::new(path, Ok(t(secs)), fin) {
        Ok(f) => f,
        Err(_) => panic!("registration failed"),
    }
}

fn zero_dec() -> Dec {
    Box::new(|_: &str| WatchingFuncResult::Success(0))
}

fn one_dec() -> Dec {
    Box::new(|_: &str| WatchingFuncResult::Success(1))
}

fn ok_fin() -> Fin {
    Box::new(|_| Ok(()))
}

fn fixed_stat(secs: i64) -> impl Fn(&str) -> Result<ModTime, String> {
    move |_| Ok(t(secs))
}

#[test]
fn builder_defaults() {
    let d: Dec = zero_dec();
    let set: Watch = FileListBuilder::new(d);
    assert_eq!(set.file_count(), 0);
    assert_eq!(set.interval_ms(), DEFAULT_INTERVAL_MS);
    assert_eq!(set.interval_ms(), 1000);
    assert_eq!(set.max_retries(), None);
    assert!(!set.is_run_once());
}

#[test]
fn builder_setters() {
    let d: Dec = zero_dec();
    let mut set: Watch = FileListBuilder::new(d).with_interval(250).with_max_retries(4).run_only_once(true);
    set.add_file(file("a", 1, ok_fin()));
    set.add_file(file("a", 1, ok_fin()));
    assert_eq!(set.interval_ms(), 250);
    assert_eq!(set.max_retries(), Some(4));
    assert!(set.is_run_once());
    assert_eq!(set.file_count(), 2);
    assert_eq!(set.file(1).path(), "a");
}

#[test]
fn watched_file_registration() {
    let mut f = file("data.txt", 42, ok_fin());
    assert_eq!(f.path(), "data.txt");
    assert_eq!(f.last_modified(), t(42));
    assert_eq!(f.transform_count(), 0);
    f.add_func(Box::new(|v| WatchingFuncResult::Success(v + 1)));
    f.add_func(Box::new(|v| WatchingFuncResult::Success(v * 2)));
    assert_eq!(f.transform_count(), 2);
    match (f.transform(1))(5) {
        WatchingFuncResult::Success(v) => assert_eq!(v, 10),
        _ => panic!("unexpected outcome"),
    }
}

#[test]
fn watched_file_unreadable_time() {
    let r: Result<WatchedFile<Tr, Fin>, String> =
        WatchedFile::new("missing", Err(String::from("failed to open file missing metadata")), ok_fin());
    match r {
        Err(e) => assert_eq!(e, "failed to open file missing metadata"),
        Ok(_) => panic!("registration should fail"),
    }
}

#[test]
fn error_messages() {
    assert_eq!(PipelineError::RetriesExhausted.message(), "no more retries");
    assert_eq!(PipelineError::Failed(String::from("x")).message(), "x");
    assert_eq!(PipelineError::Unreadable(String::from("gone")).message(), "gone");
}

#[test]
fn decode_retries_below_budget_then_succeeds() {
    let calls = counter();
    let c = calls.clone();
    let d: Dec = Box::new(move |_: &str| {
        *c.borrow_mut() += 1;
        if *c.borrow() <= 2 {
            WatchingFuncResult::Retry(format!("busy {}", *c.borrow()))
        } else {
            WatchingFuncResult::Success(7)
        }
    });
    let mut set: Watch = FileListBuilder::new(d).with_max_retries(3).run_only_once(true);
    set.add_file(file("a", 1, ok_fin()));
    let out = drive(set, &fixed_stat(1), 100);
    assert_eq!(out.result, Some(Ok(())));
    assert_eq!(out.logs, vec![String::from("busy 1"), String::from("busy 2")]);
    assert_eq!(*calls.borrow(), 3);
}

#[test]
fn always_retry_with_two_retries_stops_after_two_attempts() {
    let calls = counter();
    let c = calls.clone();
    let d: Dec = Box::new(move |_: &str| {
        *c.borrow_mut() += 1;
        WatchingFuncResult::Retry(String::from("again"))
    });
    let mut set: Watch = FileListBuilder::new(d).with_max_retries(2).run_only_once(true);
    set.add_file(file("a", 1, ok_fin()));
    let out = drive(set, &fixed_stat(1), 100);
    assert_eq!(out.result, Some(Err(PipelineError::RetriesExhausted)));
    assert_eq!(*calls.borrow(), 2);
    assert_eq!(out.logs.len(), 1);
    assert_eq!(PipelineError::RetriesExhausted.message(), "no more retries");
}

#[test]
fn zero_retries_stop_at_first_retry() {
    let d: Dec = Box::new(|_: &str| WatchingFuncResult::Retry(String::from("again")));
    let mut set: Watch = FileListBuilder::new(d).with_max_retries(0).run_only_once(true);
    set.add_file(file("a", 1, ok_fin()));
    let out = drive(set, &fixed_stat(1), 100);
    assert_eq!(out.result, Some(Err(PipelineError::RetriesExhausted)));
    assert!(out.logs.is_empty());
}

#[test]
fn transform_fail_stops_before_later_files() {
    let decoded = Rc::new(RefCell::new(Vec::<String>::new()));
    let dd = decoded.clone();
    let d: Dec = Box::new(move |p| {
        dd.borrow_mut().push(p.to_string());
        WatchingFuncResult::Success(1)
    });
    let mut set: Watch = FileListBuilder::new(d).run_only_once(true);
    let mut first = file("first", 1, ok_fin());
    first.add_func(Box::new(|_| WatchingFuncResult::Fail(String::from("x"))));
    set.add_file(first);
    set.add_file(file("second", 1, ok_fin()));
    let out = drive(set, &fixed_stat(1), 100);
    match out.result {
        Some(Err(e)) => {
            assert_eq!(e, PipelineError::Failed(String::from("x")));
            assert!(e.message().contains("x"));
        }
        _ => panic!("the run should fail"),
    }
    assert_eq!(*decoded.borrow(), vec![String::from("first")]);
    assert_eq!(out.checks, vec![0]);
}

#[test]
fn run_once_processes_every_file_once() {
    let finals = counter();
    let mut set: Watch = FileListBuilder::new(zero_dec()).run_only_once(true);
    for (name, secs) in [("old", 5), ("new1", 1), ("new2", 2)] {
        let f = finals.clone();
        set.add_file(file(name, secs, Box::new(move |_| {
            *f.borrow_mut() += 1;
            Ok(())
        })));
    }
    let stat = |p: &str| if p == "old" { Ok(t(5)) } else { Ok(t(9)) };
    let out = drive(set, &stat, 1000);
    assert_eq!(out.result, Some(Ok(())));
    assert_eq!(*finals.borrow(), 3);
    assert_eq!(out.pauses, 3);
    assert_eq!(out.checks, vec![0, 1, 2]);
}

#[test]
fn unchanged_files_are_skipped_after_first_pass() {
    let decodes = counter();
    let c = decodes.clone();
    let d: Dec = Box::new(move |_: &str| {
        *c.borrow_mut() += 1;
        WatchingFuncResult::Success(0)
    });
    let mut set: Watch = FileListBuilder::new(d);
    set.add_file(file("a", 1, ok_fin()));
    set.add_file(file("b", 1, ok_fin()));
    let out = drive(set, &fixed_stat(3), 30);
    assert_eq!(out.result, None);
    assert_eq!(*decodes.borrow(), 2);
    assert_eq!(out.pauses, 2);
    assert_eq!(&out.checks[..6], &[0, 1, 0, 1, 0, 1]);
}

#[test]
fn changed_file_is_processed_again() {
    let decodes = counter();
    let c = decodes.clone();
    let d: Dec = Box::new(move |_: &str| {
        *c.borrow_mut() += 1;
        WatchingFuncResult::Success(0)
    });
    let stats = counter();
    let s = stats.clone();
    let stat = move |_: &str| {
        *s.borrow_mut() += 1;
        if *s.borrow() < 3 { Ok(t(1)) } else { Ok(t(2)) }
    };
    let mut set: Watch = FileListBuilder::new(d);
    set.add_file(file("a", 1, ok_fin()));
    let out = drive(set, &stat, 12);
    assert_eq!(out.result, None);
    assert_eq!(*decodes.borrow(), 2);
}

#[test]
fn each_stage_gets_previous_output() {
    let seen = Rc::new(RefCell::new(Vec::<i64>::new()));
    let (s1, s2, s3) = (seen.clone(), seen.clone(), seen.clone());
    let mut set: Watch = FileListBuilder::new(one_dec()).run_only_once(true);
    let mut f = file("a", 1, Box::new(move |v| {
        s3.borrow_mut().push(v);
        Ok(())
    }));
    f.add_func(Box::new(move |v| {
        s1.borrow_mut().push(v);
        WatchingFuncResult::Success(v + 10)
    }));
    f.add_func(Box::new(move |v| {
        s2.borrow_mut().push(v);
        WatchingFuncResult::Success(v * 3)
    }));
    set.add_file(f);
    let out = drive(set, &fixed_stat(1), 100);
    assert_eq!(out.result, Some(Ok(())));
    assert_eq!(*seen.borrow(), vec![1, 11, 33]);
}

#[test]
fn transform_retry_budget_is_fresh_per_step() {
    let calls = counter();
    let c = calls.clone();
    let mut set: Watch = FileListBuilder::new(zero_dec())
        .with_max_retries(2)
        .run_only_once(true);
    let mut f = file("a", 1, ok_fin());
    for _ in 0..2 {
        let c = c.clone();
        f.add_func(Box::new(move |v| {
            *c.borrow_mut() += 1;
            if *c.borrow() % 2 == 1 {
                WatchingFuncResult::Retry(String::from("once"))
            } else {
                WatchingFuncResult::Success(v)
            }
        }));
    }
    set.add_file(f);
    let out = drive(set, &fixed_stat(1), 100);
    assert_eq!(out.result, Some(Ok(())));
    assert_eq!(out.logs.len(), 2);
    assert_eq!(*calls.borrow(), 4);
}

#[test]
fn finalize_retries_then_succeeds() {
    let calls = counter();
    let c = calls.clone();
    let mut set: Watch = FileListBuilder::new(zero_dec())
        .with_max_retries(3)
        .run_only_once(true);
    set.add_file(file("a", 1, Box::new(move |_| {
        *c.borrow_mut() += 1;
        if *c.borrow() < 3 { Err(String::from("write failed")) } else { Ok(()) }
    })));
    let out = drive(set, &fixed_stat(1), 100);
    assert_eq!(out.result, Some(Ok(())));
    assert_eq!(out.logs, vec![String::from("write failed"), String::from("write failed")]);
}

#[test]
fn finalize_budget_exhausted() {
    let mut set: Watch = FileListBuilder::new(zero_dec())
        .with_max_retries(2)
        .run_only_once(true);
    set.add_file(file("a", 1, Box::new(|_| Err(String::from("no")))));
    set.add_file(file("b", 1, ok_fin()));
    let out = drive(set, &fixed_stat(1), 100);
    assert_eq!(out.result, Some(Err(PipelineError::RetriesExhausted)));
    assert_eq!(out.checks, vec![0]);
}

#[test]
fn unreadable_time_stops_run() {
    let mut set: Watch = FileListBuilder::new(zero_dec());
    set.add_file(file("a", 1, ok_fin()));
    let stat = |_: &str| Err(String::from("failed to open file a metadata"));
    let out = drive(set, &stat, 100);
    assert_eq!(out.result, Some(Err(PipelineError::Unreadable(String::from("failed to open file a metadata")))));
}

#[test]
fn empty_set_once_stops_at_once() {
    let set: Watch = FileListBuilder::new(zero_dec()).run_only_once(true);
    let (_engine, action) = set.launch::<i64>();
    assert!(matches!(action, Action::Stop(Ok(()))));
}

#[test]
fn empty_set_forever_idles() {
    let set: Watch = FileListBuilder::new(zero_dec());
    let (mut engine, action) = set.launch::<i64>();
    assert!(matches!(action, Action::Idle));
    assert!(engine.accepts(&Event::Waited));
    assert!(matches!(engine.next(Event::Waited), Action::Idle));
}

#[test]
fn first_pass_records_observed_time() {
    let mut set: Watch = FileListBuilder::new(zero_dec());
    set.add_file(file("a", 1, ok_fin()));
    let (mut engine, action) = set.launch::<i64>();
    assert!(matches!(action, Action::CheckModified(0)));
    assert!(!engine.accepts(&Event::Waited));
    let a = engine.next(Event::Modified(Ok(t(1))));
    assert!(matches!(a, Action::Decode(0)));
    assert_eq!(engine.watch_set().file(0).last_modified(), t(1));
}

#[test]
fn same_instant_compares_nanos() {
    assert!(t(3).same_as(&t(3)));
    assert!(!t(3).same_as(&ModTime { secs: 3, nanos: 1 }));
}
