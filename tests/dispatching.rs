use mobile_dispatch::dispatch::{Dispatch, ToolError};

fn fail(detail: &str) -> Result<(), ToolError> {
    Err(ToolError { detail: detail.to_string() })
}

#[test]
fn first_failure_stops_dispatch() {
    // targets A, B, C at registry positions 5, 6, 7
    let mut d = Dispatch::new(vec![5, 6, 7]);
    let mut ran = Vec::new();
    let mut outcomes = vec![Ok(()), fail("B broke"), Ok(())].into_iter();
    while let Some(t) = d.next() {
        ran.push(t);
        d.record(outcomes.next().unwrap());
    }
    assert_eq!(ran, vec![5, 6]);
    let f = d.finish().unwrap_err();
    assert_eq!(f.target, 6);
    assert_eq!(f.cause.detail, "B broke");
}

#[test]
fn all_succeed_runs_every_target() {
    let mut d = Dispatch::new(vec![2, 0, 1]);
    let mut ran = Vec::new();
    while let Some(t) = d.next() {
        ran.push(t);
        d.record(Ok(()));
    }
    assert_eq!(ran, vec![2, 0, 1]);
    assert!(d.finish().is_ok());
}

#[test]
fn empty_dispatch_runs_nothing() {
    let d = Dispatch::new(Vec::new());
    assert_eq!(d.next(), None);
    assert!(d.finish().is_ok());
}

#[test]
fn failure_on_first_target() {
    let mut d = Dispatch::new(vec![1, 2]);
    assert_eq!(d.next(), Some(1));
    d.record(fail("boom"));
    assert_eq!(d.next(), None);
    assert_eq!(d.finish().unwrap_err().target, 1);
}
