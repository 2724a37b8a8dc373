use packs::lifecycle::{
    shutdown_result, Lifecycle, LifecycleBuildError, LifecycleError, SHUTDOWN_TIMEOUT_MS,
};
use packs::runnable::RunnableEntry;
use packs::timespan::TimeSpan;

fn runs(name: &str) -> RunnableEntry<()> {
    RunnableEntry::new(name.to_string(), TimeSpan::from_millis(10), ())
}

#[test]
fn test_build() {
    let r = runs("test");

    let _l = Lifecycle::builder()
        .with_shutdown_timeout(TimeSpan::from_millis(100))
        .with_runnable(r)
        .build();
}

#[test]
fn shutdown_outcome_when_runnable_stops_in_time() {
    let r = runs("test");
    let l = Lifecycle::builder().with_runnable(r).build().unwrap();
    // The runnable finishes 5 ms after being asked to stop, within its 10 ms.
    let completed = vec!["test".to_string()];
    assert!(
        shutdown_result(l.runnables(), &completed).is_ok(),
        "run unexpectedly errored"
    );
}

#[test]
fn test_build_multiple_names() {
    let r0 = runs("test0");
    let r1 = runs("test1");
    assert!(Lifecycle::builder()
        .with_runnable(r0)
        .with_runnable(r1)
        .build()
        .is_ok());
}

#[test]
fn test_build_duplicate_names() {
    assert!(Lifecycle::builder()
        .with_runnable(runs("test"))
        .with_runnable(runs("test"))
        .build()
        .is_err());
}

#[test]
fn shutdown_outcome_when_runnable_overruns_timeout() {
    let r = runs("test");
    let l = Lifecycle::builder().with_runnable(r).build().unwrap();
    // The runnable needs 20 ms to finish but has only 10 ms: it never reports.
    let completed: Vec<String> = Vec::new();
    assert!(
        shutdown_result(l.runnables(), &completed).is_err(),
        "run unexpectedly ok"
    );
}

#[test]
fn default_shutdown_timeout_is_twenty_millis() {
    assert_eq!(SHUTDOWN_TIMEOUT_MS, 20);
    let l = Lifecycle::builder().with_runnable(runs("a")).build().unwrap();
    assert_eq!(l.shutdown_timeout(), TimeSpan::from_millis(20));
    assert_eq!(l.shutdown_timeout().as_secs(), 0);
    assert_eq!(l.shutdown_timeout().subsec_nanos(), 20_000_000);
}

#[test]
fn timeout_longer_than_shutdown_is_refused() {
    let r = RunnableEntry::new("slow".to_string(), TimeSpan::from_millis(21), ());
    let res = Lifecycle::builder().with_runnable(r).build();
    assert_eq!(res.err(), Some(LifecycleBuildError::ExcessiveTimeout));
}

#[test]
fn timeout_equal_to_shutdown_is_accepted() {
    let r = RunnableEntry::new("edge".to_string(), TimeSpan::from_millis(20), ());
    assert!(Lifecycle::builder().with_runnable(r).build().is_ok());
}

#[test]
fn excessive_timeout_is_reported_before_duplicate_names() {
    let slow = RunnableEntry::new("x".to_string(), TimeSpan::from_millis(500), ());
    let res = Lifecycle::builder()
        .with_runnable(runs("x"))
        .with_runnable(slow)
        .build();
    assert_eq!(res.err(), Some(LifecycleBuildError::ExcessiveTimeout));
}

#[test]
fn duplicate_names_are_reported() {
    let res = Lifecycle::builder()
        .with_runnable(runs("a"))
        .with_runnable(runs("b"))
        .with_runnable(runs("a"))
        .build();
    assert_eq!(res.err(), Some(LifecycleBuildError::DuplicateNames));
}

#[test]
fn longer_shutdown_timeout_admits_slow_runnable() {
    let slow = RunnableEntry::new("slow".to_string(), TimeSpan::from_millis(500), ());
    let res = Lifecycle::builder()
        .with_shutdown_timeout(TimeSpan::from_millis(1000))
        .with_runnable(slow)
        .build();
    assert!(res.is_ok());
}

#[test]
fn built_lifecycle_keeps_runnables_in_order() {
    let l = Lifecycle::builder()
        .with_runnable(RunnableEntry::new("first".to_string(), TimeSpan::from_millis(1), 1u8))
        .with_runnable(RunnableEntry::new("second".to_string(), TimeSpan::from_millis(2), 2u8))
        .build()
        .unwrap();
    let rs = l.runnables();
    assert_eq!(rs.len(), 2);
    assert_eq!(rs[0].name, "first");
    assert_eq!(rs[0].task, 1);
    assert_eq!(rs[1].name, "second");
    assert_eq!(rs[1].timeout, TimeSpan::from_millis(2));
    let owned = l.into_runnables();
    assert_eq!(owned[1].task, 2);
}

#[test]
fn shutdown_with_some_runnable_missing_fails() {
    let l = Lifecycle::builder()
        .with_runnable(runs("a"))
        .with_runnable(runs("b"))
        .build()
        .unwrap();
    let completed = vec!["b".to_string(), "z".to_string()];
    assert_eq!(
        shutdown_result(l.runnables(), &completed),
        Err(LifecycleError::IncompleteShutdown)
    );
    let all = vec!["b".to_string(), "a".to_string()];
    assert_eq!(shutdown_result(l.runnables(), &all), Ok(()));
}

#[test]
fn shutdown_timeout_set_after_runnables_applies() {
    let ok = Lifecycle::builder()
        .with_runnable(RunnableEntry::new("a".to_string(), TimeSpan::from_millis(50), ()))
        .with_shutdown_timeout(TimeSpan::from_millis(100))
        .build();
    assert!(ok.is_ok());
    let refused = Lifecycle::builder()
        .with_runnable(RunnableEntry::new("a".to_string(), TimeSpan::from_millis(50), ()))
        .with_shutdown_timeout(TimeSpan::from_millis(40))
        .build();
    assert_eq!(refused.err(), Some(LifecycleBuildError::ExcessiveTimeout));
}
