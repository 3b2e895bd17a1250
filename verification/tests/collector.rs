use textpipe::collector::{
    CollectOutcome, ErrorCollector, ErrorMap, ErrorMessage,
};

#[test]
fn test_error_collector_different_content() {
    let mut err_collector = ErrorCollector::Collect(ErrorMap::default());
    err_collector.collect_err(ErrorMessage(String::from("This is a dummy")));
    err_collector.collect_err(ErrorMessage(String::from("This is another dummy")));
    let em: ErrorMap = err_collector.try_into().unwrap();
    assert_eq!(em.get(&ErrorMessage(String::from("This is a dummy"))), Some(1));
    assert_eq!(em.get(&ErrorMessage(String::from("This is another dummy"))), Some(1));
}

#[test]
fn repeated_message_counts_twice() {
    let mut err_collector = ErrorCollector::Collect(ErrorMap::default());
    err_collector.collect_err(ErrorMessage(String::from("boom")));
    err_collector.collect_err(ErrorMessage(String::from("boom")));
    err_collector.collect_err(ErrorMessage(String::from("other")));
    let em: ErrorMap = err_collector.try_into().unwrap();
    assert_eq!(em.get(&ErrorMessage(String::from("boom"))), Some(2));
    assert_eq!(em.get(&ErrorMessage(String::from("other"))), Some(1));
    assert_eq!(em.get(&ErrorMessage(String::from("unseen"))), None);
    assert_eq!(em.len(), 2);
}

#[test]
fn collect_outcomes_follow_policy() {
    let mut stop_all = ErrorCollector::StopAll;
    assert_eq!(
        stop_all.collect_err(ErrorMessage(String::from("x"))),
        CollectOutcome::AbortRun
    );
    let mut stop_current = ErrorCollector::StopCurrent;
    assert_eq!(
        stop_current.collect_err(ErrorMessage(String::from("x"))),
        CollectOutcome::AbortDocument
    );
    let mut collect = ErrorCollector::Collect(ErrorMap::default());
    assert_eq!(
        collect.collect_err(ErrorMessage(String::from("x"))),
        CollectOutcome::Recorded
    );
}

#[test]
fn conversion_fails_on_non_collect_policies() {
    assert!(ErrorCollector::StopAll.try_into().is_err());
    assert!(ErrorCollector::StopCurrent.try_into().is_err());
    let err = match ErrorCollector::StopAll.try_into() {
        Err(e) => e,
        Ok(_) => panic!("expected the conversion to fail"),
    };
    assert_eq!(
        err.message(),
        "Could not convert an ErrorCollector into a ErrorMap"
    );
}

#[test]
fn conversion_returns_the_accumulated_map_unchanged() {
    let mut em = ErrorMap::default();
    assert_eq!(em.len(), 0);
    em.add_err(ErrorMessage(String::from("a")));
    em.add_err(ErrorMessage(String::from("a")));
    em.add_err(ErrorMessage(String::from("b")));
    let collector = ErrorCollector::Collect(em);
    let got: ErrorMap = collector.try_into().unwrap();
    assert_eq!(got.get(&ErrorMessage(String::from("a"))), Some(2));
    assert_eq!(got.get(&ErrorMessage(String::from("b"))), Some(1));
    assert_eq!(got.len(), 2);
}
