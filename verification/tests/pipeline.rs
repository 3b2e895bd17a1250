use textpipe::collector::{ErrorCollector, ErrorMap};
use textpipe::filter::{MaxCharsLengthFilter, MinLengthFilter};
use textpipe::{Document, Pipeline, Runner};

fn build_simple_documents() -> Vec<Document> {
    vec![
        Document::new(String::from("This is dummy longer text")),
        Document::new(String::from("This is dummy shorter")),
        Document::new(String::from("much shorter")),
        Document::new(String::from("s!")),
        Document::new(String::from("")),
    ]
}

fn build_dummy_pipeline() -> Pipeline<MinLengthFilter> {
    let source = build_simple_documents();
    let seq = vec![MinLengthFilter(0), MinLengthFilter(100)];
    Pipeline::new(seq, source)
}

#[test]
fn test_run_pipeline_sequences() {
    let pipeline = build_dummy_pipeline();
    let text = String::from("This is a full document");
    let mut doc = Document::new(text);
    let (_source, runners) = pipeline.into_parts();
    for runner in runners.iter() {
        let _ = runner.run(&mut doc);
    }
}

#[test]
fn iterate_over_simple_examples() {
    let pipeline = build_dummy_pipeline();
    let (mut src, runners) = pipeline.into_parts();
    for exemple in src.iter_mut() {
        for runner in runners.iter() {
            let _ = runner.run(exemple);
        }
    }
}

#[test]
fn run_all_keeps_only_accepted_documents() {
    let source = build_simple_documents();
    let expected_ids: Vec<_> = source.iter().skip(2).map(|d| d.id).collect();
    let pipeline = Pipeline::new(vec![MaxCharsLengthFilter(12)], source);
    let mut collector = ErrorCollector::Collect(ErrorMap::default());
    let report = pipeline.run_all(&mut collector);
    assert!(!report.aborted);
    let texts: Vec<&str> = report.survivors.iter().map(|d| d.text.as_str()).collect();
    assert_eq!(texts, vec!["much shorter", "s!", ""]);
    let ids: Vec<_> = report.survivors.iter().map(|d| d.id).collect();
    assert_eq!(ids, expected_ids);
    let em: ErrorMap = collector.try_into().unwrap();
    assert_eq!(em.len(), 0);
}

#[test]
fn stop_signal_skips_later_stages() {
    // The first stage rejects "abc"; whether or not a later stage would have
    // accepted everything, the outcome is the same.
    let doc_a = Document::new(String::from("abc"));
    let doc_b = Document::new(String::from("abc"));
    let with_second = Pipeline::new(
        vec![MaxCharsLengthFilter(1), MaxCharsLengthFilter(1000)],
        vec![doc_a],
    );
    let alone = Pipeline::new(vec![MaxCharsLengthFilter(1)], vec![doc_b]);
    let mut c1 = ErrorCollector::StopCurrent;
    let mut c2 = ErrorCollector::StopCurrent;
    let r1 = with_second.run_all(&mut c1);
    let r2 = alone.run_all(&mut c2);
    assert!(!r1.aborted && !r2.aborted);
    assert_eq!(r1.survivors.len(), 0);
    assert_eq!(r2.survivors.len(), 0);
}

#[test]
fn run_all_under_every_policy_with_infallible_stages() {
    // The supplied filters never fail, so under every policy the collector
    // comes through a run untouched and nothing aborts.
    let halted = Pipeline::new(vec![MinLengthFilter(100)], build_simple_documents());
    let mut collector = ErrorCollector::StopAll;
    let report = halted.run_all(&mut collector);
    assert!(!report.aborted);
    assert_eq!(report.survivors.len(), 0);
    assert!(matches!(collector, ErrorCollector::StopAll));

    let passed = Pipeline::new(vec![MinLengthFilter(0)], build_simple_documents());
    let mut collector = ErrorCollector::Collect(ErrorMap::default());
    let report = passed.run_all(&mut collector);
    assert!(!report.aborted);
    assert_eq!(report.survivors.len(), 5);
    let em: ErrorMap = collector.try_into().unwrap();
    assert_eq!(em.len(), 0);
}

#[test]
fn fresh_documents_get_distinct_ids() {
    let a = Document::new(String::from("same text"));
    let b = Document::new(String::from("same text"));
    assert_ne!(a.id, b.id);
    assert_eq!(a.text, b.text);
}
