use bloblist::driver::{
    DriverState, FetchOutcome, StepAction, DriverPhase, MAX_SERVICE_RETRIES,
    MAX_TRANSPORT_RETRIES,
};
use bloblist::records::TerminalError;

fn page(names: &[&str], marker: Option<&str>) -> String {
    let mut blobs = String::new();
    for n in names {
        blobs.push_str(&format!(
            "<Blob><Name>{}</Name><Properties>\
             <Creation-Time>c</Creation-Time><Last-Modified>l</Last-Modified>\
             <Content-Length>1</Content-Length><Content-Type>t</Content-Type>\
             <Content-MD5>m</Content-MD5><BlobType>B</BlobType>\
             </Properties></Blob>",
            n
        ));
    }
    let marker_elem = match marker {
        Some(m) => format!("<NextMarker>{}</NextMarker>", m),
        None => String::new(),
    };
    format!(
        "<?xml version=\"1.0\"?><EnumerationResults><Blobs>{}</Blobs>{}</EnumerationResults>",
        blobs, marker_elem
    )
}

fn error_page(code: &str) -> String {
    format!(
        "<EnumerationResults><Error><Code>{}</Code><Message>msg</Message></Error></EnumerationResults>",
        code
    )
}

#[test]
fn pagination_visits_every_page_and_finishes() {
    let events = vec![
        FetchOutcome::Response(page(&["a", "b", "c"], Some("m1"))),
        FetchOutcome::Response(page(&["d", "e"], None)),
    ];
    let run = DriverState::run_script(events);
    assert_eq!(run.fetches, 2);
    assert!(matches!(run.state.phase, DriverPhase::Done));
    assert_eq!(run.state.record_count, 5);
    let names: Vec<&str> = run.emitted.iter().map(|r| r.name.as_str()).collect();
    assert_eq!(names, ["a", "b", "c", "d", "e"]);
}

#[test]
fn single_page_with_no_marker_finishes_after_one_fetch() {
    let events = vec![FetchOutcome::Response(page(&["only"], None))];
    let run = DriverState::run_script(events);
    assert_eq!(run.fetches, 1);
    assert!(matches!(run.state.phase, DriverPhase::Done));
    assert_eq!(run.emitted.len(), 1);
}

#[test]
fn zero_records_is_done_not_fatal() {
    let events = vec![FetchOutcome::Response(page(&[], None))];
    let run = DriverState::run_script(events);
    assert!(matches!(run.state.phase, DriverPhase::Done));
    assert_eq!(run.state.record_count, 0);
    let result = run.state.result();
    assert_eq!(result.record_count, 0);
    assert!(result.error.is_none());
}

#[test]
fn empty_marker_page_ends_pagination() {
    let body = page(&["a"], None).replace("</Blobs>", "</Blobs><NextMarker></NextMarker>");
    let run = DriverState::run_script(vec![FetchOutcome::Response(body)]);
    assert_eq!(run.fetches, 1);
    assert!(matches!(run.state.phase, DriverPhase::Done));
}

#[test]
fn transport_retry_bound_is_respected() {
    let events: Vec<FetchOutcome> = (0..20).map(|_| FetchOutcome::TransportError).collect();
    let run = DriverState::run_script(events);
    assert_eq!(run.fetches as u64, MAX_TRANSPORT_RETRIES + 1);
    match run.state.phase {
        DriverPhase::Fatal(TerminalError::TransportRetriesExhausted) => {}
        _ => panic!("expected the transport budget to be exhausted"),
    }
    assert!(run.emitted.is_empty());
}

#[test]
fn service_retry_bound_is_respected() {
    let events: Vec<FetchOutcome> =
        (0..20).map(|_| FetchOutcome::Response(error_page("ServerBusy"))).collect();
    let run = DriverState::run_script(events);
    assert_eq!(run.fetches as u64, MAX_SERVICE_RETRIES + 1);
    match run.state.phase {
        DriverPhase::Fatal(TerminalError::ServiceRetriesExhausted { code, .. }) => {
            assert_eq!(code, "ServerBusy");
        }
        _ => panic!("expected the service budget to be exhausted"),
    }
}

#[test]
fn independent_budgets_allow_recovery() {
    // Alternate both kinds of transient failure, each within its own budget,
    // then let the service answer: the run still completes.
    let mut events = Vec::new();
    for i in 0..10 {
        if i < 5 {
            events.push(FetchOutcome::TransportError);
        }
        events.push(FetchOutcome::Response(error_page("ServerBusy")));
    }
    events.push(FetchOutcome::Response(page(&["a", "b"], None)));
    let n = events.len();
    let run = DriverState::run_script(events);
    assert_eq!(run.fetches, n);
    assert!(matches!(run.state.phase, DriverPhase::Done));
    assert_eq!(run.emitted.len(), 2);
    assert_eq!(run.state.transport_retries, 5);
    assert_eq!(run.state.service_retries, 10);
}

#[test]
fn one_failure_over_either_budget_is_fatal() {
    let mut events: Vec<FetchOutcome> = (0..6).map(|_| FetchOutcome::TransportError).collect();
    events.push(FetchOutcome::Response(page(&["a"], None)));
    let run = DriverState::run_script(events);
    assert!(matches!(
        run.state.phase,
        DriverPhase::Fatal(TerminalError::TransportRetriesExhausted)
    ));
    assert!(run.emitted.is_empty());
}

#[test]
fn malformed_page_is_fatal_without_retry() {
    let events = vec![
        FetchOutcome::Response("<EnumerationResults><Blobs>".to_string()),
        FetchOutcome::Response(page(&["a"], None)),
    ];
    let run = DriverState::run_script(events);
    assert_eq!(run.fetches, 1);
    match run.state.phase {
        DriverPhase::Fatal(TerminalError::MalformedPage { offset }) => assert_eq!(offset, 27),
        _ => panic!("expected a decode failure"),
    }
    let result = run.state.result();
    assert!(matches!(
        result.error,
        Some(TerminalError::MalformedPage { offset: 27 })
    ));
}

#[test]
fn retry_keeps_the_same_marker() {
    let mut st = DriverState::new();
    let act = st.step(FetchOutcome::Response(page(&["a"], Some("mark7"))));
    match act {
        StepAction::EmitPage { last, .. } => assert!(!last),
        _ => panic!("expected records"),
    }
    assert_eq!(st.marker.as_deref(), Some("mark7"));
    // A transport failure and a service error both leave the marker alone:
    // the same page is refetched.
    let act = st.step(FetchOutcome::TransportError);
    assert!(matches!(act, StepAction::Backoff));
    assert_eq!(st.marker.as_deref(), Some("mark7"));
    let act = st.step(FetchOutcome::Response(error_page("ServerBusy")));
    assert!(matches!(act, StepAction::Backoff));
    assert_eq!(st.marker.as_deref(), Some("mark7"));
    assert_eq!(st.transport_retries, 1);
    assert_eq!(st.service_retries, 1);
}

#[test]
fn abort_action_carries_the_error() {
    let mut st = DriverState::new();
    for _ in 0..5 {
        assert!(matches!(st.step(FetchOutcome::TransportError), StepAction::Backoff));
    }
    match st.step(FetchOutcome::TransportError) {
        StepAction::Abort(TerminalError::TransportRetriesExhausted) => {}
        _ => panic!("expected the run to abort"),
    }
    assert!(!st.is_running());
}
