//! Whole-run scenario: two targets of one account, driven through the
//! scheduler, each target's pages served from a scripted mock service and
//! its records gathered into its own sink.
use bloblist::client::output_path;
use bloblist::driver::{DriverPhase, DriverState, FetchOutcome};
use bloblist::records::Target;
use bloblist::scheduler::Scheduler;

fn page(names: &[&str], marker: Option<&str>) -> String {
    let mut blobs = String::new();
    for n in names {
        blobs.push_str(&format!(
            "<Blob><Name>{}</Name><Properties>\
             <Creation-Time>c</Creation-Time><Last-Modified>l</Last-Modified>\
             <Content-Length>1</Content-Length><Content-Type>t</Content-Type>\
             <Content-MD5>m</Content-MD5><BlobType>B</BlobType>\
             </Properties></Blob>",
            n
        ));
    }
    let marker_elem = match marker {
        Some(m) => format!("<NextMarker>{}</NextMarker>", m),
        None => String::new(),
    };
    format!(
        "<EnumerationResults><Blobs>{}</Blobs>{}</EnumerationResults>",
        blobs, marker_elem
    )
}

fn mock_pages(container: &str) -> Vec<FetchOutcome> {
    if container == "cont1" {
        vec![
            FetchOutcome::Response(page(&["a", "b", "c"], Some("m1"))),
            FetchOutcome::Response(page(&["d", "e"], None)),
        ]
    } else {
        vec![FetchOutcome::Response(page(&[], None))]
    }
}

#[test]
fn two_targets_two_sinks() {
    let targets = vec![
        Target { account: "acct1".to_string(), container: "cont1".to_string() },
        Target { account: "acct1".to_string(), container: "cont2".to_string() },
    ];
    let mut s = Scheduler::new(targets, 2);
    // One sink per target, keyed by its output path.
    let mut sinks: Vec<(String, Vec<String>)> = Vec::new();
    while !s.finished() {
        let t = match s.start_next() {
            Some(t) => t,
            None => break,
        };
        let run = DriverState::run_script(mock_pages(&t.container));
        assert!(matches!(run.state.phase, DriverPhase::Done));
        let path = output_path("", &t.account, &t.container);
        let rows: Vec<String> = run.emitted.iter().map(|r| r.name.clone()).collect();
        sinks.push((path, rows));
        s.complete(0, run.state.result());
    }
    assert_eq!(sinks.len(), 2);
    assert_eq!(sinks[0].0, "acct1-cont1.csv");
    assert_eq!(sinks[0].1, ["a", "b", "c", "d", "e"]);
    assert_eq!(sinks[1].0, "acct1-cont2.csv");
    assert!(sinks[1].1.is_empty());
    assert_eq!(s.results.len(), 2);
    assert_eq!(s.results[0].result.record_count, 5);
    assert!(s.results[0].result.error.is_none());
    assert_eq!(s.results[1].result.record_count, 0);
    assert!(s.results[1].result.error.is_none());
}
