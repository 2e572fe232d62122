use sekiro_launcher::manifest::{FetchFailure, FetchStep, Manifest, ToolEntry};

#[test]
fn builtin_has_exactly_5_tools() {
    let manifest = Manifest::builtin();
    assert_eq!(manifest.tools.len(), 5);
}

#[test]
fn builtin_slugs_are_unique() {
    let manifest = Manifest::builtin();
    let mut slugs: Vec<&str> = manifest.tools.iter().map(|t| t.slug.as_str()).collect();
    slugs.sort();
    slugs.dedup();
    assert_eq!(slugs.len(), manifest.tools.len());
}

#[test]
fn fetch_falls_back_to_builtin_on_network_error() {
    let result = Manifest::fetch(Err("connection refused".to_string()));
    assert!(result.is_ok());
    assert_eq!(result.unwrap().tools.len(), 5);
}

#[test]
fn fetch_from_retries_on_timeout() {
    // A server that keeps answering 503: two retries, then the fetch gives up.
    let mut delays = Vec::new();
    let mut outcome = None;
    for attempt in 1..=3u64 {
        match Manifest::fetch_step(attempt, Err(FetchFailure::BadStatus)) {
            FetchStep::Retry { delay_ms } => delays.push(delay_ms),
            FetchStep::Done(r) => {
                outcome = Some(r);
                break;
            }
        }
    }
    assert_eq!(delays, vec![500, 1000]);
    let result = outcome.expect("the third attempt ends the fetch");
    assert!(result.is_err());
    assert_eq!(result.err().unwrap(), "Failed to fetch manifest after 3 retries");
}

#[test]
fn fetch_keeps_remote_manifest() {
    let remote = Manifest {
        tools: vec![ToolEntry {
            name: "Only".into(),
            slug: "only".into(),
            github_repo: "me/only".into(),
            description: "one tool".into(),
        }],
    };
    let result = Manifest::fetch(Ok(remote)).unwrap();
    assert_eq!(result.tools.len(), 1);
    assert_eq!(result.tools[0].slug, "only");
}

#[test]
fn fetch_step_stops_on_malformed_body_and_success() {
    match Manifest::fetch_step(1, Err(FetchFailure::Malformed("expected value".into()))) {
        FetchStep::Done(Err(e)) => assert_eq!(e, "expected value"),
        _ => panic!("a malformed body ends the fetch"),
    }
    match Manifest::fetch_step(2, Ok(Manifest::builtin())) {
        FetchStep::Done(Ok(m)) => assert_eq!(m.tools.len(), 5),
        _ => panic!("a manifest ends the fetch"),
    }
    match Manifest::fetch_step(1, Err(FetchFailure::Unreachable)) {
        FetchStep::Retry { delay_ms } => assert_eq!(delay_ms, 500),
        _ => panic!("an unreachable server is retried"),
    }
}

#[test]
fn builtin_lists_the_five_tools_in_order() {
    let m = Manifest::builtin();
    let slugs: Vec<&str> = m.tools.iter().map(|t| t.slug.as_str()).collect();
    assert_eq!(slugs, vec!["livesplit", "save-organizer", "practice-tool", "save-helper", "sekirotool"]);
    assert_eq!(m.tools[0].github_repo, "LiveSplit/LiveSplit");
    assert_eq!(m.tools[2].name, "Practice Tool");
}
