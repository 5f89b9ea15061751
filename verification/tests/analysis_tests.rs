use hrekt::classify::StatusBucket;
use hrekt::job::{Config, Job};
use hrekt::probe::{analyze_candidate, MatchResult, ProbeOutcome};

fn plain_config() -> Config {
    Config {
        body_regex: String::new(),
        header_regex: String::new(),
        ports: "80,443".to_string(),
        path: String::new(),
        display_title: false,
        display_tech: false,
        status_codes: false,
        content_length: false,
        content_type: false,
        server: false,
    }
}

fn plain_outcome(status: u16, body: &str) -> ProbeOutcome {
    ProbeOutcome {
        status,
        headers: Vec::new(),
        body: body.to_string(),
        content_length: None,
        content_type: None,
        server: None,
    }
}

fn job_for(cfg: &Config) -> Job {
    Job::build("example.com".to_string(), cfg)
}

#[test]
fn path_probe_404_blocks_even_matching_body() {
    let mut cfg = plain_config();
    cfg.path = "/admin".to_string();
    cfg.body_regex = "Example".to_string();
    let job = job_for(&cfg);
    let outcome = plain_outcome(200, "An Example body that matches");
    let r = analyze_candidate(
        &job,
        "https://example.com:443/admin",
        Some(404),
        &outcome,
        None,
    );
    assert!(r.is_none());
}

#[test]
fn path_probe_400_blocks() {
    let mut cfg = plain_config();
    cfg.path = "/admin".to_string();
    let job = job_for(&cfg);
    let outcome = plain_outcome(200, "");
    let r = analyze_candidate(
        &job,
        "https://example.com:443/admin",
        Some(400),
        &outcome,
        None,
    );
    assert!(r.is_none());
}

#[test]
fn path_probe_other_status_passes() {
    let mut cfg = plain_config();
    cfg.path = "/admin".to_string();
    let job = job_for(&cfg);
    let outcome = plain_outcome(200, "");
    let r = analyze_candidate(
        &job,
        "https://example.com:443/admin",
        Some(403),
        &outcome,
        None,
    );
    assert!(r.is_some());
}

#[test]
fn empty_body_regex_keeps_any_body() {
    let cfg = plain_config();
    let job = job_for(&cfg);
    for body in ["", "anything at all", "<html></html>"] {
        let outcome = plain_outcome(200, body);
        let r = analyze_candidate(&job, "http://example.com:80", None, &outcome, None);
        assert!(r.is_some());
    }
}

#[test]
fn body_regex_match_keeps_and_nonmatch_drops() {
    let mut cfg = plain_config();
    cfg.body_regex = "^a+$".to_string();
    let job = job_for(&cfg);
    let keep = analyze_candidate(
        &job,
        "http://example.com:80",
        None,
        &plain_outcome(200, "aaa"),
        None,
    );
    assert!(keep.is_some());
    let drop = analyze_candidate(
        &job,
        "http://example.com:80",
        None,
        &plain_outcome(200, "bbb"),
        None,
    );
    assert!(drop.is_none());
}

#[test]
fn invalid_body_regex_drops_candidate() {
    let mut cfg = plain_config();
    cfg.body_regex = "(".to_string();
    let job = job_for(&cfg);
    let r = analyze_candidate(
        &job,
        "http://example.com:80",
        None,
        &plain_outcome(200, "anything"),
        None,
    );
    assert!(r.is_none());
}

#[test]
fn title_scenario_default_ports() {
    // One https candidate, status 200, title enabled, everything else off.
    let mut cfg = plain_config();
    cfg.display_title = true;
    let job = job_for(&cfg);
    let outcome = plain_outcome(200, "<html><title>Example</title></html>");
    let r = analyze_candidate(&job, "https://example.com:443", None, &outcome, None);
    let m: MatchResult = r.expect("candidate must be reported");
    assert_eq!(m.url, "https://example.com:443");
    assert_eq!(m.title, "[Example]");
    assert_eq!(m.tech, "");
    assert_eq!(m.status, "");
    assert_eq!(m.content_type, "");
    assert_eq!(m.content_length, "");
    assert_eq!(m.server, "");
    assert!(m.bucket.is_none());
    let line = m.format_line();
    assert!(line.contains("https://example.com:443"));
    assert!(line.contains("Example"));
    assert_eq!(line, "https://example.com:443 [Example]     ");
}

#[test]
fn title_takes_first_nonempty_capture() {
    let mut cfg = plain_config();
    cfg.display_title = true;
    let job = job_for(&cfg);
    // The dot does not cross lines, so the first line's capture is empty and
    // the second line's title is the first non-empty one.
    let outcome = plain_outcome(200, "<title></title>\n<title>Second</title>");
    let m = analyze_candidate(&job, "http://example.com:80", None, &outcome, None).unwrap();
    assert_eq!(m.title, "[Second]");
}

#[test]
fn missing_title_yields_empty_field() {
    let mut cfg = plain_config();
    cfg.display_title = true;
    let job = job_for(&cfg);
    let outcome = plain_outcome(200, "<html>no title here</html>");
    let m = analyze_candidate(&job, "http://example.com:80", None, &outcome, None).unwrap();
    assert_eq!(m.title, "");
}

#[test]
fn header_regex_match_retains() {
    let mut cfg = plain_config();
    cfg.header_regex = "X-Powered-By:PHP".to_string();
    let job = job_for(&cfg);
    let mut outcome = plain_outcome(200, "");
    outcome
        .headers
        .push(("X-Powered-By".to_string(), "PHP/7.4".to_string()));
    let r = analyze_candidate(&job, "https://example.com:443", None, &outcome, None);
    assert!(r.is_some());
}

#[test]
fn header_regex_nonmatch_drops() {
    let mut cfg = plain_config();
    cfg.header_regex = "X-Powered-By:ASP".to_string();
    let job = job_for(&cfg);
    let mut outcome = plain_outcome(200, "");
    outcome
        .headers
        .push(("X-Powered-By".to_string(), "PHP/7.4".to_string()));
    let r = analyze_candidate(&job, "https://example.com:443", None, &outcome, None);
    assert!(r.is_none());
}

#[test]
fn header_regex_any_line_suffices() {
    let mut cfg = plain_config();
    cfg.header_regex = "Server:nginx".to_string();
    let job = job_for(&cfg);
    let mut outcome = plain_outcome(200, "");
    outcome
        .headers
        .push(("Content-Type".to_string(), "text/html".to_string()));
    outcome
        .headers
        .push(("Server".to_string(), "nginx/1.18".to_string()));
    let r = analyze_candidate(&job, "https://example.com:443", None, &outcome, None);
    assert!(r.is_some());
}

#[test]
fn header_regex_with_no_headers_drops() {
    let mut cfg = plain_config();
    cfg.header_regex = "X-Powered-By:PHP".to_string();
    let job = job_for(&cfg);
    let outcome = plain_outcome(200, "");
    let r = analyze_candidate(&job, "https://example.com:443", None, &outcome, None);
    assert!(r.is_none());
}

#[test]
fn tech_scan_failure_drops_when_detection_on() {
    let mut cfg = plain_config();
    cfg.display_tech = true;
    let job = job_for(&cfg);
    let outcome = plain_outcome(200, "");
    let r = analyze_candidate(&job, "https://example.com:443", None, &outcome, None);
    assert!(r.is_none());
}

#[test]
fn tech_names_joined_in_brackets() {
    let mut cfg = plain_config();
    cfg.display_tech = true;
    let job = job_for(&cfg);
    let outcome = plain_outcome(200, "");
    let tech = Some(vec!["React".to_string(), "PHP".to_string()]);
    let m = analyze_candidate(&job, "https://example.com:443", None, &outcome, tech).unwrap();
    assert_eq!(m.tech, "[React,PHP]");
}

#[test]
fn empty_tech_scan_prints_nothing() {
    let mut cfg = plain_config();
    cfg.display_tech = true;
    let job = job_for(&cfg);
    let outcome = plain_outcome(200, "");
    let m = analyze_candidate(&job, "https://example.com:443", None, &outcome, Some(vec![]))
        .unwrap();
    assert_eq!(m.tech, "");
}

#[test]
fn status_field_and_bucket_attached() {
    let mut cfg = plain_config();
    cfg.status_codes = true;
    let job = job_for(&cfg);
    let m = analyze_candidate(
        &job,
        "https://example.com:443",
        None,
        &plain_outcome(503, ""),
        None,
    )
    .unwrap();
    assert_eq!(m.status, "[503]");
    assert_eq!(m.bucket, Some(StatusBucket::ServerError));
}

#[test]
fn unclassifiable_status_drops_when_reported() {
    let mut cfg = plain_config();
    cfg.status_codes = true;
    let job = job_for(&cfg);
    let r = analyze_candidate(
        &job,
        "https://example.com:443",
        None,
        &plain_outcome(600, ""),
        None,
    );
    assert!(r.is_none());
}

#[test]
fn content_fields_formatted() {
    let mut cfg = plain_config();
    cfg.content_length = true;
    cfg.content_type = true;
    cfg.server = true;
    let job = job_for(&cfg);
    let mut outcome = plain_outcome(200, "");
    outcome.content_length = Some(1234);
    outcome.content_type = Some("text/html".to_string());
    outcome.server = Some("nginx".to_string());
    let m = analyze_candidate(&job, "http://example.com:80", None, &outcome, None).unwrap();
    assert_eq!(m.content_length, "[1234]");
    assert_eq!(m.content_type, "[text/html]");
    assert_eq!(m.server, "[nginx]");
}

#[test]
fn absent_content_metadata_formatting() {
    let mut cfg = plain_config();
    cfg.content_length = true;
    cfg.content_type = true;
    cfg.server = true;
    let job = job_for(&cfg);
    let mut outcome = plain_outcome(200, "");
    outcome.content_length = None;
    outcome.content_type = Some(String::new());
    outcome.server = None;
    let m = analyze_candidate(&job, "http://example.com:80", None, &outcome, None).unwrap();
    assert_eq!(m.content_length, "[]");
    assert_eq!(m.content_type, "");
    assert_eq!(m.server, "");
}

#[test]
fn rerun_on_same_inputs_is_identical() {
    let mut cfg = plain_config();
    cfg.display_title = true;
    cfg.status_codes = true;
    cfg.body_regex = "Ex.mple".to_string();
    let job = job_for(&cfg);
    let outcome = plain_outcome(200, "<title>Example</title>");
    let first = analyze_candidate(&job, "https://example.com:443", None, &outcome, None);
    let second = analyze_candidate(&job, "https://example.com:443", None, &outcome, None);
    let a = first.expect("reported");
    let b = second.expect("reported");
    assert_eq!(a.format_line(), b.format_line());
    assert_eq!(a.bucket, b.bucket);
}

#[test]
fn job_build_snapshots_config() {
    let mut cfg = plain_config();
    cfg.body_regex = "b".to_string();
    cfg.header_regex = "h".to_string();
    cfg.path = "/p".to_string();
    cfg.display_title = true;
    let job = Job::build("host.example".to_string(), &cfg);
    assert_eq!(job.host, Some("host.example".to_string()));
    assert_eq!(job.body_regex, Some("b".to_string()));
    assert_eq!(job.header_regex, Some("h".to_string()));
    assert_eq!(job.ports, Some("80,443".to_string()));
    assert_eq!(job.path, Some("/p".to_string()));
    assert_eq!(job.display_title, Some(true));
    assert_eq!(job.display_tech, Some(false));
    assert_eq!(job.status_codes, Some(false));
    assert_eq!(job.content_length, Some(false));
    assert_eq!(job.content_type, Some(false));
    assert_eq!(job.server, Some(false));
}
