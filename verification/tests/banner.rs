use ferox_banner::banner::Banner;
use ferox_banner::checker::{CheckFailure, TransportFailure, UpdateStatus};
use ferox_banner::config::Configuration;
use ferox_banner::sink::{Sink, StringSink};

fn render(banner: &Banner, config: &Configuration) -> String {
    let mut sink = StringSink::new();
    banner.print_to(&mut sink, config).unwrap();
    sink.buf
}

#[test]
fn banner_intialize_without_targets() {
    let config = Configuration::default();
    let banner = Banner::new(&[], &config);
    let mut sink = StringSink::new();
    banner.print_to(&mut sink, &config).unwrap();
    assert!(!sink.buf.contains("Target Url"));
}

#[test]
fn banner_intialize_without_status_codes() {
    let config = Configuration { status_codes: vec![], ..Default::default() };
    let banner = Banner::new(&[String::from("http://localhost")], &config);
    let out = render(&banner, &config);
    assert!(out.contains("Target Url"));
}

#[test]
fn banner_intialize_without_config_file() {
    let config = Configuration { config: String::new(), ..Default::default() };
    let banner = Banner::new(&[String::from("http://localhost")], &config);
    let out = render(&banner, &config);
    assert!(!out.contains("Config File"));
}

#[test]
fn banner_intialize_without_queries() {
    let config = Configuration {
        queries: vec![(String::new(), String::new())],
        ..Default::default()
    };
    let banner = Banner::new(&[String::from("http://localhost")], &config);
    let out = render(&banner, &config);
    assert!(out.contains("Query Parameter"));
}

#[test]
fn banner_needs_update_returns_unknown_with_bad_url() {
    let config = Configuration::default();
    let mut banner = Banner::new(&[String::from("http://localhost")], &config);
    let diag = banner.check_for_updates(Err(TransportFailure::Connection));
    assert!(matches!(banner.update_status, UpdateStatus::Unknown));
    assert!(matches!(diag, Some(CheckFailure::Network)));
}

#[test]
fn banner_needs_update_returns_up_to_date() {
    let config = Configuration::default();
    let mut banner = Banner::new(&[String::from("http://localhost")], &config);
    banner.set_version(String::from("1.1.0"));
    let diag = banner.check_for_updates(Ok("{\"tag_name\":\"v1.1.0\"}"));
    assert!(matches!(banner.update_status, UpdateStatus::UpToDate));
    assert!(diag.is_none());
}

#[test]
fn banner_needs_update_returns_out_of_date() {
    let config = Configuration::default();
    let mut banner = Banner::new(&[String::from("http://localhost")], &config);
    banner.set_version(String::from("1.0.1"));
    let diag = banner.check_for_updates(Ok("{\"tag_name\":\"v1.1.0\"}"));
    assert!(matches!(banner.update_status, UpdateStatus::OutOfDate));
    assert!(diag.is_none());
    let out = render(&banner, &config);
    assert_eq!(out.matches("New Version Available").count(), 1);
}

#[test]
fn banner_needs_update_returns_unknown_on_timeout() {
    let config = Configuration::default();
    let mut banner = Banner::new(&[String::from("http://localhost")], &config);
    let diag = banner.check_for_updates(Err(TransportFailure::Timeout));
    assert!(matches!(banner.update_status, UpdateStatus::Unknown));
    assert!(matches!(diag, Some(CheckFailure::Timeout)));
}

#[test]
fn banner_needs_update_returns_unknown_on_bad_json_response() {
    let config = Configuration::default();
    let mut banner = Banner::new(&[String::from("http://localhost")], &config);
    let diag = banner.check_for_updates(Ok("not json"));
    assert!(matches!(banner.update_status, UpdateStatus::Unknown));
    assert!(matches!(diag, Some(CheckFailure::Deserialization)));
    let out = render(&banner, &config);
    assert!(!out.contains("New Version Available"));
}

#[test]
fn banner_needs_update_returns_unknown_on_json_without_correct_tag() {
    let config = Configuration::default();
    let mut banner = Banner::new(&[String::from("http://localhost")], &config);
    banner.set_version(String::from("1.0.1"));
    let diag = banner.check_for_updates(Ok("{\"no tag_name\": \"doesn't exist\"}"));
    assert!(matches!(banner.update_status, UpdateStatus::Unknown));
    assert!(matches!(diag, Some(CheckFailure::MissingField)));
}

#[test]
fn tag_without_leading_v_compares_equal() {
    let config = Configuration::default();
    let mut banner = Banner::new(&[], &config);
    banner.set_version(String::from("1.1.0"));
    banner.check_for_updates(Ok("{\"tag_name\":\"1.1.0\"}"));
    assert!(matches!(banner.update_status, UpdateStatus::UpToDate));
}

#[test]
fn one_target_entry_per_target() {
    let config = Configuration::default();
    let targets = vec![String::from("http://a"), String::from("http://b")];
    let banner = Banner::new(&targets, &config);
    let out = render(&banner, &config);
    assert_eq!(out.matches("Target Url").count(), 2);
    assert!(out.contains("http://a"));
    assert!(out.contains("http://b"));
}

#[test]
fn empty_deny_list_gives_no_filter_status_line() {
    let config = Configuration::default();
    let banner = Banner::new(&[], &config);
    let out = render(&banner, &config);
    assert!(!out.contains("Status Code Filters"));
}

#[test]
fn non_empty_deny_list_gives_one_filter_status_line_in_order() {
    let config = Configuration { filter_status: vec![301, 302], ..Default::default() };
    let banner = Banner::new(&[], &config);
    let out = render(&banner, &config);
    assert_eq!(out.matches("Status Code Filters").count(), 1);
    let line = out
        .lines()
        .find(|l| l.contains("Status Code Filters"))
        .unwrap();
    let p301 = line.find("301").unwrap();
    let p302 = line.find("302").unwrap();
    assert!(p301 < p302);
}

#[test]
fn verbosity_line_present_iff_level_in_range() {
    for level in 0u8..=6 {
        let config = Configuration { verbosity: level, ..Default::default() };
        let banner = Banner::new(&[], &config);
        let out = render(&banner, &config);
        let expected = if (1..=4).contains(&level) { 1 } else { 0 };
        assert_eq!(out.matches("Verbosity").count(), expected);
    }
}

#[test]
fn recursion_renders_exactly_one_of_two_entries() {
    let infinite = Configuration { depth: 0, ..Default::default() };
    let banner = Banner::new(&[], &infinite);
    let out = render(&banner, &infinite);
    assert_eq!(out.matches("Recursion Depth").count(), 1);
    assert!(out.contains("INFINITE"));
    assert!(!out.contains("Do Not Recurse"));

    let finite = Configuration { depth: 3, ..Default::default() };
    let banner = Banner::new(&[], &finite);
    let out = render(&banner, &finite);
    assert_eq!(out.matches("Recursion Depth").count(), 1);
    assert!(!out.contains("INFINITE"));
    assert!(!out.contains("Do Not Recurse"));

    let disabled = Configuration { no_recursion: true, ..Default::default() };
    let banner = Banner::new(&[], &disabled);
    let out = render(&banner, &disabled);
    assert_eq!(out.matches("Do Not Recurse").count(), 1);
    assert!(!out.contains("Recursion Depth"));
}

#[test]
fn wildcard_filter_line_present_iff_filtering_enabled() {
    let filtering = Configuration::default();
    let banner = Banner::new(&[], &filtering);
    let out = render(&banner, &filtering);
    let line = out.lines().find(|l| l.contains("Filter Wildcards")).unwrap();
    assert!(line.contains("true"));
    assert_eq!(out.matches("Filter Wildcards").count(), 1);

    let disabled = Configuration { dont_filter: true, ..Default::default() };
    let banner = Banner::new(&[], &disabled);
    let out = render(&banner, &disabled);
    assert!(!out.contains("Filter Wildcards"));
}

#[test]
fn rendering_twice_is_byte_identical() {
    let config = Configuration {
        filter_status: vec![404],
        headers: vec![(String::from("Accept"), String::from("*/*"))],
        verbosity: 2,
        ..Default::default()
    };
    let banner = Banner::new(&[String::from("http://localhost")], &config);
    let first = render(&banner, &config);
    let second = render(&banner, &config);
    assert_eq!(first.into_bytes(), second.into_bytes());
}

#[test]
fn decimal_rendering_is_exact() {
    assert_eq!(ferox_banner::text::dec_string(0), "0");
    assert_eq!(ferox_banner::text::dec_string(7), "7");
    assert_eq!(ferox_banner::text::dec_string(12345), "12345");
    let config = Configuration { threads: 50, ..Default::default() };
    let banner = Banner::new(&[], &config);
    let out = render(&banner, &config);
    let line = out.lines().find(|l| l.contains("Threads")).unwrap();
    assert!(line.contains("50"));
}

#[test]
fn suppressed_values_leave_no_placeholder() {
    let config = Configuration::default();
    let banner = Banner::new(&[], &config);
    let out = render(&banner, &config);
    for label in ["Proxy", "Replay Proxy", "Output File", "Debugging Log", "Extensions",
        "Insecure", "Follow Redirects", "Add Slash", "Time Limit", "Concurrent Scan Limit"]
    {
        assert!(!out.contains(label), "unexpected line: {label}");
    }
}

#[test]
fn conditional_flags_render_when_set() {
    let config = Configuration {
        extract_links: true,
        json: true,
        insecure: true,
        redirects: true,
        add_slash: true,
        scan_limit: 2,
        time_limit: String::from("10m"),
        output: String::from("out.txt"),
        debug_log: String::from("debug.log"),
        extensions: vec![String::from("php"), String::from("html")],
        proxy: String::from("http://proxy:8080"),
        replay_proxy: String::from("http://replay:8080"),
        replay_codes: vec![200, 302],
        filter_size: vec![1024],
        filter_similar: vec![String::from("http://similar")],
        filter_word_count: vec![20],
        filter_line_count: vec![5],
        filter_regex: vec![String::from("^error")],
        ..Default::default()
    };
    let banner = Banner::new(&[], &config);
    let out = render(&banner, &config);
    for label in ["Extract Links", "JSON Output", "Insecure", "Follow Redirects", "Add Slash",
        "Filter Wildcards", "Concurrent Scan Limit", "Time Limit", "Output File",
        "Debugging Log", "Extensions", "Proxy", "Replay Proxy", "Replay Proxy Codes",
        "Size Filter", "Similarity Filter", "Word Count Filter", "Line Count Filter",
        "Regex Filter"]
    {
        assert!(out.contains(label), "missing line: {label}");
    }
    assert!(out.contains("php, html"));
    assert!(out.contains("10m"));
}

#[test]
fn header_and_footer_frame_the_report() {
    let config = Configuration::default();
    let banner = Banner::new(&[], &config);
    let out = render(&banner, &config);
    assert!(out.contains("ver: 2.3.1"));
    assert!(out.contains("Press ["));
    let header_pos = out.find("ver:").unwrap();
    let footer_pos = out.find("Press [").unwrap();
    assert!(header_pos < footer_pos);
}
