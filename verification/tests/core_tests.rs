use watchtower::alert::{build_alert, build_alert_now, headline};
use watchtower::domain::default_timeout;
use watchtower::numeral::u64_to_dec;
use watchtower::outcome::{
    classify_failure, failure_message, outcome_from_failure, outcome_from_response, CheckResult,
    FailureKind,
};
use watchtower::summary::{failures_of, summarize, summarize_at};

fn result(name: &str, success: bool) -> CheckResult {
    CheckResult {
        name: name.to_string(),
        url: format!("https://{}.example", name),
        success,
        error: if success { None } else { Some("HTTP 500".to_string()) },
        status_code: if success { Some(200) } else { Some(500) },
        response_time_ms: Some(42),
    }
}

#[test]
fn default_timeout_is_ten_seconds() {
    assert_eq!(default_timeout(), 10);
}

#[test]
fn decimal_rendering_exact_values() {
    assert_eq!(u64_to_dec(0), "0");
    assert_eq!(u64_to_dec(7), "7");
    assert_eq!(u64_to_dec(10), "10");
    assert_eq!(u64_to_dec(404), "404");
    assert_eq!(u64_to_dec(1000), "1000");
    assert_eq!(u64_to_dec(u64::MAX), "18446744073709551615");
}

#[test]
fn success_statuses_yield_success_without_error() {
    for status in [200u16, 204, 250, 299] {
        let r = outcome_from_response("a".to_string(), "https://a.example".to_string(), status, 5);
        assert!(r.success);
        assert_eq!(r.error, None);
        assert_eq!(r.status_code, Some(status));
        assert_eq!(r.response_time_ms, Some(5));
    }
}

#[test]
fn http_404_yields_failure_with_named_status() {
    let r = outcome_from_response("a".to_string(), "https://a.example".to_string(), 404, 31);
    assert!(!r.success);
    assert_eq!(r.error, Some("HTTP 404".to_string()));
    assert_eq!(r.status_code, Some(404));
    assert_eq!(r.response_time_ms, Some(31));
}

#[test]
fn statuses_outside_2xx_yield_failure() {
    for status in [100u16, 199, 300, 301, 500, 503] {
        let r = outcome_from_response("a".to_string(), "https://a.example".to_string(), status, 5);
        assert!(!r.success);
        assert_eq!(r.error, Some(format!("HTTP {}", status)));
    }
}

#[test]
fn timeout_outranks_every_other_cause() {
    let k = classify_failure(true, true, true, "ignored".to_string());
    assert!(matches!(k, FailureKind::Timeout));
    assert_eq!(failure_message(&k), "Timeout");
}

#[test]
fn connection_failure_is_classified_and_named() {
    let k = classify_failure(false, true, false, "ignored".to_string());
    assert!(matches!(k, FailureKind::ConnectionFailed));
    let r = outcome_from_failure("a".to_string(), "https://a.example".to_string(), &k, 12);
    assert!(!r.success);
    assert_eq!(r.status_code, None);
    assert_eq!(r.error, Some("Connection failed".to_string()));
    assert_eq!(r.response_time_ms, Some(12));
}

#[test]
fn rejected_request_is_classified_and_named() {
    let k = classify_failure(false, false, true, "ignored".to_string());
    assert!(matches!(k, FailureKind::RequestFailed));
    assert_eq!(failure_message(&k), "Request failed");
}

#[test]
fn unclassified_failure_keeps_the_description() {
    let k = classify_failure(false, false, false, "tls handshake broke".to_string());
    let r = outcome_from_failure("a".to_string(), "https://a.example".to_string(), &k, 3);
    assert_eq!(r.error, Some("Error: tls handshake broke".to_string()));
    assert_eq!(r.status_code, None);
}

#[test]
fn timeout_failure_outcome() {
    let k = classify_failure(true, false, false, String::new());
    let r = outcome_from_failure("slow".to_string(), "https://slow.example".to_string(), &k, 10000);
    assert!(!r.success);
    assert_eq!(r.error, Some("Timeout".to_string()));
    assert_eq!(r.status_code, None);
    assert_eq!(r.response_time_ms, Some(10000));
}

#[test]
fn summary_counts_partition_the_outcomes() {
    let outcomes = vec![
        result("a", true),
        result("b", false),
        result("c", true),
        result("d", false),
        result("e", false),
    ];
    let s = summarize(outcomes);
    assert_eq!(s.total_checked, 5);
    assert_eq!(s.successful, 2);
    assert_eq!(s.failed, 3);
    assert_eq!(s.total_checked, s.successful + s.failed);
    assert_eq!(s.results.len(), 5);
    assert_eq!(s.results[0].name, "a");
    assert_eq!(s.results[4].name, "e");
}

#[test]
fn summary_of_no_outcomes_is_empty() {
    let s = summarize(Vec::new());
    assert_eq!(s.total_checked, 0);
    assert_eq!(s.successful, 0);
    assert_eq!(s.failed, 0);
    assert!(s.results.is_empty());
}

#[test]
fn summarize_twice_agrees_except_for_the_timestamp() {
    let outcomes = vec![result("a", true), result("b", false)];
    let again = vec![result("a", true), result("b", false)];
    let s1 = summarize(outcomes);
    let s2 = summarize(again);
    assert_eq!(s1.total_checked, s2.total_checked);
    assert_eq!(s1.successful, s2.successful);
    assert_eq!(s1.failed, s2.failed);
    assert_eq!(s1.results.len(), s2.results.len());
    for (a, b) in s1.results.iter().zip(s2.results.iter()) {
        assert_eq!(a.name, b.name);
        assert_eq!(a.success, b.success);
    }
}

#[test]
fn summarize_at_keeps_the_given_timestamp() {
    let s = summarize_at(vec![result("a", true)], "2024-01-01T00:00:00Z".to_string());
    assert_eq!(s.timestamp, "2024-01-01T00:00:00Z");
    assert_eq!(s.total_checked, 1);
    assert_eq!(s.successful, 1);
    assert_eq!(s.failed, 0);
}

#[test]
fn failures_keep_join_order() {
    let outcomes = vec![
        result("a", true),
        result("b", false),
        result("c", false),
        result("d", true),
    ];
    let f = failures_of(&outcomes);
    assert_eq!(f.len(), 2);
    assert_eq!(f[0].name, "b");
    assert_eq!(f[1].name, "c");
}

#[test]
fn no_failures_means_no_alert() {
    let none: Vec<CheckResult> = Vec::new();
    assert!(build_alert(&none, "t".to_string()).is_none());
    assert!(build_alert_now(&none).is_none());
    let all_up = failures_of(&vec![result("a", true), result("b", true)]);
    assert!(build_alert_now(&all_up).is_none());
}

#[test]
fn headline_is_singular_for_one_failure() {
    assert_eq!(headline(1), "Uptime Alert: 1 domain is down");
}

#[test]
fn headline_is_plural_for_two_failures() {
    assert_eq!(headline(2), "Uptime Alert: 2 domains are down");
}

#[test]
fn alert_has_one_entry_block_per_failure_in_order() {
    let failures = vec![result("A", false), result("B", false)];
    let m = build_alert(&failures, "2024-01-01 00:00:00 UTC".to_string()).unwrap();

    assert_eq!(m.text, "🚨 *Uptime Alert: 2 domains are down*");
    assert_eq!(m.blocks.len(), 5);

    let header = &m.blocks[0];
    assert_eq!(header.block_type, "header");
    let header_text = header.text.as_ref().unwrap();
    assert_eq!(header_text.text_type, "plain_text");
    assert_eq!(header_text.text, "Uptime Alert: 2 domains are down");
    assert!(header.fields.is_none());

    let time = &m.blocks[1];
    assert_eq!(time.block_type, "section");
    let time_text = time.text.as_ref().unwrap();
    assert_eq!(time_text.text_type, "mrkdwn");
    assert_eq!(time_text.text, "*Check Time:* 2024-01-01 00:00:00 UTC");

    let divider = &m.blocks[2];
    assert_eq!(divider.block_type, "divider");
    assert!(divider.text.is_none());
    assert!(divider.fields.is_none());

    for (i, name) in ["A", "B"].iter().enumerate() {
        let entry = &m.blocks[3 + i];
        assert_eq!(entry.block_type, "section");
        assert!(entry.text.is_none());
        let fields = entry.fields.as_ref().unwrap();
        assert_eq!(fields.len(), 4);
        assert_eq!(fields[0].text, format!("*Domain:*\n{}", name));
        assert_eq!(fields[1].text, "*Error:*\nHTTP 500");
        assert_eq!(
            fields[2].text,
            format!("*URL:*\n<https://{}.example|https://{}.example>", name, name)
        );
        assert_eq!(fields[3].text, "*Response Time:*\n42ms");
        for field in fields.iter() {
            assert_eq!(field.text_type, "mrkdwn");
        }
    }
}

#[test]
fn alert_for_one_failure_reads_singular() {
    let failures = vec![result("A", false)];
    let m = build_alert(&failures, "t".to_string()).unwrap();
    assert_eq!(m.text, "🚨 *Uptime Alert: 1 domain is down*");
    assert_eq!(m.blocks.len(), 4);
    let header_text = m.blocks[0].text.as_ref().unwrap();
    assert_eq!(header_text.text, "Uptime Alert: 1 domain is down");
}

#[test]
fn alert_entry_falls_back_for_missing_error_and_time() {
    let bare = CheckResult {
        name: "x".to_string(),
        url: "https://x.example".to_string(),
        success: false,
        error: None,
        status_code: None,
        response_time_ms: None,
    };
    let m = build_alert(&vec![bare], "t".to_string()).unwrap();
    let fields = m.blocks[3].fields.as_ref().unwrap();
    assert_eq!(fields[1].text, "*Error:*\nUnknown error");
    assert_eq!(fields[3].text, "*Response Time:*\n0ms");
}
