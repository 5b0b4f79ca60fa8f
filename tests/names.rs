use bakta_web_backend::sanitize::{sanitize_name, sanitize_origin};

fn only_allowed(s: &str) -> bool {
    s.chars().all(|c| c.is_ascii_alphanumeric() || c == '_' || c == '.')
}

#[test]
fn sanitize_genome_name() {
    let s = sanitize_name("My Genome #1!!");
    assert_eq!(s, "My_Genome_1");
    assert!(only_allowed(&s));
    assert!(s.len() <= 63);
    assert!(s.chars().last().map_or(true, |c| c.is_ascii_alphanumeric()));
}

#[test]
fn sanitize_apostrophe_name() {
    assert_eq!(sanitize_name("Acme Corp's Sample!"), "Acme_Corp_s_Sample");
}

#[test]
fn sanitize_empty_and_symbols() {
    assert_eq!(sanitize_name(""), "");
    assert_eq!(sanitize_name("!!!"), "");
    assert_eq!(sanitize_name("._."), "");
}

#[test]
fn sanitize_collapses_unicode_runs() {
    assert_eq!(sanitize_name("a\u{e9}\u{e8} b"), "a_b");
    assert_eq!(sanitize_name("x.y_z"), "x.y_z");
}

#[test]
fn sanitize_truncates_to_63() {
    let long = "a".repeat(100);
    assert_eq!(sanitize_name(&long), "a".repeat(63));
    let mut tail = "b".repeat(62);
    tail.push_str("_c");
    assert_eq!(sanitize_name(&tail), "b".repeat(62));
}

#[test]
fn sanitize_is_idempotent_on_examples() {
    for name in ["My Genome #1!!", "Acme Corp's Sample!", "  x  ", "a..b", ""] {
        let once = sanitize_name(name);
        assert_eq!(sanitize_name(&once), once);
    }
}

#[test]
fn origin_header_label() {
    assert_eq!(sanitize_origin("https://bakta.example.org"), "bakta.example.org");
    assert_eq!(sanitize_origin("http://localhost:8080"), "http_localhost_8080");
    assert_eq!(sanitize_origin("https"), "https");
}
