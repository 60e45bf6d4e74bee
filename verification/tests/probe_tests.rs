use domain_probe::probe::{build_urls, check_all_domains, check_domain, Resolver, Transport};

#[test]
fn candidate_order_for_a_domain() {
    let urls = build_urls("example.com");
    assert_eq!(urls.len(), 4);
    assert_eq!(urls[0], "https://www.example.com");
    assert_eq!(urls[1], "https://example.com");
    assert_eq!(urls[2], "http://www.example.com");
    assert_eq!(urls[3], "http://example.com");
}

#[test]
fn terminal_failure_returns_sentinel() {
    let replies = vec![Transport::Error, Transport::Error, Transport::Error, Transport::Error];
    let r = check_domain("example.com", &replies);
    assert_eq!(r.code, 0);
    assert_eq!(r.url, "example.com");
}

#[test]
fn status_passes_through_verbatim() {
    // The second candidate answers 404: a 4xx still terminates the fallback.
    let replies = vec![
        Transport::Error,
        Transport::Status(404),
        Transport::Status(200),
        Transport::Error,
    ];
    let r = check_domain("example.com", &replies);
    assert_eq!(r.code, 404);
    assert_eq!(r.url, "https://example.com");
}

#[test]
fn first_candidate_wins_on_success() {
    let replies = vec![
        Transport::Status(200),
        Transport::Error,
        Transport::Error,
        Transport::Error,
    ];
    let r = check_domain("example.com", &replies);
    assert_eq!(r.code, 200);
    assert_eq!(r.url, "https://www.example.com");
}

#[test]
fn server_error_status_terminates_too() {
    let replies = vec![
        Transport::Error,
        Transport::Error,
        Transport::Error,
        Transport::Status(500),
    ];
    let r = check_domain("example.com", &replies);
    assert_eq!(r.code, 500);
    assert_eq!(r.url, "http://example.com");
}

#[test]
fn batch_keeps_input_order() {
    let domains = vec![String::from("a.test"), String::from("b.test")];
    let replies = vec![
        vec![Transport::Error, Transport::Status(301), Transport::Error, Transport::Error],
        vec![Transport::Error, Transport::Error, Transport::Error, Transport::Error],
    ];
    let rs = check_all_domains(&domains, &replies);
    assert_eq!(rs.len(), 2);
    assert_eq!(rs[0].code, 301);
    assert_eq!(rs[0].url, "https://a.test");
    assert_eq!(rs[1].code, 0);
    assert_eq!(rs[1].url, "b.test");
}

#[test]
fn resolver_walks_candidates_in_order() {
    let mut r = Resolver::start("example.com");
    assert_eq!(r.result().map(|o| o.code), None);

    let u0 = r.pending_url().expect("first candidate pending");
    assert_eq!(u0, "https://www.example.com");
    r.step(Transport::Error);

    let u1 = r.pending_url().expect("second candidate pending");
    assert_eq!(u1, "https://example.com");
    r.step(Transport::Status(301));

    assert!(r.pending_url().is_none());
    let outcome = r.result().expect("decided after a status reply");
    assert_eq!(outcome.code, 301);
    assert_eq!(outcome.url, "https://example.com");
}

#[test]
fn resolver_exhaustion_yields_sentinel() {
    let mut r = Resolver::start("badhost.invalid");
    let mut attempted: Vec<String> = Vec::new();
    while let Some(url) = r.pending_url() {
        attempted.push(url);
        r.step(Transport::Error);
    }
    assert_eq!(
        attempted,
        vec![
            String::from("https://www.badhost.invalid"),
            String::from("https://badhost.invalid"),
            String::from("http://www.badhost.invalid"),
            String::from("http://badhost.invalid"),
        ]
    );
    let outcome = r.result().expect("decided after exhaustion");
    assert_eq!(outcome.code, 0);
    assert_eq!(outcome.url, "badhost.invalid");
}
