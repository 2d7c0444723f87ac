use link_preview::handler::{
    complete, prepare, user_agent_or_default, FetchFault, FetchOutcome, FetchRequest,
    PreviewError, DEFAULT_USER_AGENT,
};

fn request() -> FetchRequest {
    prepare(Some("https://www.example.com/blog/post"), None).unwrap()
}

fn response(status: u16, body: &str) -> FetchOutcome {
    FetchOutcome::Response { status, body: body.to_string() }
}

#[test]
fn prepare_refuses_a_missing_address() {
    assert_eq!(prepare(None, None), Err(PreviewError::InvalidInput));
    assert_eq!(prepare(None, Some(b"curl/8.0")), Err(PreviewError::InvalidInput));
}

#[test]
fn prepare_refuses_an_address_that_is_not_an_absolute_url() {
    for address in ["", "not a url", "/blog/post", "example.com", "https://", "http://[::1"] {
        assert_eq!(prepare(Some(address), None), Err(PreviewError::InvalidInput));
    }
}

#[test]
fn prepare_asks_for_the_address_as_given() {
    let request = prepare(Some("https://example.com/blog/post?x=1#top"), None).unwrap();
    assert_eq!(request.target.as_str(), "https://example.com/blog/post?x=1#top");
}

#[test]
fn prepare_falls_back_to_the_default_user_agent() {
    let request = request();
    assert_eq!(request.user_agent, DEFAULT_USER_AGENT.as_bytes());
    assert_eq!(
        request.user_agent,
        b"Mozilla/5.0 (X11; Linux i686; rv:112.0) Gecko/20100101 Firefox/112.0"
    );
}

#[test]
fn prepare_forwards_the_callers_user_agent_byte_for_byte() {
    let odd: &[u8] = b" Odd  Agent/1.0 (x; y) ";
    let request = prepare(Some("https://example.com/"), Some(odd)).unwrap();
    assert_eq!(request.user_agent, odd);
    let empty = prepare(Some("https://example.com/"), Some(b"")).unwrap();
    assert_eq!(request.target, empty.target);
    assert!(empty.user_agent.is_empty());
}

#[test]
fn prepare_forwards_a_user_agent_that_is_not_text() {
    let bytes: &[u8] = &[0x41, 0xff, 0xfe, 0x80, 0x20, 0xe9];
    let request = prepare(Some("https://example.com/"), Some(bytes)).unwrap();
    assert_eq!(request.user_agent, bytes);
    assert_eq!(prepare(Some("not a url"), Some(bytes)), Err(PreviewError::InvalidInput));
}

#[test]
fn a_fetch_that_failed_gives_a_fetch_failure() {
    let outcome = FetchOutcome::Failed { detail: "dns error: no such host".to_string() };
    assert_eq!(
        complete(&request(), outcome),
        Err(PreviewError::FetchFailure(FetchFault::Transport(
            "dns error: no such host".to_string()
        )))
    );
}

#[test]
fn a_status_outside_2xx_gives_a_fetch_failure() {
    let page = "<title>Not found</title>";
    for status in [0, 100, 199, 300, 301, 404, 500, 503, 999, u16::MAX] {
        assert_eq!(
            complete(&request(), response(status, page)),
            Err(PreviewError::FetchFailure(FetchFault::Status(status)))
        );
    }
}

#[test]
fn every_2xx_status_gives_a_preview() {
    for status in [200, 201, 204, 206, 299] {
        let result = complete(&request(), response(status, "<title>B</title>")).unwrap();
        assert_eq!(result.title().map(|s| s.as_str()), Some("B"));
        assert_eq!(result.domain().map(|s| s.as_str()), Some("example.com"));
    }
}

#[test]
fn a_body_without_any_tag_still_gives_a_preview() {
    for body in ["", "plain text", "{\"json\": true}", "<<<< >>>>"] {
        let result = complete(&request(), response(200, body)).unwrap();
        assert_eq!(result.title(), None);
        assert_eq!(result.description(), None);
        assert_eq!(result.favicon(), None);
        assert_eq!(result.image(), None);
        assert_eq!(result.canonical_url(), None);
        assert_eq!(result.site_name(), None);
        assert_eq!(result.content_type(), None);
        assert_eq!(result.domain().map(|s| s.as_str()), Some("example.com"));
    }
}

#[test]
fn complete_reads_the_page_against_the_target() {
    let body = "<meta property=\"og:title\" content=\"A\"><title>B</title>\
                <link rel=\"icon\" href=\"/favicon.ico\">\
                <meta property=\"og:image\" content=\"img/cover.png\">";
    let target = prepare(Some("https://example.com/blog/post"), None).unwrap();
    let result = complete(&target, response(200, body)).unwrap();
    assert_eq!(result.title().map(|s| s.as_str()), Some("A"));
    assert_eq!(result.favicon().map(|u| u.as_str()), Some("https://example.com/favicon.ico"));
    assert_eq!(
        result.image().map(|u| u.as_str()),
        Some("https://example.com/blog/img/cover.png")
    );
}

#[test]
fn failures_are_reported_under_their_own_statuses() {
    assert_eq!(PreviewError::InvalidInput.status_code(), 400);
    assert_eq!(
        PreviewError::FetchFailure(FetchFault::Transport("timed out".to_string())).status_code(),
        502
    );
    assert_eq!(PreviewError::FetchFailure(FetchFault::Status(404)).status_code(), 502);
    assert_eq!(PreviewError::ParseFailure.status_code(), 422);
}

#[test]
fn user_agent_is_the_callers_or_the_default() {
    assert_eq!(user_agent_or_default(Some(b"curl/8.0")), b"curl/8.0");
    assert_eq!(user_agent_or_default(Some(&[0xff, 0x00])), [0xff, 0x00]);
    assert!(user_agent_or_default(Some(b"")).is_empty());
    assert_eq!(user_agent_or_default(None), DEFAULT_USER_AGENT.as_bytes());
}
