use link_preview::document::ParsedDocument;
use link_preview::fields::{
    get_description, get_domain, get_favicon, get_image, get_og_url, get_sitename, get_title,
    get_type, link_target, title_from_title_tag, title_with_fallback,
};
use link_preview::resolver::AbsoluteUrl;

fn target() -> AbsoluteUrl {
    AbsoluteUrl::parse("https://example.com/blog/post").unwrap()
}

fn parse(markup: &str) -> ParsedDocument<'_> {
    ParsedDocument::parse(markup).unwrap()
}

#[test]
fn open_graph_title_wins_over_the_title_element() {
    let dom = parse("<meta property=\"og:title\" content=\"A\"><title>B</title>");
    assert_eq!(get_title(&dom).as_deref(), Some("A"));
}

#[test]
fn open_graph_title_wins_wherever_it_stands() {
    let dom = parse("<title>B</title><meta property=\"og:title\" content=\"A\">");
    assert_eq!(get_title(&dom).as_deref(), Some("A"));
}

#[test]
fn title_element_is_the_fallback() {
    let dom = parse("<title>B</title>");
    assert_eq!(get_title(&dom).as_deref(), Some("B"));
}

#[test]
fn title_element_is_the_fallback_for_an_open_graph_title_without_content() {
    let dom = parse("<meta property=\"og:title\"><title>B</title>");
    assert_eq!(get_title(&dom).as_deref(), Some("B"));
}

#[test]
fn a_page_without_any_title_has_none() {
    let dom = parse("<meta property=\"og:description\" content=\"D\"><p>text</p>");
    assert_eq!(get_title(&dom), None);
    assert_eq!(get_description(&dom).as_deref(), Some("D"));
}

#[test]
fn title_from_title_tag_reads_the_first_title_element() {
    let dom = parse("<head><title>One</title></head><svg><title>Two</title></svg>");
    assert_eq!(title_from_title_tag(&dom).as_deref(), Some("One"));
    assert_eq!(title_from_title_tag(&parse("<p>none</p>")), None);
}

#[test]
fn description_has_no_fallback() {
    let dom = parse("<meta name=\"description\" content=\"plain\"><title>B</title>");
    assert_eq!(get_description(&dom), None);
}

#[test]
fn domain_is_the_canonical_host_of_the_target() {
    let www = AbsoluteUrl::parse("https://www.example.com/blog/post").unwrap();
    assert_eq!(get_domain(&www).as_deref(), Some("example.com"));
    assert_eq!(get_domain(&target()).as_deref(), Some("example.com"));
    let hostless = AbsoluteUrl::parse("data:text/html,<title>x</title>").unwrap();
    assert_eq!(get_domain(&hostless), None);
}

#[test]
fn favicon_is_resolved_against_the_target() {
    let dom = parse("<link rel=\"icon\" href=\"/favicon.ico\">");
    let favicon = get_favicon(&dom, &target()).unwrap();
    assert_eq!(favicon.as_str(), "https://example.com/favicon.ico");
}

#[test]
fn favicon_is_missing_without_an_icon_link() {
    let stylesheet = parse("<link rel=\"stylesheet\" href=\"/style.css\">");
    assert_eq!(get_favicon(&stylesheet, &target()), None);
    let without_href = parse("<link rel=\"icon\">");
    assert_eq!(get_favicon(&without_href, &target()), None);
}

#[test]
fn favicon_is_missing_where_it_cannot_be_resolved() {
    let dom = parse("<link rel=\"icon\" href=\"http://[::1\">");
    assert_eq!(get_favicon(&dom, &target()), None);
    let icon = parse("<link rel=\"icon\" href=\"/favicon.ico\">");
    let mail = AbsoluteUrl::parse("mailto:someone@example.com").unwrap();
    assert_eq!(get_favicon(&icon, &mail), None);
}

#[test]
fn image_is_resolved_against_the_target() {
    let dom = parse("<meta property=\"og:image\" content=\"img/cover.png\">");
    let image = get_image(&dom, &target()).unwrap();
    assert_eq!(image.as_str(), "https://example.com/blog/img/cover.png");
}

#[test]
fn image_that_is_absolute_stays_as_it_is() {
    let dom = parse("<meta property=\"og:image\" content=\"https://cdn.example.net/c.png\">");
    let image = get_image(&dom, &target()).unwrap();
    assert_eq!(image.as_str(), "https://cdn.example.net/c.png");
    assert_eq!(get_image(&parse("<img src=\"a.png\">"), &target()), None);
}

#[test]
fn og_url_is_handed_on_as_written() {
    let relative = parse("<meta property=\"og:url\" content=\"../other page\">");
    assert_eq!(get_og_url(&relative).as_deref(), Some("../other page"));
    let absolute = parse("<meta property=\"og:url\" content=\"https://example.org/p\">");
    assert_eq!(get_og_url(&absolute).as_deref(), Some("https://example.org/p"));
    assert_eq!(get_og_url(&parse("<title>B</title>")), None);
}

#[test]
fn sitename_and_type_come_from_their_own_tags() {
    let dom = parse(
        "<meta property=\"og:site_name\" content=\"Example\">\
         <meta property=\"og:type\" content=\"article\">",
    );
    assert_eq!(get_sitename(&dom).as_deref(), Some("Example"));
    assert_eq!(get_type(&dom).as_deref(), Some("article"));
    assert_eq!(get_title(&dom), None);
    let other = parse("<meta property=\"og:title\" content=\"A\">");
    assert_eq!(get_sitename(&other), None);
    assert_eq!(get_type(&other), None);
}

#[test]
fn a_known_open_graph_title_is_the_title() {
    let dom = parse("<title>B</title>");
    assert_eq!(title_with_fallback(Some("A".to_string()), &dom).as_deref(), Some("A"));
    assert_eq!(title_with_fallback(Some(String::new()), &dom).as_deref(), Some(""));
}

#[test]
fn without_an_open_graph_title_the_title_element_is_read() {
    assert_eq!(title_with_fallback(None, &parse("<title>B</title>")).as_deref(), Some("B"));
    assert_eq!(title_with_fallback(None, &parse("<p>no title</p>")), None);
}

#[test]
fn link_target_resolves_a_reference_that_was_found() {
    let found = link_target(&target(), Some("img/cover.png".to_string())).unwrap();
    assert_eq!(found.as_str(), "https://example.com/blog/img/cover.png");
}

#[test]
fn link_target_is_missing_without_a_reference_or_a_way_to_resolve_it() {
    assert_eq!(link_target(&target(), None), None);
    assert_eq!(link_target(&target(), Some("http://[::1".to_string())), None);
}

#[test]
fn a_title_is_read_however_deep_its_text_lies() {
    let deep = format!("<title>{}x</title>", "<b>".repeat(100_000));
    assert_eq!(get_title(&parse(&deep)).as_deref(), Some("x"));
    let with_open_graph = format!("<meta property=\"og:title\" content=\"A\">{deep}");
    assert_eq!(get_title(&parse(&with_open_graph)).as_deref(), Some("A"));
}
