//! The rule for each field of a preview: where in the page it is looked for,
//! and in what order. No rule can fail: a page that lacks what a rule looks
//! for leaves that field empty.

use crate::document::{
    ascii_upto, attr_from_first_query_match, char_breaks, first_attribute_in, first_match_in,
    first_text_in, lemma_breaks_of_ascii, markup_first_match, selector_breaks, ParsedDocument,
};
use crate::resolver::{canonical_host_of, resolved_against, url_parses, AbsoluteUrl};
use vstd::prelude::*;

verus! {

/// Selects the Open Graph title tag.
pub const OG_TITLE: &'static str = "meta[property='og:title']";

/// Selects the Open Graph description tag.
pub const OG_DESCRIPTION: &'static str = "meta[property='og:description']";

/// Selects the Open Graph image tag.
pub const OG_IMAGE: &'static str = "meta[property='og:image']";

/// Selects the Open Graph tag for the page's own address.
pub const OG_URL: &'static str = "meta[property='og:url']";

/// Selects the Open Graph site name tag.
pub const OG_SITE_NAME: &'static str = "meta[property='og:site_name']";

/// Selects the Open Graph content type tag.
pub const OG_TYPE: &'static str = "meta[property='og:type']";

/// Selects the link to the page's icon.
pub const ICON: &'static str = "link[rel='icon']";

/// Selects the document's `title` element.
pub const TITLE: &'static str = "title";

/// The attribute that holds the value of an Open Graph tag.
pub const CONTENT: &'static str = "content";

/// The attribute that holds the target of a link.
pub const HREF: &'static str = "href";

/// The value that the Open Graph tag selected by `selector` carries in
/// `markup`.
pub open spec fn open_graph_value(markup: Seq<char>, selector: Seq<char>) -> Option<Seq<char>> {
    first_attribute_in(markup, selector, CONTENT@)
}

/// The title of the page `markup`: the Open Graph title where the page has
/// one, else the text of its `title` element.
pub open spec fn title_of(markup: Seq<char>) -> Option<Seq<char>> {
    match open_graph_value(markup, OG_TITLE@) {
        Some(title) => Some(title),
        None => first_text_in(markup, TITLE@),
    }
}

/// The absolute URL behind a reference found in a page at `address`. A
/// missing reference and one that cannot be resolved both give `None`.
pub open spec fn linked_from(address: Seq<char>, reference: Option<Seq<char>>) -> Option<
    Seq<char>,
> {
    match reference {
        Some(reference) => resolved_against(address, reference),
        None => None,
    }
}

/// The icon of the page `markup` at `address`.
pub open spec fn favicon_of(markup: Seq<char>, address: Seq<char>) -> Option<Seq<char>> {
    linked_from(address, first_attribute_in(markup, ICON@, HREF@))
}

/// The preview image of the page `markup` at `address`.
pub open spec fn image_of(markup: Seq<char>, address: Seq<char>) -> Option<Seq<char>> {
    linked_from(address, open_graph_value(markup, OG_IMAGE@))
}

/// Every selector of this module is read: none holds more than five bytes
/// outside of its names, so what it finds is what the tree answers for it.
pub proof fn lemma_selectors_are_read(markup: Seq<char>)
    ensures
        first_match_in(markup, OG_TITLE@) == markup_first_match(markup, OG_TITLE@),
        first_match_in(markup, OG_DESCRIPTION@) == markup_first_match(markup, OG_DESCRIPTION@),
        first_match_in(markup, OG_IMAGE@) == markup_first_match(markup, OG_IMAGE@),
        first_match_in(markup, OG_URL@) == markup_first_match(markup, OG_URL@),
        first_match_in(markup, OG_SITE_NAME@) == markup_first_match(markup, OG_SITE_NAME@),
        first_match_in(markup, OG_TYPE@) == markup_first_match(markup, OG_TYPE@),
        first_match_in(markup, ICON@) == markup_first_match(markup, ICON@),
        first_match_in(markup, TITLE@) == markup_first_match(markup, TITLE@),
{
    lemma_selector_is_plain_og_title();
    lemma_selector_is_plain_og_description();
    lemma_selector_is_plain_og_image();
    lemma_selector_is_plain_og_url();
    lemma_selector_is_plain_og_site_name();
    lemma_selector_is_plain_og_type();
    lemma_selector_is_plain_icon();
    lemma_selector_is_plain_title();
}

proof fn lemma_selector_is_plain_og_title()
    ensures
        selector_breaks(OG_TITLE@) == 5,
{
    reveal_strlit("meta[property='og:title']");
    reveal_with_fuel(char_breaks, 32);
    reveal_with_fuel(ascii_upto, 32);
    lemma_breaks_of_ascii(OG_TITLE@);
}

proof fn lemma_selector_is_plain_og_description()
    ensures
        selector_breaks(OG_DESCRIPTION@) == 5,
{
    reveal_strlit("meta[property='og:description']");
    reveal_with_fuel(char_breaks, 32);
    reveal_with_fuel(ascii_upto, 32);
    lemma_breaks_of_ascii(OG_DESCRIPTION@);
}

proof fn lemma_selector_is_plain_og_image()
    ensures
        selector_breaks(OG_IMAGE@) == 5,
{
    reveal_strlit("meta[property='og:image']");
    reveal_with_fuel(char_breaks, 32);
    reveal_with_fuel(ascii_upto, 32);
    lemma_breaks_of_ascii(OG_IMAGE@);
}

proof fn lemma_selector_is_plain_og_url()
    ensures
        selector_breaks(OG_URL@) == 5,
{
    reveal_strlit("meta[property='og:url']");
    reveal_with_fuel(char_breaks, 32);
    reveal_with_fuel(ascii_upto, 32);
    lemma_breaks_of_ascii(OG_URL@);
}

proof fn lemma_selector_is_plain_og_site_name()
    ensures
        selector_breaks(OG_SITE_NAME@) == 5,
{
    reveal_strlit("meta[property='og:site_name']");
    reveal_with_fuel(char_breaks, 32);
    reveal_with_fuel(ascii_upto, 32);
    lemma_breaks_of_ascii(OG_SITE_NAME@);
}

proof fn lemma_selector_is_plain_og_type()
    ensures
        selector_breaks(OG_TYPE@) == 5,
{
    reveal_strlit("meta[property='og:type']");
    reveal_with_fuel(char_breaks, 32);
    reveal_with_fuel(ascii_upto, 32);
    lemma_breaks_of_ascii(OG_TYPE@);
}

proof fn lemma_selector_is_plain_icon()
    ensures
        selector_breaks(ICON@) == 5,
{
    reveal_strlit("link[rel='icon']");
    reveal_with_fuel(char_breaks, 32);
    reveal_with_fuel(ascii_upto, 32);
    lemma_breaks_of_ascii(ICON@);
}

proof fn lemma_selector_is_plain_title()
    ensures
        selector_breaks(TITLE@) == 0,
{
    reveal_strlit("title");
    reveal_with_fuel(char_breaks, 32);
    reveal_with_fuel(ascii_upto, 32);
    lemma_breaks_of_ascii(TITLE@);
}

/// Where a page carries an Open Graph title, that is its title, whatever
/// its `title` element says. Where it carries none, its title is the text of
/// the `title` element, and a page with neither has no title.
pub proof fn lemma_title_prefers_open_graph(markup: Seq<char>)
    ensures
        open_graph_value(markup, OG_TITLE@) is Some ==> title_of(markup) == open_graph_value(
            markup,
            OG_TITLE@,
        ),
        open_graph_value(markup, OG_TITLE@) is None ==> title_of(markup) == first_text_in(
            markup,
            TITLE@,
        ),
{
}

/// The text of the document's first `title` element.
pub fn title_from_title_tag(dom: &ParsedDocument<'_>) -> (title: Option<String>)
    ensures
        title.deep_view() == first_text_in(dom@, TITLE@),
{
    match dom.first_match(TITLE) {
        Some(element) => dom.inner_text(element),
        None => None,
    }
}

/// The title of a page whose Open Graph title is already known. Where there
/// is one, it is the title and the page is not looked at; the `title`
/// element is read only when there is none.
pub fn title_with_fallback(open_graph_title: Option<String>, dom: &ParsedDocument<'_>) -> (title:
    Option<String>)
    ensures
        title.deep_view() == match open_graph_title.deep_view() {
            Some(found) => Some(found),
            None => first_text_in(dom@, TITLE@),
        },
{
    match open_graph_title {
        Some(found) => Some(found),
        None => title_from_title_tag(dom),
    }
}

/// The title of the page. The Open Graph title wins; the `title` element is
/// looked at only when there is none.
pub fn get_title(dom: &ParsedDocument<'_>) -> (title: Option<String>)
    ensures
        title.deep_view() == title_of(dom@),
{
    title_with_fallback(attr_from_first_query_match(dom, OG_TITLE, CONTENT), dom)
}

/// The Open Graph description of the page. There is no fallback.
pub fn get_description(dom: &ParsedDocument<'_>) -> (description: Option<String>)
    ensures
        description.deep_view() == open_graph_value(dom@, OG_DESCRIPTION@),
{
    attr_from_first_query_match(dom, OG_DESCRIPTION, CONTENT)
}

/// The domain shown for the page: the canonical host of its address. The
/// page itself has no say in it.
pub fn get_domain(url: &AbsoluteUrl) -> (domain: Option<String>)
    ensures
        domain.deep_view() == canonical_host_of(url@),
{
    url.canonical_host()
}

/// The absolute URL behind a reference that was looked for in the page at
/// `url`. A reference that was not found gives `None`, and so does one that
/// cannot be resolved.
pub fn link_target(url: &AbsoluteUrl, reference: Option<String>) -> (target: Option<AbsoluteUrl>)
    ensures
        target.deep_view() == linked_from(url@, reference.deep_view()),
        target matches Some(found) ==> url_parses(found@),
{
    match reference {
        Some(reference) => url.resolve(reference.as_str()),
        None => None,
    }
}

/// The page's icon as an absolute URL: the target of its icon link, resolved
/// against the page's address.
pub fn get_favicon(dom: &ParsedDocument<'_>, url: &AbsoluteUrl) -> (favicon: Option<AbsoluteUrl>)
    ensures
        favicon.deep_view() == favicon_of(dom@, url@),
        favicon matches Some(found) ==> url_parses(found@),
{
    link_target(url, attr_from_first_query_match(dom, ICON, HREF))
}

/// The page's preview image as an absolute URL: the Open Graph image,
/// resolved against the page's address.
pub fn get_image(dom: &ParsedDocument<'_>, url: &AbsoluteUrl) -> (image: Option<AbsoluteUrl>)
    ensures
        image.deep_view() == image_of(dom@, url@),
        image matches Some(found) ==> url_parses(found@),
{
    link_target(url, attr_from_first_query_match(dom, OG_IMAGE, CONTENT))
}

/// The address that the page gives for itself, exactly as the page wrote it:
/// it is not resolved, so it may be relative.
pub fn get_og_url(dom: &ParsedDocument<'_>) -> (og_url: Option<String>)
    ensures
        og_url.deep_view() == open_graph_value(dom@, OG_URL@),
{
    attr_from_first_query_match(dom, OG_URL, CONTENT)
}

/// The Open Graph site name of the page.
pub fn get_sitename(dom: &ParsedDocument<'_>) -> (sitename: Option<String>)
    ensures
        sitename.deep_view() == open_graph_value(dom@, OG_SITE_NAME@),
{
    attr_from_first_query_match(dom, OG_SITE_NAME, CONTENT)
}

/// The Open Graph content type of the page.
pub fn get_type(dom: &ParsedDocument<'_>) -> (site_type: Option<String>)
    ensures
        site_type.deep_view() == open_graph_value(dom@, OG_TYPE@),
{
    attr_from_first_query_match(dom, OG_TYPE, CONTENT)
}

} // verus!
