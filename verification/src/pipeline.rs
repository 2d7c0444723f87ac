//! The extraction pipeline: every field rule run once over the same page.

use crate::document::ParsedDocument;
use crate::fields::{
    favicon_of, get_description, get_domain, get_favicon, get_image, get_og_url, get_sitename,
    get_title, get_type, image_of, open_graph_value, title_of, OG_DESCRIPTION, OG_SITE_NAME,
    OG_TYPE, OG_URL,
};
use crate::resolver::{canonical_host_of, url_parses, AbsoluteUrl};
use vstd::prelude::*;

verus! {

/// What a [`MetadataResult`] holds, as plain text. Every field may be
/// missing, and a record with no field at all is a record like any other.
pub struct Metadata {
    pub title: Option<Seq<char>>,
    pub description: Option<Seq<char>>,
    pub domain: Option<Seq<char>>,
    pub favicon: Option<Seq<char>>,
    pub image: Option<Seq<char>>,
    pub canonical_url: Option<Seq<char>>,
    pub site_name: Option<Seq<char>>,
    pub content_type: Option<Seq<char>>,
}

/// The preview of the page `markup` found at `address`. Each field follows
/// its own rule; none looks at another.
pub open spec fn extracted(markup: Seq<char>, address: Seq<char>) -> Metadata {
    Metadata {
        title: title_of(markup),
        description: open_graph_value(markup, OG_DESCRIPTION@),
        domain: canonical_host_of(address),
        favicon: favicon_of(markup, address),
        image: image_of(markup, address),
        canonical_url: open_graph_value(markup, OG_URL@),
        site_name: open_graph_value(markup, OG_SITE_NAME@),
        content_type: open_graph_value(markup, OG_TYPE@),
    }
}

/// The domain of a preview comes from the address alone: two pages found at
/// one address are shown under one domain, whatever either says of itself.
pub proof fn lemma_domain_ignores_page(markup: Seq<char>, other: Seq<char>, address: Seq<char>)
    ensures
        extracted(markup, address).domain == canonical_host_of(address),
        extracted(markup, address).domain == extracted(other, address).domain,
{
}

/// What a preview names as icon or as image is an absolute URL.
pub proof fn lemma_links_are_absolute(markup: Seq<char>, address: Seq<char>)
    ensures
        extracted(markup, address).favicon matches Some(url) ==> url_parses(url),
        extracted(markup, address).image matches Some(url) ==> url_parses(url),
{
}

/// A record as the caller receives it: each field under its key, in a fixed
/// order. The icon and the image stand there as the text of their URLs.
pub open spec fn entries_of(record: Metadata) -> Seq<(Seq<char>, Option<Seq<char>>)> {
    seq![
        ("title"@, record.title),
        ("description"@, record.description),
        ("domain"@, record.domain),
        ("favicon"@, record.favicon),
        ("image"@, record.image),
        ("og_url"@, record.canonical_url),
        ("sitename"@, record.site_name),
        ("type"@, record.content_type),
    ]
}

/// A record has eight entries, and no key stands twice among them, so that
/// the entries can be sent as one object.
pub proof fn lemma_entries_have_their_own_keys(record: Metadata)
    ensures
        entries_of(record).len() == 8,
        forall|i: int, j: int|
            0 <= i < j < 8 ==> (#[trigger] entries_of(record)[i]).0 != (#[trigger] entries_of(
                record,
            )[j]).0,
{
    reveal_strlit("title");
    reveal_strlit("description");
    reveal_strlit("domain");
    reveal_strlit("favicon");
    reveal_strlit("image");
    reveal_strlit("og_url");
    reveal_strlit("sitename");
    reveal_strlit("type");
    let entries = entries_of(record);
    let lengths: Seq<nat> = seq![5, 11, 6, 7, 5, 6, 8, 4];
    assert forall|i: int| 0 <= i < 8 implies (#[trigger] entries[i]).0.len() == lengths[i] by {
        assert(i == 0 || i == 1 || i == 2 || i == 3 || i == 4 || i == 5 || i == 6 || i == 7);
    }
    assert(entries[0].0[0] == 't' && entries[4].0[0] == 'i');
    assert(entries[2].0[0] == 'd' && entries[5].0[0] == 'o');
    assert forall|i: int, j: int| 0 <= i < j < 8 implies (#[trigger] entries[i]).0 != (
    #[trigger] entries[j]).0 by {
        assert(entries[i].0.len() == lengths[i] && entries[j].0.len() == lengths[j]);
        if lengths[i] == lengths[j] {
            assert((i == 0 && j == 4) || (i == 2 && j == 5));
            assert(entries[i].0[0] != entries[j].0[0]);
        }
    }
}

/// The preview of one page. Once put together it is only read.
#[derive(Debug, PartialEq, Eq)]
pub struct MetadataResult {
    title: Option<String>,
    description: Option<String>,
    domain: Option<String>,
    favicon: Option<AbsoluteUrl>,
    image: Option<AbsoluteUrl>,
    canonical_url: Option<String>,
    site_name: Option<String>,
    content_type: Option<String>,
}

impl View for MetadataResult {
    type V = Metadata;

    closed spec fn view(&self) -> Metadata {
        Metadata {
            title: self.title.deep_view(),
            description: self.description.deep_view(),
            domain: self.domain.deep_view(),
            favicon: self.favicon.deep_view(),
            image: self.image.deep_view(),
            canonical_url: self.canonical_url.deep_view(),
            site_name: self.site_name.deep_view(),
            content_type: self.content_type.deep_view(),
        }
    }
}

/// Runs every field rule over `dom`, the page found at `url`, and collects
/// the answers. A page with nothing to find gives a record with no fields;
/// that is not a failure.
pub fn extract(dom: &ParsedDocument<'_>, url: &AbsoluteUrl) -> (result: MetadataResult)
    ensures
        result@ == extracted(dom@, url@),
{
    let title = get_title(dom);
    let description = get_description(dom);
    let domain = get_domain(url);
    let favicon = get_favicon(dom, url);
    let image = get_image(dom, url);
    let canonical_url = get_og_url(dom);
    let site_name = get_sitename(dom);
    let content_type = get_type(dom);
    MetadataResult::new(
        title,
        description,
        domain,
        favicon,
        image,
        canonical_url,
        site_name,
        content_type,
    )
}

impl MetadataResult {
    /// The record that holds exactly these eight values.
    pub fn new(
        title: Option<String>,
        description: Option<String>,
        domain: Option<String>,
        favicon: Option<AbsoluteUrl>,
        image: Option<AbsoluteUrl>,
        canonical_url: Option<String>,
        site_name: Option<String>,
        content_type: Option<String>,
    ) -> (record: MetadataResult)
        ensures
            record@ == (Metadata {
                title: title.deep_view(),
                description: description.deep_view(),
                domain: domain.deep_view(),
                favicon: favicon.deep_view(),
                image: image.deep_view(),
                canonical_url: canonical_url.deep_view(),
                site_name: site_name.deep_view(),
                content_type: content_type.deep_view(),
            }),
    {
        MetadataResult {
            title,
            description,
            domain,
            favicon,
            image,
            canonical_url,
            site_name,
            content_type,
        }
    }

    /// The title of the page.
    pub fn title(&self) -> (title: Option<&String>)
        ensures
            title.deep_view() == self@.title,
    {
        self.title.as_ref()
    }

    /// The description of the page.
    pub fn description(&self) -> (description: Option<&String>)
        ensures
            description.deep_view() == self@.description,
    {
        self.description.as_ref()
    }

    /// The domain under which the page is shown.
    pub fn domain(&self) -> (domain: Option<&String>)
        ensures
            domain.deep_view() == self@.domain,
    {
        self.domain.as_ref()
    }

    /// The icon of the page.
    pub fn favicon(&self) -> (favicon: Option<&AbsoluteUrl>)
        ensures
            favicon.deep_view() == self@.favicon,
    {
        self.favicon.as_ref()
    }

    /// The preview image of the page.
    pub fn image(&self) -> (image: Option<&AbsoluteUrl>)
        ensures
            image.deep_view() == self@.image,
    {
        self.image.as_ref()
    }

    /// The address that the page gives for itself.
    pub fn canonical_url(&self) -> (canonical_url: Option<&String>)
        ensures
            canonical_url.deep_view() == self@.canonical_url,
    {
        self.canonical_url.as_ref()
    }

    /// The name of the site that the page belongs to.
    pub fn site_name(&self) -> (site_name: Option<&String>)
        ensures
            site_name.deep_view() == self@.site_name,
    {
        self.site_name.as_ref()
    }

    /// The kind of content that the page holds.
    pub fn content_type(&self) -> (content_type: Option<&String>)
        ensures
            content_type.deep_view() == self@.content_type,
    {
        self.content_type.as_ref()
    }

    /// The record as it is sent to the caller: the eight fields in their
    /// order, each under its key, a missing value where a field is empty.
    pub fn into_entries(self) -> (entries: Vec<(&'static str, Option<String>)>)
        ensures
            entries.deep_view() == entries_of(self@),
    {
        let favicon = match self.favicon {
            Some(url) => Some(url.into_string()),
            None => None,
        };
        let image = match self.image {
            Some(url) => Some(url.into_string()),
            None => None,
        };
        let mut entries: Vec<(&'static str, Option<String>)> = Vec::new();
        entries.push(("title", self.title));
        entries.push(("description", self.description));
        entries.push(("domain", self.domain));
        entries.push(("favicon", favicon));
        entries.push(("image", image));
        entries.push(("og_url", self.canonical_url));
        entries.push(("sitename", self.site_name));
        entries.push(("type", self.content_type));
        assert(entries.deep_view() =~= entries_of(self@));
        entries
    }
}

} // verus!
