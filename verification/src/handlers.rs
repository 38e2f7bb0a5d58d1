use vstd::prelude::*;
use crate::{OpengraphTag, opt_string_view, opt_tag_view};
use crate::second_level_domain::{dot_count, sld_of, second_level_domain_str};

verus! {

/// The attributes of one `<meta>` element that the extraction rules read:
/// `property`, `name` and `content`, each either absent or a string value.
pub struct MetaAttributes {
    pub property: Option<String>,
    pub name: Option<String>,
    pub content: Option<String>,
}

impl View for MetaAttributes {
    type V = (Option<Seq<char>>, Option<Seq<char>>, Option<Seq<char>>);

    open spec fn view(&self) -> (Option<Seq<char>>, Option<Seq<char>>, Option<Seq<char>>) {
        (
            opt_string_view(self.property),
            opt_string_view(self.name),
            opt_string_view(self.content),
        )
    }
}

/// A `property` attribute value qualifies when it begins with `og:` or `article:`.
pub open spec fn qualifying_property(p: Seq<char>) -> bool {
    "og:"@.is_prefix_of(p) || "article:"@.is_prefix_of(p)
}

/// A `name` attribute value qualifies when it begins with `twitter:`,
/// `article:` or `cXenseParse:`.
pub open spec fn qualifying_name(n: Seq<char>) -> bool {
    "twitter:"@.is_prefix_of(n) || "article:"@.is_prefix_of(n) || "cXenseParse:"@.is_prefix_of(n)
}

/// A missing `content` attribute counts as the empty string.
pub open spec fn content_or_empty(c: Option<Seq<char>>) -> Seq<char> {
    match c {
        Some(s) => s,
        None => Seq::empty(),
    }
}

/// What one `<meta>` element contributes: its `property` value when that is
/// present and qualifying, else its `name` value when that is present and
/// qualifying, else nothing. The emitted content is the `content` attribute,
/// or empty when absent.
pub open spec fn classify(m: (Option<Seq<char>>, Option<Seq<char>>, Option<Seq<char>>)) -> Option<
    (Seq<char>, Seq<char>),
> {
    if m.0 is Some && qualifying_property(m.0->0) {
        Some((m.0->0, content_or_empty(m.2)))
    } else if m.1 is Some && qualifying_name(m.1->0) {
        Some((m.1->0, content_or_empty(m.2)))
    } else {
        None
    }
}

/// Whether `p` is a character-for-character prefix of `s`.
pub fn str_starts_with(s: &str, p: &str) -> (r: bool)
    ensures
        r == p@.is_prefix_of(s@),
{
    let sl = s.unicode_len();
    let pl = p.unicode_len();
    if pl > sl {
        return false;
    }
    let mut i: usize = 0;
    while i < pl
        invariant
            0 <= i <= pl,
            pl <= sl,
            pl == p@.len(),
            sl == s@.len(),
            forall|j: int| 0 <= j < i ==> s@[j] == p@[j],
        decreases pl - i,
    {
        if s.get_char(i) != p.get_char(i) {
            assert(s@.subrange(0, pl as int)[i as int] != p@[i as int]);
            return false;
        }
        i += 1;
    }
    assert(s@.subrange(0, pl as int) =~= p@);
    true
}

/// Returns the `content` attribute value, or an empty string when it is absent.
fn content_or_default(c: &Option<String>) -> (r: String)
    ensures
        r@ == content_or_empty(opt_string_view(*c)),
{
    match c {
        Some(s) => s.clone(),
        None => String::new(),
    }
}

/// What a whole document contributes: the contributions of its `<meta>`
/// elements, one after the other, in document order.
pub open spec fn extract_seq(
    ms: Seq<(Option<Seq<char>>, Option<Seq<char>>, Option<Seq<char>>)>,
) -> Seq<(Seq<char>, Seq<char>)>
    decreases ms.len(),
{
    if ms.len() == 0 {
        Seq::empty()
    } else {
        (match classify(ms[0]) {
            Some(t) => seq![t],
            None => Seq::empty(),
        }) + extract_seq(ms.drop_first())
    }
}

/// Extending the scanned elements by one extends the extraction by that
/// element's contribution.
proof fn lemma_extract_seq_push(
    ms: Seq<(Option<Seq<char>>, Option<Seq<char>>, Option<Seq<char>>)>,
    m: (Option<Seq<char>>, Option<Seq<char>>, Option<Seq<char>>),
)
    ensures
        extract_seq(ms.push(m)) == extract_seq(ms) + (match classify(m) {
            Some(t) => seq![t],
            None => Seq::<(Seq<char>, Seq<char>)>::empty(),
        }),
    decreases ms.len(),
{
    let tail = (match classify(m) {
        Some(t) => seq![t],
        None => Seq::<(Seq<char>, Seq<char>)>::empty(),
    });
    if ms.len() == 0 {
        assert(ms.push(m).drop_first() =~= ms);
        assert(extract_seq(ms.push(m)) =~= extract_seq(ms) + tail);
    } else {
        assert(ms.push(m).drop_first() =~= ms.drop_first().push(m));
        lemma_extract_seq_push(ms.drop_first(), m);
        assert(extract_seq(ms.push(m)) =~= extract_seq(ms) + tail);
    }
}

/// Decides what one `<meta>` element contributes to the extraction, per
/// `classify`: the `property` rule is tried first, then the `name` rule.
pub fn extract_opengraph_tag(meta: &MetaAttributes) -> (r: Option<OpengraphTag>)
    ensures
        opt_tag_view(r) == classify(meta@),
{
    if let Some(p) = &meta.property {
        if str_starts_with(p.as_str(), "og:") || str_starts_with(p.as_str(), "article:") {
            return Some(
                OpengraphTag { property: p.clone(), content: content_or_default(&meta.content) },
            );
        }
    }
    if let Some(n) = &meta.name {
        if str_starts_with(n.as_str(), "twitter:") || str_starts_with(n.as_str(), "article:")
            || str_starts_with(n.as_str(), "cXenseParse:") {
            return Some(
                OpengraphTag { property: n.clone(), content: content_or_default(&meta.content) },
            );
        }
    }
    None
}

/// A sequence of `<meta>` attribute records, seen as attribute-value triples.
pub open spec fn meta_views(s: Seq<MetaAttributes>) -> Seq<
    (Option<Seq<char>>, Option<Seq<char>>, Option<Seq<char>>),
> {
    s.map_values(|m: MetaAttributes| m@)
}

/// The `(property, name, content)` attribute triples of the `<meta>` elements
/// of a document, in document order, as the HTML parser reads them.
pub uninterp spec fn metas_of(html: Seq<char>) -> Seq<
    (Option<Seq<char>>, Option<Seq<char>>, Option<Seq<char>>),
>;

/// Relies on `tl::parse` and `tl::VDom::query_selector` to list the `<meta>`
/// elements of the document, and on `tl::HTMLTag::attributes` to read each
/// element's `property`, `name` and `content` attributes. The result depends
/// on the document text alone; a document the parser rejects yields no
/// elements.
#[verifier::external_body]
fn parse_meta_elements(html: &str) -> (r: Vec<MetaAttributes>)
    ensures
        meta_views(r@) == metas_of(html@),
{
    let mut out: Vec<MetaAttributes> = Vec::new();
    let attr = |t: &tl::HTMLTag<'_>, key: &str| match t.attributes().get(key) {
        Some(Some(v)) => Some(v.as_utf8_str().into_owned()),
        _ => None,
    };
    if let Ok(dom) = tl::parse(html, tl::ParserOptions::default()) {
        for handle in dom.query_selector("meta").into_iter().flatten() {
            if let Some(tag) = handle.get(dom.parser()).and_then(|n| n.as_tag()) {
                out.push(MetaAttributes { property: attr(tag, "property"), name: attr(tag, "name"), content: attr(tag, "content") });
            }
        }
    }
    out
}

/// Collects the contributions of the given `<meta>` elements, in order.
pub fn extract_from_metas(metas: &Vec<MetaAttributes>) -> (r: Vec<OpengraphTag>)
    ensures
        crate::tag_views(r@) == extract_seq(meta_views(metas@)),
{
    let ghost all = meta_views(metas@);
    let mut out: Vec<OpengraphTag> = Vec::new();
    let mut i: usize = 0;
    while i < metas.len()
        invariant
            0 <= i <= metas.len(),
            all == meta_views(metas@),
            all.len() == metas@.len(),
            crate::tag_views(out@) == extract_seq(all.take(i as int)),
        decreases metas.len() - i,
    {
        let ghost before = out@;
        match extract_opengraph_tag(&metas[i]) {
            Some(tag) => {
                out.push(tag);
                proof {
                    assert(crate::tag_views(out@) =~= crate::tag_views(before) + seq![out@[
                        out@.len() - 1]@]);
                }
            },
            None => {},
        }
        proof {
            assert(all.take(i + 1) =~= all.take(i as int).push(all[i as int]));
            lemma_extract_seq_push(all.take(i as int), all[i as int]);
        }
        i += 1;
    }
    proof {
        assert(all.take(metas@.len() as int) =~= all);
    }
    out
}

/// Extracts the Open Graph-like tags of an HTML document: every `<meta>`
/// element whose `property` or `name` attribute qualifies contributes one
/// tag, in document order. A total function of the document text: malformed
/// markup yields a partial or empty sequence, never a failure.
pub fn extract_opengraph_tags(html: &str) -> (r: Vec<OpengraphTag>)
    ensures
        crate::tag_views(r@) == extract_seq(metas_of(html@)),
{
    let metas = parse_meta_elements(html);
    extract_from_metas(&metas)
}

/// The browser-like agent string offered to most destinations.
pub open spec fn spec_default_user_agent() -> Seq<char> {
    "Mozilla/5.0 (Macintosh; Intel Mac OS X 14.7; rv:136.0) Gecko/20100101 Firefox/136.0"@
}

/// The crawler-identifying agent string offered to destinations that serve
/// full content only to recognized crawlers.
pub open spec fn spec_crawler_user_agent() -> Seq<char> {
    "facebookexternalhit/1.1"@
}

/// The agent chosen for a host: the crawler agent when the host's
/// second-level domain is `youtube.com` or `youtu.be`, else the default; a
/// URL without a domain-name host also gets the default.
pub open spec fn agent_for(host: Option<Seq<char>>) -> Seq<char> {
    match host {
        Some(h) => if dot_count(h) >= 1 && (sld_of(h) == "youtube.com"@ || sld_of(h)
            == "youtu.be"@) {
            spec_crawler_user_agent()
        } else {
            spec_default_user_agent()
        },
        None => spec_default_user_agent(),
    }
}

/// The domain-name host of a URL text, as the URL parser reads it: `None`
/// when the text does not parse as an absolute URL, or its host is not a
/// domain name.
pub uninterp spec fn url_host(s: Seq<char>) -> Option<Seq<char>>;

/// Relies on `url::Url::parse` and `url::Url::domain`: the domain-name host
/// of the URL text, `None` when the text does not parse or the host is not a
/// domain name. The result depends on the URL text alone.
#[verifier::external_body]
fn parse_url_domain(url: &str) -> (r: Option<String>)
    ensures
        crate::opt_string_view(r) == url_host(url@),
{
    match url::Url::parse(url) {
        Ok(u) => u.domain().map(|d| d.to_owned()),
        Err(_) => None,
    }
}

/// The default browser-like user-agent string.
pub fn default_user_agent() -> (r: String)
    ensures
        r@ == spec_default_user_agent(),
{
    "Mozilla/5.0 (Macintosh; Intel Mac OS X 14.7; rv:136.0) Gecko/20100101 Firefox/136.0".to_owned()
}

/// The crawler-identifying user-agent string.
pub fn crawler_user_agent() -> (r: String)
    ensures
        r@ == spec_crawler_user_agent(),
{
    "facebookexternalhit/1.1".to_owned()
}

/// Picks the user-agent for a fetch of `url`: the crawler agent for the
/// YouTube-family second-level domains, the default browser-like agent for
/// every other destination, and the default as the fallback when the URL does
/// not parse — a malformed URL is never an error here.
pub fn get_user_agent(url: &str) -> (r: String)
    ensures
        r@ == agent_for(url_host(url@)),
{
    match parse_url_domain(url) {
        Some(d) => {
            match second_level_domain_str(d.as_str()) {
                Some(sld) => {
                    if sld == "youtube.com".to_owned() || sld == "youtu.be".to_owned() {
                        crawler_user_agent()
                    } else {
                        default_user_agent()
                    }
                },
                None => default_user_agent(),
            }
        },
        None => default_user_agent(),
    }
}

/// The extraction is a pure function of the document text: two extractions
/// from equal text yield equal tag sequences.
pub proof fn lemma_extract_deterministic(
    html1: Seq<char>,
    html2: Seq<char>,
    r1: Seq<(Seq<char>, Seq<char>)>,
    r2: Seq<(Seq<char>, Seq<char>)>,
)
    requires
        html1 == html2,
        r1 == extract_seq(metas_of(html1)),
        r2 == extract_seq(metas_of(html2)),
    ensures
        r1 == r2,
{
}

} // verus!
