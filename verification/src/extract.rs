//! Reading listing and detail pages: which elements a page holds, and the
//! contact that a detail page yields.

use crate::error::{BotError, ErrorKind};
use crate::record::{ContactRecord, ContactRecordView};
use crate::text::{has_prefix, starts_with};
use vstd::prelude::*;
use vstd::string::{StrSliceExecFns, StringExecFns};

verus! {

/// What the logic reads of one element of a page: the value of the
/// attribute asked for, if the element has it, and the element's inner
/// markup.
#[derive(Debug, PartialEq, Eq)]
pub struct PageElement {
    pub attribute: Option<String>,
    pub inner_html: String,
}

/// The mathematical value of a [`PageElement`].
pub struct PageElementView {
    pub attribute: Option<Seq<char>>,
    pub inner_html: Seq<char>,
}

impl View for PageElement {
    type V = PageElementView;

    open spec fn view(&self) -> PageElementView {
        PageElementView {
            attribute: match self.attribute {
                Some(value) => Some(value@),
                None => None,
            },
            inner_html: self.inner_html@,
        }
    }
}

/// The values of a list of elements.
pub open spec fn elements_view(elements: Seq<PageElement>) -> Seq<PageElementView> {
    Seq::new(elements.len(), |i: int| elements[i]@)
}

/// The value of what a selection hands back.
pub open spec fn selection_view(found: Option<Vec<PageElement>>) -> Option<Seq<PageElementView>> {
    match found {
        Some(elements) => Some(elements_view(elements@)),
        None => None,
    }
}

/// The most characters a text may hold to be handed to `scraper`. Its
/// buffers count their bytes in 32 bits and grow by doubling, so none may
/// pass 2^31 bytes; a character takes at most four bytes, and reading a
/// page yields no more characters than the page holds. The bound keeps a
/// factor of two below that.
pub const MAX_PAGE_CHARS: usize = 268435456;

/// Whether `text` is short enough to be handed to `scraper`.
pub open spec fn fits_reader(text: Seq<char>) -> bool {
    text.len() <= MAX_PAGE_CHARS
}

/// The elements of the HTML document `document` that match the CSS
/// selector group `selector`, in the order in which `scraper` yields them,
/// each with its value of `attribute` and its inner markup; `None` where
/// `scraper` refuses the selector.
pub uninterp spec fn selected_elements(
    document: Seq<char>,
    selector: Seq<char>,
    attribute: Seq<char>,
) -> Option<Seq<PageElementView>>;

/// Calls `scraper::Selector::parse`, `Html::parse_document`,
/// `Html::select`, `Element::attr` and `ElementRef::inner_html`. Trusted:
/// the result is a function of the three texts alone, named
/// [`selected_elements`]; nothing is claimed of which elements it holds.
/// Texts beyond [`MAX_PAGE_CHARS`] are left out: on a buffer too large
/// `scraper` stops the process.
#[verifier::external_body]
fn select_elements(document: &str, selector: &str, attribute: &str) -> (found: Option<
    Vec<PageElement>,
>)
    requires
        fits_reader(document@),
        fits_reader(selector@),
        fits_reader(attribute@),
    ensures
        selection_view(found) == selected_elements(document@, selector@, attribute@),
{
    let selector = scraper::Selector::parse(selector).ok()?;
    let page = scraper::Html::parse_document(document);
    let elements = page.select(&selector).map(
        |element|
            PageElement {
                attribute: element.value().attr(attribute).map(String::from),
                inner_html: element.inner_html(),
            },
    );
    Some(elements.collect())
}

/// The selector of the links on a listing page that lead to detail pages.
pub open spec fn listing_link_selector() -> Seq<char> {
    "a.business-name"@
}

/// The selector of the contact link on a detail page.
pub open spec fn contact_link_selector() -> Seq<char> {
    "a.email-business"@
}

/// The attribute that holds a link's target.
pub open spec fn link_attribute() -> Seq<char> {
    "href"@
}

/// What is reported when a selector is refused.
pub open spec fn selector_refused_detail() -> Seq<char> {
    "selector refused"@
}

/// What is reported of a page that holds more than [`MAX_PAGE_CHARS`]
/// characters.
pub open spec fn page_too_long_detail() -> Seq<char> {
    "page too long"@
}

/// The words that open the target of a mail link.
pub open spec fn mailto_scheme() -> Seq<char> {
    "mailto:"@
}

/// The pattern that finds the address in the target of a mail link: the
/// scheme, then one or more characters other than `?`.
pub open spec fn mailto_pattern() -> Seq<char> {
    "mailto:([^?]+)"@
}

/// Whether the scheme stands at position `i` of `text` and is followed by
/// a character other than `?`.
pub open spec fn mailto_at(text: Seq<char>, i: int) -> bool {
    &&& 0 <= i
    &&& i + 7 < text.len()
    &&& text.subrange(i, i + 7) == mailto_scheme()
    &&& text[i + 7] != '?'
}

/// Whether `i` is the first position of `text` of which [`mailto_at`]
/// holds.
pub open spec fn leftmost_mailto(text: Seq<char>, i: int) -> bool {
    mailto_at(text, i) && forall|j: int| 0 <= j < i ==> !mailto_at(text, j)
}

/// Whether the characters of `text` from `from` up to `end` are all other
/// than `?`, and `end` is the end of `text` or the place of a `?`.
pub open spec fn run_without_query(text: Seq<char>, from: int, end: int) -> bool {
    &&& 0 <= from <= end <= text.len()
    &&& forall|k: int| from <= k < end ==> text[k] != '?'
    &&& end < text.len() ==> text[end] == '?'
}

/// Whether the pattern's leftmost match begins at `i` and its group ends
/// at `end`: the scheme stands first at `i`, and the longest run of
/// characters other than `?` behind it ends at `end`.
pub open spec fn captures_between(text: Seq<char>, i: int, end: int) -> bool {
    leftmost_mailto(text, i) && run_without_query(text, i + 7, end)
}

/// Whether `address` is what the pattern captures in `text`: the longest
/// run of characters other than `?` behind the leftmost scheme that is
/// followed by such a character.
pub open spec fn is_mailto_capture(text: Seq<char>, address: Seq<char>) -> bool {
    exists|i: int, end: int| #[trigger]
        captures_between(text, i, end) && address == text.subrange(i + 7, end)
}

/// Calls `regex::Regex::new`, `Regex::captures`, `Captures::get` with
/// group 1 and `Match::as_str`. Trusted, for the one pattern
/// [`mailto_pattern`]: the search is leftmost and the repetition greedy,
/// so what comes back is the capture that [`is_mailto_capture`] describes,
/// and nothing comes back exactly where the pattern matches nowhere.
#[verifier::external_body]
fn capture_first_group(pattern: &str, text: &str) -> (captured: Option<String>)
    requires
        pattern@ == mailto_pattern(),
    ensures
        captured matches Some(address) ==> is_mailto_capture(text@, address@),
        captured is None ==> forall|i: int| !mailto_at(text@, i),
{
    let matcher = regex::Regex::new(pattern).ok()?;
    matcher.captures(text)?.get(1).map(|group| group.as_str().to_string())
}

/// The address that the pattern captures in `text`, or the empty text
/// where it matches nowhere.
pub open spec fn mailto_address(text: Seq<char>) -> Seq<char> {
    if exists|address: Seq<char>| is_mailto_capture(text, address) {
        choose|address: Seq<char>| is_mailto_capture(text, address)
    } else {
        Seq::empty()
    }
}

/// The pattern captures at most one address in a text.
pub proof fn lemma_mailto_capture_is_unique(text: Seq<char>, a: Seq<char>, b: Seq<char>)
    requires
        is_mailto_capture(text, a),
        is_mailto_capture(text, b),
    ensures
        a == b,
{
    let (i, end_a) = choose|i: int, end: int| #[trigger]
        captures_between(text, i, end) && a == text.subrange(i + 7, end);
    let (j, end_b) = choose|j: int, end: int| #[trigger]
        captures_between(text, j, end) && b == text.subrange(j + 7, end);
    assert(i == j) by {
        if i < j {
            assert(!mailto_at(text, i));
        }
        if j < i {
            assert(!mailto_at(text, j));
        }
    }
    assert(end_a == end_b) by {
        if end_a < end_b {
            assert(text[end_a] == '?');
        }
        if end_b < end_a {
            assert(text[end_b] == '?');
        }
    }
}

/// The e-mail text that the target `href` of a contact link stands for: of
/// a mail link the captured address (empty where there is none), of any
/// other target the target itself.
pub open spec fn href_address(href: Seq<char>) -> Seq<char> {
    if has_prefix(href, mailto_scheme()) {
        mailto_address(href)
    } else {
        href
    }
}

/// The e-mail text that the target `href` of a contact link stands for.
pub fn address_from_href(href: &str) -> (address: String)
    ensures
        address@ == href_address(href@),
{
    if starts_with(href, "mailto:") {
        match capture_first_group("mailto:([^?]+)", href) {
            Some(address) => {
                proof {
                    let found = choose|a: Seq<char>| is_mailto_capture(href@, a);
                    lemma_mailto_capture_is_unique(href@, found, address@);
                }
                address
            },
            None => {
                assert forall|a: Seq<char>| !is_mailto_capture(href@, a) by {
                    if is_mailto_capture(href@, a) {
                        let (i, end) = choose|i: int, end: int| #[trigger]
                            captures_between(href@, i, end) && a == href@.subrange(i + 7, end);
                        assert(mailto_at(href@, i));
                    }
                }
                String::new()
            },
        }
    } else {
        String::from_str(href)
    }
}

/// A mail link in its usual shape yields its address: where the target is
/// the scheme, then a non-empty address without `?`, then nothing more or
/// a query that begins with `?`, the address is what comes back.
pub proof fn lemma_plain_mail_link_yields_address(address: Seq<char>, query: Seq<char>)
    requires
        address.len() > 0,
        forall|k: int| 0 <= k < address.len() ==> address[k] != '?',
        query.len() > 0 ==> query[0] == '?',
    ensures
        href_address(mailto_scheme() + address + query) == address,
{
    reveal_strlit("mailto:");
    let href = mailto_scheme() + address + query;
    let end = 7 + address.len() as int;
    assert(href.subrange(0, 7) =~= mailto_scheme());
    assert(href[7] == address[0]);
    assert(mailto_at(href, 0));
    assert forall|k: int| 7 <= k < end implies href[k] != '?' by {
        assert(href[k] == address[k - 7]);
    }
    if end < href.len() {
        assert(href[end] == query[0]);
    }
    assert(captures_between(href, 0, end));
    assert(href.subrange(7, end) =~= address);
    assert(is_mailto_capture(href, address));
    lemma_mailto_capture_is_unique(href, address, mailto_address(href));
}

/// The e-mail text of a contact link: read from its target where it has
/// one, else its inner markup.
pub open spec fn anchor_email(anchor: PageElementView) -> Seq<char> {
    match anchor.attribute {
        Some(href) => href_address(href),
        None => anchor.inner_html,
    }
}

/// The e-mail text of a contact link.
pub fn email_of_anchor(anchor: &PageElement) -> (email: String)
    ensures
        email@ == anchor_email(anchor@),
{
    match &anchor.attribute {
        Some(href) => address_from_href(href.as_str()),
        None => anchor.inner_html.clone(),
    }
}

/// The contact that a detail page at `detail_url` yields, given its
/// contact links: none without a link, else the e-mail text of the first.
pub open spec fn contact_among(
    detail_url: Seq<char>,
    anchors: Seq<PageElementView>,
) -> Option<ContactRecordView> {
    if anchors.len() == 0 {
        None
    } else {
        Some(ContactRecordView { source_url: detail_url, email: anchor_email(anchors[0]) })
    }
}

/// The contact that a detail page at `detail_url` yields, given its
/// contact links in the order in which the selection yielded them.
pub fn contact_from_anchors(detail_url: &str, anchors: &Vec<PageElement>) -> (contact: Option<
    ContactRecord,
>)
    ensures
        contact_view(contact) == contact_among(detail_url@, elements_view(anchors@)),
{
    if anchors.len() == 0 {
        None
    } else {
        Some(
            ContactRecord {
                source_url: String::from_str(detail_url),
                email: email_of_anchor(&anchors[0]),
            },
        )
    }
}

/// The value of an optional contact.
pub open spec fn contact_view(contact: Option<ContactRecord>) -> Option<ContactRecordView> {
    match contact {
        Some(record) => Some(record@),
        None => None,
    }
}

/// The targets of a list of links, one entry for each link: `None` for a
/// link without target.
pub open spec fn targets_among(links: Seq<PageElementView>) -> Seq<Option<Seq<char>>> {
    Seq::new(links.len(), |i: int| links[i].attribute)
}

/// The value of a list of optional texts.
pub open spec fn targets_view(targets: Seq<Option<String>>) -> Seq<Option<Seq<char>>> {
    Seq::new(
        targets.len(),
        |i: int|
            match targets[i] {
                Some(target) => Some(target@),
                None => None,
            },
    )
}

/// The targets of the links of a listing page, one entry for each link,
/// in the order of `links`.
pub fn targets_of_links(links: &Vec<PageElement>) -> (targets: Vec<Option<String>>)
    ensures
        targets_view(targets@) == targets_among(elements_view(links@)),
{
    let mut targets: Vec<Option<String>> = Vec::new();
    let mut i: usize = 0;
    while i < links.len()
        invariant
            i <= links.len(),
            targets.len() == i,
            forall|j: int|
                0 <= j < i ==> targets_view(targets@)[j] == (#[trigger] links@[j])@.attribute,
        decreases links.len() - i,
    {
        let target: Option<String> = match &links[i].attribute {
            Some(value) => Some(value.clone()),
            None => None,
        };
        targets.push(target);
        i += 1;
    }
    assert(targets_view(targets@) =~= targets_among(elements_view(links@)));
    targets
}

/// What [`listing_targets`] answers on a page with the text `body`: the
/// targets, or what it reports of a page that is too long or of a selector
/// that is refused.
pub open spec fn listing_targets_of(body: Seq<char>) -> Result<
    Seq<Option<Seq<char>>>,
    Seq<char>,
> {
    if !fits_reader(body) {
        Err(page_too_long_detail())
    } else {
        match selected_elements(body, listing_link_selector(), link_attribute()) {
            Some(links) => Ok(targets_among(links)),
            None => Err(selector_refused_detail()),
        }
    }
}

/// The targets of the detail links of the listing page `body`, one entry
/// for each link, in the order in which the selection yields the links.
/// Fails with `InvalidData` exactly where the page holds more than
/// [`MAX_PAGE_CHARS`] characters or the link selector is refused.
pub fn listing_targets(body: &str) -> (targets: Result<Vec<Option<String>>, BotError>)
    ensures
        match targets {
            Ok(found) => listing_targets_of(body@) == Ok::<Seq<Option<Seq<char>>>, Seq<char>>(
                targets_view(found@),
            ),
            Err(e) => e@.kind == ErrorKind::InvalidData && listing_targets_of(body@) == Err::<
                Seq<Option<Seq<char>>>,
                Seq<char>,
            >(e@.detail),
        },
{
    if body.unicode_len() > MAX_PAGE_CHARS {
        return Err(BotError::InvalidData(String::from_str("page too long")));
    }
    proof {
        reveal_strlit("a.business-name");
        reveal_strlit("href");
    }
    match select_elements(body, "a.business-name", "href") {
        Some(links) => Ok(targets_of_links(&links)),
        None => Err(BotError::InvalidData(String::from_str("selector refused"))),
    }
}

/// What [`extract_contact`] answers on a detail page at `detail_url` with
/// the text `body`: the contact, if any, or what it reports of a page that
/// is too long or of a selector that is refused.
pub open spec fn extracted_contact_of(detail_url: Seq<char>, body: Seq<char>) -> Result<
    Option<ContactRecordView>,
    Seq<char>,
> {
    if !fits_reader(body) {
        Err(page_too_long_detail())
    } else {
        match selected_elements(body, contact_link_selector(), link_attribute()) {
            Some(anchors) => Ok(contact_among(detail_url, anchors)),
            None => Err(selector_refused_detail()),
        }
    }
}

/// The contact, if any, on the detail page `body` fetched from
/// `detail_url`. A page without contact link yields `Ok(None)`. Fails with
/// `InvalidData` exactly where the page holds more than
/// [`MAX_PAGE_CHARS`] characters or the link selector is refused.
pub fn extract_contact(detail_url: &str, body: &str) -> (contact: Result<
    Option<ContactRecord>,
    BotError,
>)
    ensures
        match contact {
            Ok(found) => extracted_contact_of(detail_url@, body@) == Ok::<
                Option<ContactRecordView>,
                Seq<char>,
            >(contact_view(found)),
            Err(e) => e@.kind == ErrorKind::InvalidData && extracted_contact_of(
                detail_url@,
                body@,
            ) == Err::<Option<ContactRecordView>, Seq<char>>(e@.detail),
        },
{
    if body.unicode_len() > MAX_PAGE_CHARS {
        return Err(BotError::InvalidData(String::from_str("page too long")));
    }
    proof {
        reveal_strlit("a.email-business");
        reveal_strlit("href");
    }
    match select_elements(body, "a.email-business", "href") {
        Some(anchors) => Ok(contact_from_anchors(detail_url, &anchors)),
        None => Err(BotError::InvalidData(String::from_str("selector refused"))),
    }
}

} // verus!
