use outreach_bot::error::BotError;
use outreach_bot::extract::{
    address_from_href, contact_from_anchors, email_of_anchor, extract_contact, listing_targets,
    targets_of_links, PageElement, MAX_PAGE_CHARS,
};
use outreach_bot::record::ContactRecord;

fn anchor(href: Option<&str>, inner: &str) -> PageElement {
    PageElement { attribute: href.map(|h| h.to_string()), inner_html: inner.to_string() }
}

#[test]
fn mail_link_yields_the_address_up_to_the_query() {
    assert_eq!(address_from_href("mailto:x@y.com"), "x@y.com");
    assert_eq!(address_from_href("mailto:x@y.com?subject=Hello"), "x@y.com");
    assert_eq!(address_from_href("mailto:a@b.org?x=1?y=2"), "a@b.org");
    assert_eq!(address_from_href("mailto:first.last@sub.example.co.uk"), "first.last@sub.example.co.uk");
    assert_eq!(address_from_href("mailto:no-at-sign"), "no-at-sign");
}

#[test]
fn mail_link_without_address_yields_empty_text() {
    assert_eq!(address_from_href("mailto:"), "");
    assert_eq!(address_from_href("mailto:?subject=Hello"), "");
}

#[test]
fn the_leftmost_scheme_with_an_address_behind_it_counts() {
    assert_eq!(address_from_href("mailto:?cc=mailto:z@w.org?x"), "z@w.org");
    assert_eq!(address_from_href("mailto:mailto:a@b.c"), "mailto:a@b.c");
}

#[test]
fn other_targets_are_taken_as_they_are() {
    assert_eq!(address_from_href("https://example.com/contact"), "https://example.com/contact");
    assert_eq!(address_from_href("Mailto:x@y.com"), "Mailto:x@y.com");
    assert_eq!(address_from_href(" mailto:x@y.com"), " mailto:x@y.com");
    assert_eq!(address_from_href(""), "");
}

#[test]
fn anchor_without_target_yields_its_inner_markup() {
    assert_eq!(email_of_anchor(&anchor(None, "info@shop.example")), "info@shop.example");
    assert_eq!(email_of_anchor(&anchor(None, "<b>Mail</b> us")), "<b>Mail</b> us");
    assert_eq!(email_of_anchor(&anchor(Some("mailto:a@b.c?x"), "ignored")), "a@b.c");
    assert_eq!(email_of_anchor(&anchor(Some("/contact"), "ignored")), "/contact");
}

#[test]
fn the_first_contact_link_makes_the_record() {
    let anchors = vec![anchor(Some("mailto:one@x.com"), ""), anchor(Some("mailto:two@x.com"), "")];
    assert_eq!(
        contact_from_anchors("https://d.example/biz/1", &anchors),
        Some(ContactRecord {
            source_url: "https://d.example/biz/1".to_string(),
            email: "one@x.com".to_string(),
        })
    );
    assert_eq!(contact_from_anchors("https://d.example/biz/1", &Vec::new()), None);
}

#[test]
fn targets_keep_one_entry_for_each_link() {
    let links = vec![anchor(Some("/a"), "A"), anchor(None, "B"), anchor(Some("/c"), "C")];
    assert_eq!(
        targets_of_links(&links),
        vec![Some("/a".to_string()), None, Some("/c".to_string())]
    );
    assert_eq!(targets_of_links(&Vec::new()), Vec::<Option<String>>::new());
}

#[test]
fn listing_page_yields_the_targets_of_its_business_links() {
    let body = "<html><body>\
        <a class=\"business-name\" href=\"/biz/one\">One</a>\
        <a class=\"business-name\">No target</a>\
        <a class=\"other\" href=\"/ad\">Ad</a>\
        <div><a class=\"business-name featured\" href=\"/biz/two?x=1&amp;y=2\">Two</a></div>\
        <span class=\"business-name\" href=\"/not-a-link\">Span</span>\
        </body></html>";
    assert_eq!(
        listing_targets(body),
        Ok(vec![Some("/biz/one".to_string()), None, Some("/biz/two?x=1&y=2".to_string())])
    );
}

#[test]
fn listing_page_without_business_links_yields_nothing() {
    assert_eq!(listing_targets("<html><body><p>No results</p></body></html>"), Ok(Vec::new()));
    assert_eq!(listing_targets(""), Ok(Vec::new()));
    assert_eq!(listing_targets("a.business-name"), Ok(Vec::new()));
}

#[test]
fn detail_page_yields_the_contact_of_its_mail_link() {
    let body = "<html><body><h1>Shop</h1>\
        <a class=\"email-business\" href=\"mailto:info@shop.example?subject=Hi\">Email</a>\
        <a class=\"email-business\" href=\"mailto:second@shop.example\">Other</a>\
        </body></html>";
    assert_eq!(
        extract_contact("https://d.example/biz/shop", body),
        Ok(Some(ContactRecord {
            source_url: "https://d.example/biz/shop".to_string(),
            email: "info@shop.example".to_string(),
        }))
    );
}

#[test]
fn detail_page_link_without_target_yields_its_inner_markup() {
    let body = "<a class=\"email-business\">owner@shop.example</a>";
    assert_eq!(
        extract_contact("u", body),
        Ok(Some(ContactRecord { source_url: "u".to_string(), email: "owner@shop.example".to_string() }))
    );
}

#[test]
fn detail_page_without_contact_link_yields_no_record() {
    let body = "<html><body><a href=\"mailto:x@y.com\">plain link</a></body></html>";
    assert_eq!(extract_contact("u", body), Ok(None));
    assert_eq!(extract_contact("u", ""), Ok(None));
}

#[test]
fn a_page_beyond_the_bound_is_not_read() {
    assert_eq!(MAX_PAGE_CHARS, 1 << 28);
    let body = "a".repeat(MAX_PAGE_CHARS + 1);
    let too_long = BotError::InvalidData("page too long".to_string());
    assert_eq!(listing_targets(&body), Err(too_long.clone()));
    assert_eq!(extract_contact("u", &body), Err(too_long));
}

#[test]
fn the_bound_counts_characters_not_bytes() {
    let link = "<a class=\"business-name\" href=\"/biz/one\">One</a>";
    let body = format!("{}{}", "\u{65e5}".repeat(100_000), link);
    assert!(body.len() > 300_000);
    assert_eq!(listing_targets(&body), Ok(vec![Some("/biz/one".to_string())]));
}
