use wikipedia::records::{get_pages_from_events, get_pages_from_string, Page, XmlAttr, XmlEvent};
use wikipedia::WikiError;

fn two_record_sample() -> String {
    let mut s = String::new();
    s.push_str("<page>\n  <title>First Article</title>\n  <ns>0</ns>\n  <id>10</id>\n");
    s.push_str("  <redirect title=\"Other Article\" />\n");
    s.push_str("  <revision>\n    <id>100</id>\n    <parentId>99</parentId>\n");
    s.push_str("    <timestamp>2024-06-20T00:00:00Z</timestamp>\n");
    s.push_str("    <contributor>\n      <username>alice</username>\n      <id>7</id>\n");
    s.push_str("      <ip>10.0.0.1</ip>\n    </contributor>\n");
    s.push_str("    <comment>first edit</comment>\n    <origin>100</origin>\n");
    s.push_str("    <model>wikitext</model>\n    <format>text/x-wiki</format>\n");
    s.push_str("    <text bytes=\"11\" sha1=\"abc123\">Hello &amp; bye</text>\n");
    s.push_str("    <sha1>abc123</sha1>\n  </revision>\n</page>\n");
    s.push_str("<page>\n  <title>Second Article</title>\n  <ns>4</ns>\n  <id>20</id>\n");
    s.push_str("  <revision>\n    <id>200</id>\n    <parentId>150</parentId>\n");
    s.push_str("    <timestamp>2024-06-21T12:00:00Z</timestamp>\n");
    s.push_str("    <contributor>\n      <username>bob</username>\n      <id>8</id>\n");
    s.push_str("    </contributor>\n    <comment>second edit</comment>\n");
    s.push_str("    <origin>200</origin>\n    <model>wikitext</model>\n");
    s.push_str("    <format>text/x-wiki</format>\n");
    s.push_str("    <text bytes=\"4\" sha1=\"def456\">Body</text>\n");
    s.push_str("    <sha1>def456</sha1>\n  </revision>\n</page>\n");
    s
}

#[test]
fn two_records_in_document_order() {
    let pages = get_pages_from_string(two_record_sample()).expect("sample should parse");
    assert_eq!(pages.len(), 2);
    let a: &Page = &pages[0];
    assert_eq!(a.title, "First Article");
    assert_eq!(a.namespace, 0);
    assert_eq!(a.id, 10);
    assert_eq!(a.redirect, "Other Article");
    assert_eq!(a.revision.id, 100);
    assert_eq!(a.revision.parent_id, 99);
    assert_eq!(a.revision.timestamp, "2024-06-20T00:00:00Z");
    assert_eq!(a.revision.comment, "first edit");
    assert_eq!(a.revision.origin, 100);
    assert_eq!(a.revision.model, "wikitext");
    assert_eq!(a.revision.format, "text/x-wiki");
    assert_eq!(a.revision.text.bytes, 11);
    assert_eq!(a.revision.text.sha1, "abc123");
    assert_eq!(a.revision.text.text, "Hello & bye");
    assert_eq!(a.revision.sha1, "abc123");
    assert_eq!(a.revision.contributor.username, "alice");
    assert_eq!(a.revision.contributor.id, 7);
    assert_eq!(a.revision.contributor.ip, "10.0.0.1");
    let b: &Page = &pages[1];
    assert_eq!(b.title, "Second Article");
    assert_eq!(b.namespace, 4);
    assert_eq!(b.id, 20);
    assert_eq!(b.redirect, "");
    assert_eq!(b.revision.id, 200);
    assert_eq!(b.revision.text.text, "Body");
    assert_eq!(b.revision.contributor.username, "bob");
}

#[test]
fn body_entities_are_decoded_before_storage() {
    let s = String::from(
        "<page><revision><text bytes=\"1\" sha1=\"x\">a &lt;b&gt; &amp; c</text></revision></page>",
    );
    let pages = get_pages_from_string(s).expect("should parse");
    assert_eq!(pages[0].get_wikitext(), "a <b> & c");
}

#[test]
fn malformed_numeric_field_is_a_structural_error() {
    let s = String::from("<page><ns>abc</ns></page>");
    assert!(matches!(get_pages_from_string(s), Err(WikiError::StructuralParse)));
}

#[test]
fn malformed_bytes_attribute_is_a_structural_error() {
    let s = String::from("<page><revision><text bytes=\"x\" sha1=\"y\">B</text></revision></page>");
    assert!(matches!(get_pages_from_string(s), Err(WikiError::StructuralParse)));
}

#[test]
fn mismatched_closing_boundary_is_a_structural_error() {
    let s = String::from("<page><revision></contributor></revision></page>");
    assert!(matches!(get_pages_from_string(s), Err(WikiError::StructuralParse)));
}

#[test]
fn bad_tag_structure_is_a_structural_error() {
    let s = String::from("<page><title>T</wrong></page>");
    assert!(matches!(get_pages_from_string(s), Err(WikiError::StructuralParse)));
}

#[test]
fn events_drive_the_same_machine() {
    let events = vec![
        XmlEvent::Start { name: String::from("page"), attrs: vec![] },
        XmlEvent::Start { name: String::from("title"), attrs: vec![] },
        XmlEvent::Text { content: String::from("  Spaced Title  ") },
        XmlEvent::End { name: String::from("title") },
        XmlEvent::Empty {
            name: String::from("redirect"),
            attrs: vec![XmlAttr { name: String::from("title"), value: String::from("Elsewhere") }],
        },
        XmlEvent::End { name: String::from("page") },
        XmlEvent::Eof,
    ];
    let pages = get_pages_from_events(events).expect("events should parse");
    assert_eq!(pages.len(), 1);
    assert_eq!(pages[0].title, "Spaced Title");
    assert_eq!(pages[0].redirect, "Elsewhere");
}

#[test]
fn whitespace_only_text_is_ignored() {
    let events = vec![
        XmlEvent::Start { name: String::from("page"), attrs: vec![] },
        XmlEvent::Start { name: String::from("id"), attrs: vec![] },
        XmlEvent::Text { content: String::from("  \n\t ") },
        XmlEvent::Text { content: String::from("42") },
        XmlEvent::End { name: String::from("id") },
        XmlEvent::End { name: String::from("page") },
    ];
    let pages = get_pages_from_events(events).expect("events should parse");
    assert_eq!(pages[0].id, 42);
}

#[test]
fn tokenizer_fault_event_is_a_structural_error() {
    let events = vec![
        XmlEvent::Start { name: String::from("page"), attrs: vec![] },
        XmlEvent::Fault,
    ];
    assert!(matches!(get_pages_from_events(events), Err(WikiError::StructuralParse)));
}

#[test]
fn fresh_page_is_empty() {
    let p = Page::new();
    assert_eq!(p.title, "");
    assert_eq!(p.redirect, "");
    assert_eq!(p.namespace, 0);
    assert_eq!(p.id, 0);
    assert_eq!(p.revision.id, 0);
    assert_eq!(p.revision.text.text, "");
}

#[test]
fn wikitext_fmt_frames_title_timestamp_and_body() {
    let mut p = Page::new();
    p.title = String::from("T");
    p.revision.timestamp = String::from("TS");
    p.revision.text.text = String::from("Body");
    assert_eq!(p.get_wikitext_fmt(), "=T= \n\n''TS''\n-----\nBody");
}
