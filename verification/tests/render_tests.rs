use wikipedia::render::{
    parse_markup, parse_nodes, parse_parameters, render_nodes, simple_tab, ListEntry, MarkupNode,
    RenderMode, RenderState, TemplateParam,
};

fn fresh() -> RenderState {
    RenderState { bold: false, italic: false, magic: false, refs: String::new(), counter: 1 }
}

fn text(v: &str) -> MarkupNode {
    MarkupNode::Text { value: String::from(v) }
}

#[test]
fn bold_and_italic_toggle_in_balance() {
    let (nodes, warnings) = parse_markup("'''bold''' and ''italic''");
    assert_eq!(warnings, 0);
    let out = parse_nodes(&nodes, true);
    assert!(out.contains("<strong>bold</strong>"));
    assert!(out.contains(" and "));
    assert!(out.contains("<em>italic</em>"));
    assert_eq!(out.matches("<strong>").count(), out.matches("</strong>").count());
    assert_eq!(out.matches("<em>").count(), out.matches("</em>").count());
}

#[test]
fn bold_markup_renders_exactly() {
    let nodes = vec![
        MarkupNode::Bold,
        text("bold"),
        MarkupNode::Bold,
        text(" and "),
        MarkupNode::Italic,
        text("italic"),
        MarkupNode::Italic,
    ];
    let out = parse_nodes(&nodes, true);
    assert_eq!(out, "<strong>bold</strong> and <em>italic</em>");
}

#[test]
fn two_citations_number_footnotes_in_order() {
    let nodes = vec![
        MarkupNode::GenericTag { name: String::from("ref"), nodes: vec![text("one")] },
        MarkupNode::GenericTag { name: String::from("ref"), nodes: vec![text("two")] },
    ];
    let mut st = fresh();
    let out = render_nodes(&nodes, RenderMode::WithFootnotes, &mut st, 8);
    assert_eq!(
        out,
        "<sup><a href=\"#ref-1\">[1]</a></sup> <sup><a href=\"#ref-2\">[2]</a></sup> "
    );
    assert_eq!(st.refs, "<li id=\"ref-1\">one</li>\n <li id=\"ref-2\">two</li>\n ");
    assert_eq!(st.counter, 3);
}

#[test]
fn citations_with_footnote_list_emit_numbered_entries() {
    let (nodes, _) = parse_markup("a<ref>one</ref>b<ref>two</ref>{{reflist}}");
    let out = parse_nodes(&nodes, true);
    let first = out.find("#ref-1").expect("first anchor present");
    let second = out.find("#ref-2").expect("second anchor present");
    assert!(first < second);
    let list_at = out.find("<ol>").expect("footnote list present");
    let one_at = out[list_at..].find("one").expect("first entry in the list");
    let two_at = out[list_at..].find("two").expect("second entry in the list");
    assert!(one_at < two_at);
}

#[test]
fn citation_stays_inline_without_footnotes() {
    let nodes = vec![
        MarkupNode::GenericTag { name: String::from("ref"), nodes: vec![text("one")] },
    ];
    let out = parse_nodes(&nodes, false);
    assert_eq!(out, "<ref>one</ref>\n");
}

#[test]
fn external_link_splits_url_and_label() {
    let nodes = vec![
        MarkupNode::ExternalLink { nodes: vec![text("http://example.com Example")] },
    ];
    let out = parse_nodes(&nodes, true);
    assert_eq!(out, "<a href=\"http://example.com\">Example</a>");
}

#[test]
fn external_link_without_whitespace_has_empty_label() {
    let nodes = vec![MarkupNode::ExternalLink { nodes: vec![text("http://example.com")] }];
    let out = parse_nodes(&nodes, true);
    assert_eq!(out, "<a href=\"http://example.com\"></a>");
}

#[test]
fn external_link_parses_from_markup() {
    let (nodes, _) = parse_markup("[http://example.com Example]");
    let out = parse_nodes(&nodes, true);
    assert!(out.contains("<a href=\"http://example.com\">Example</a>"));
}

#[test]
fn fallback_template_embeds_images_and_plain_rows() {
    let params = vec![
        (String::from("image"), String::from("x.jpg")),
        (String::from("caption"), String::from("hi")),
    ];
    let out = simple_tab(params);
    assert_eq!(out, "image: <img src=\"x.jpg\"/><br>\ncaption: hi<br>\n");
}

#[test]
fn fallback_table_linkifies_bare_urls() {
    let params = vec![(String::from("url"), String::from("https://a.example/page"))];
    let out = simple_tab(params);
    assert_eq!(
        out,
        "url: <a href=\"https://a.example/page\">https://a.example/page</a><br>\n"
    );
}

#[test]
fn fallback_table_detects_image_suffix_case_insensitively() {
    let params = vec![(String::from("photo"), String::from("shot.PNG"))];
    let out = simple_tab(params);
    assert_eq!(out, "photo: <img src=\"shot.PNG\"/><br>\n");
}

#[test]
fn fallback_template_renders_name_then_table() {
    let nodes = vec![MarkupNode::Template {
        name: vec![text("infobox")],
        parameters: vec![TemplateParam {
            name: Some(vec![text("image")]),
            value: vec![text("x.jpg")],
        }],
    }];
    let out = parse_nodes(&nodes, true);
    assert_eq!(out, "infobox:<br> image: <img src=\"x.jpg\"/><br>\n");
}

#[test]
fn template_names_match_case_insensitively() {
    let nodes = vec![MarkupNode::Template { name: vec![text("Clear")], parameters: vec![] }];
    assert_eq!(parse_nodes(&nodes, true), "<br><br>\n");
}

#[test]
fn main_template_links_to_first_parameter() {
    let nodes = vec![MarkupNode::Template {
        name: vec![text("main")],
        parameters: vec![TemplateParam { name: None, value: vec![text("Earth")] }],
    }];
    assert_eq!(
        parse_nodes(&nodes, true),
        "<em>See the main article: <a href=\"/Earth\">Earth</a></em><br><br>\n"
    );
}

#[test]
fn height_template_concatenates_values_reversed() {
    let nodes = vec![MarkupNode::Template {
        name: vec![text("height")],
        parameters: vec![
            TemplateParam { name: Some(vec![text("ft")]), value: vec![text("6")] },
            TemplateParam { name: Some(vec![text("in")]), value: vec![text("2")] },
        ],
    }];
    assert_eq!(parse_nodes(&nodes, true), "26");
}

#[test]
fn convert_template_concatenates_first_four_values() {
    let nodes = vec![MarkupNode::Template {
        name: vec![text("convert")],
        parameters: vec![
            TemplateParam { name: None, value: vec![text("5")] },
            TemplateParam { name: None, value: vec![text(" ")] },
            TemplateParam { name: None, value: vec![text("km")] },
            TemplateParam { name: None, value: vec![text("!")] },
            TemplateParam { name: None, value: vec![text("ignored")] },
        ],
    }];
    assert_eq!(parse_nodes(&nodes, true), "5 km!");
}

#[test]
fn rp_template_joins_values_in_superscript() {
    let nodes = vec![MarkupNode::Template {
        name: vec![text("rp")],
        parameters: vec![
            TemplateParam { name: None, value: vec![text("12")] },
            TemplateParam { name: None, value: vec![text("34")] },
        ],
    }];
    assert_eq!(parse_nodes(&nodes, true), "<sup>:12 34</sup>");
}

#[test]
fn parse_parameters_resolves_names_and_values() {
    let params = vec![
        TemplateParam { name: Some(vec![text("a")]), value: vec![text("1")] },
        TemplateParam { name: None, value: vec![text("2")] },
    ];
    let out = parse_parameters(&params, 8);
    assert_eq!(out.len(), 2);
    assert_eq!(out[0].0, "a");
    assert_eq!(out[0].1, "1");
    assert_eq!(out[1].0, "");
    assert_eq!(out[1].1, "2");
}

#[test]
fn heading_wraps_inline_content() {
    let nodes = vec![MarkupNode::Heading { level: 2, nodes: vec![text("Top")] }];
    assert_eq!(parse_nodes(&nodes, true), "<h2>Top</h2>\n");
}

#[test]
fn link_target_spaces_become_underscores() {
    let nodes = vec![MarkupNode::Link {
        target: String::from("Main Page"),
        text: vec![text("the main page")],
    }];
    assert_eq!(
        parse_nodes(&nodes, true),
        "<a href=\"/Main_Page\">the main page</a>"
    );
}

#[test]
fn category_without_ordinal_uses_target_as_label() {
    let nodes = vec![MarkupNode::Category { target: String::from("Birds"), ordinal: vec![] }];
    assert_eq!(parse_nodes(&nodes, true), "<a href=\"/Birds\">Birds</a>");
}

#[test]
fn category_with_ordinal_renders_it_as_label() {
    let nodes = vec![MarkupNode::Category {
        target: String::from("Birds"),
        ordinal: vec![text("order")],
    }];
    assert_eq!(parse_nodes(&nodes, true), "<a href=\"/Birds\">order</a>");
}

#[test]
fn image_caption_is_last_pipe_segment() {
    let nodes = vec![MarkupNode::Image {
        target: String::from("x.jpg"),
        text: vec![text("thumb|right|A caption")],
    }];
    assert_eq!(
        parse_nodes(&nodes, true),
        "<img src=\"x.jpg\" /> <p>A caption</p>\n"
    );
}

#[test]
fn image_without_pipe_uses_whole_text_as_caption() {
    let nodes = vec![MarkupNode::Image { target: String::from("x.jpg"), text: vec![text("solo")] }];
    assert_eq!(parse_nodes(&nodes, true), "<img src=\"x.jpg\" /> <p>solo</p>\n");
}

#[test]
fn lists_wrap_items_inline() {
    let nodes = vec![MarkupNode::OrderedList {
        items: vec![
            ListEntry { nodes: vec![text("a")] },
            ListEntry { nodes: vec![text("b")] },
        ],
    }];
    assert_eq!(parse_nodes(&nodes, true), "<ol>\n<li>a</li>\n<li>b</li>\n</ol>\n");
    let nodes2 = vec![MarkupNode::UnorderedList { items: vec![ListEntry { nodes: vec![text("c")] }] }];
    assert_eq!(parse_nodes(&nodes2, true), "<ul>\n<li>c</li>\n</ul>\n");
}

#[test]
fn miscellaneous_leaf_nodes_render_literally() {
    assert_eq!(parse_nodes(&vec![MarkupNode::HorizontalRule], true), "<hr>");
    assert_eq!(parse_nodes(&vec![MarkupNode::ParagraphBreak], true), "<br><br>\n");
    assert_eq!(
        parse_nodes(&vec![MarkupNode::Redirect { target: String::from("There") }], true),
        "REDIRECT TO: There"
    );
    assert_eq!(
        parse_nodes(&vec![MarkupNode::StartTag { name: String::from("b") }], true),
        "<b>"
    );
    assert_eq!(
        parse_nodes(&vec![MarkupNode::EndTag { name: String::from("b") }], true),
        "</b>\n"
    );
    assert_eq!(
        parse_nodes(&vec![MarkupNode::CharacterEntity { character: 'é' }], true),
        "é"
    );
    assert_eq!(parse_nodes(&vec![MarkupNode::Other], true), "");
}

#[test]
fn unsupported_variants_leave_visible_gaps() {
    assert_eq!(
        parse_nodes(&vec![MarkupNode::Table], true),
        "[unsupported table]"
    );
    assert_eq!(
        parse_nodes(&vec![MarkupNode::DefinitionList], true),
        "[unsupported definition list]"
    );
    assert_eq!(
        parse_nodes(&vec![MarkupNode::Parameter], true),
        "[unsupported parameter]"
    );
    assert_eq!(
        parse_nodes(
            &vec![MarkupNode::GenericTag { name: String::from("gallery"), nodes: vec![] }],
            true
        ),
        "[unsupported tag gallery]"
    );
}

#[test]
fn magic_word_toggles_marker_span() {
    let nodes = vec![MarkupNode::MagicWord, text("x"), MarkupNode::MagicWord];
    assert_eq!(parse_nodes(&nodes, true), "<magic>x</magic>");
}

#[test]
fn whole_transducer_renders_wiki_text() {
    let out = wikipedia::render::render_wikitext("'''b''' [http://a.example L]", false)
        .expect("small input renders");
    assert!(out.contains("<strong>b</strong>"));
    assert!(out.contains("<a href=\"http://a.example\">L</a>"));
}

#[test]
fn unbalanced_toggle_is_preserved_not_fixed() {
    let nodes = vec![MarkupNode::Bold, text("open")];
    assert_eq!(parse_nodes(&nodes, true), "<strong>open");
}
