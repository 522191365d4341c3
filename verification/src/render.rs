//! The recursive markup-to-hypertext transducer.
//!
//! The markup grammar itself is a collaborator (parse_wiki_text): it turns
//! wiki text into a typed node tree. The tree is mirrored into the plain
//! [`MarkupNode`] type below, and every rendering decision over it — the
//! line-oriented bold/italic toggling, the deferred footnotes, the named
//! template rules and the fallback table — is verified.

use vstd::prelude::*;
use vstd::string::StrSliceExecFns;
use vstd::string::StringExecFns;

use crate::strutil::{
    contains_seq, contains_sub, dec_digits, ends_with_seq, ends_with, find_ws, first_ws_at,
    last_at, lower_seq, ascii_lower, replace_spaces, rfind_char, str_eq, u64_to_string,
    underscored, lemma_first_ws_at,
};

use parse_wiki_text::Node as PN;

verus! {

// ---------------------------------------------------------------------------
// The markup node tree, as plain values
// ---------------------------------------------------------------------------

/// One item of an ordered or unordered list.
#[derive(Debug)]
pub struct ListEntry {
    pub nodes: Vec<MarkupNode>,
}

/// One parameter of a template invocation: an optional name and a value,
/// both given as markup.
#[derive(Debug)]
pub struct TemplateParam {
    pub name: Option<Vec<MarkupNode>>,
    pub value: Vec<MarkupNode>,
}

/// A markup node, as the grammar collaborator produces it, holding only
/// plain values.
#[derive(Debug)]
pub enum MarkupNode {
    /// Toggle bold text.
    Bold,
    /// Toggle bold and italic text at once.
    BoldItalic,
    /// Toggle italic text.
    Italic,
    /// Literal text.
    Text { value: String },
    /// A decoded character entity.
    CharacterEntity { character: char },
    /// An internal link.
    Link { target: String, text: Vec<MarkupNode> },
    /// An external link: the first blank space splits URL from label.
    ExternalLink { nodes: Vec<MarkupNode> },
    /// A heading of the given level.
    Heading { level: u8, nodes: Vec<MarkupNode> },
    /// A thematic break.
    HorizontalRule,
    /// An embedded image with caption markup.
    Image { target: String, text: Vec<MarkupNode> },
    /// A category link with optional ordinal markup.
    Category { target: String, ordinal: Vec<MarkupNode> },
    /// An ordered list.
    OrderedList { items: Vec<ListEntry> },
    /// An unordered list.
    UnorderedList { items: Vec<ListEntry> },
    /// A definition list: explicitly unsupported.
    DefinitionList,
    /// A paragraph break.
    ParagraphBreak,
    /// Preformatted content.
    Preformatted { nodes: Vec<MarkupNode> },
    /// A redirect notice.
    Redirect { target: String },
    /// A raw start tag.
    StartTag { name: String },
    /// A raw end tag.
    EndTag { name: String },
    /// An extension tag with content: the citation tag defers to the
    /// footnote list, every other name is an explicit gap.
    GenericTag { name: String, nodes: Vec<MarkupNode> },
    /// A template invocation.
    Template { name: Vec<MarkupNode>, parameters: Vec<TemplateParam> },
    /// A raw template parameter at top level: explicitly unsupported.
    Parameter,
    /// A table: explicitly unsupported.
    Table,
    /// A magic word: toggles a marker span.
    MagicWord,
    /// Any node kind the renderer deliberately skips.
    Other,
}

/// How a top-level render call treats citation tags.
#[derive(Clone, Copy, Debug, PartialEq, Eq, Structural)]
pub enum RenderMode {
    /// Citations become numbered footnotes, collected for the footnote
    /// list.
    WithFootnotes,
    /// Citations stay inline.
    Inline,
}

// ---------------------------------------------------------------------------
// Trusted view of the markup grammar collaborator
// ---------------------------------------------------------------------------

#[verifier::external_type_specification]
#[verifier::external_body]
pub struct ExWikiNode<'a>(parse_wiki_text::Node<'a>);

#[verifier::external_type_specification]
#[verifier::external_body]
pub struct ExWikiParameter<'a>(parse_wiki_text::Parameter<'a>);

#[verifier::external_type_specification]
#[verifier::external_body]
pub struct ExWikiListItem<'a>(parse_wiki_text::ListItem<'a>);

/// What the markup grammar derives from the text `s`: the node tree and
/// the number of warnings it reported, both functions of the characters
/// alone.
pub uninterp spec fn parsed_markup(s: Seq<char>) -> (Seq<MarkupNode>, nat);

#[verifier::external_body]
fn conv_nodes(ns: &Vec<parse_wiki_text::Node<'_>>) -> Vec<MarkupNode> {
    ns.iter().map(conv_node).collect()
}

#[verifier::external_body]
fn conv_items(its: &Vec<parse_wiki_text::ListItem<'_>>) -> Vec<ListEntry> {
    its.iter().map(|it| ListEntry { nodes: conv_nodes(&it.nodes) }).collect()
}

#[verifier::external_body]
fn conv_params(ps: &Vec<parse_wiki_text::Parameter<'_>>) -> Vec<TemplateParam> {
    ps.iter().map(
        |p| TemplateParam {
            name: p.name.as_ref().map(|n| conv_nodes(n)),
            value: conv_nodes(&p.value),
        },
    ).collect()
}

#[verifier::external_body]
fn conv_node(n: &parse_wiki_text::Node<'_>) -> MarkupNode {
    match n {
        PN::Bold { .. } => MarkupNode::Bold,
        PN::BoldItalic { .. } => MarkupNode::BoldItalic,
        PN::Italic { .. } => MarkupNode::Italic,
        PN::MagicWord { .. } => MarkupNode::MagicWord,
        PN::HorizontalDivider { .. } => MarkupNode::HorizontalRule,
        PN::ParagraphBreak { .. } => MarkupNode::ParagraphBreak,
        PN::DefinitionList { .. } => MarkupNode::DefinitionList,
        PN::Parameter { .. } => MarkupNode::Parameter,
        PN::Table { .. } => MarkupNode::Table,
        PN::CharacterEntity { character, .. } => MarkupNode::CharacterEntity { character: *character },
        other => conv_node_more(other),
    }
}

#[verifier::external_body]
fn conv_node_more(n: &parse_wiki_text::Node<'_>) -> MarkupNode {
    match n {
        PN::Text { value, .. } => MarkupNode::Text { value: (*value).to_owned() },
        PN::Redirect { target, .. } => MarkupNode::Redirect { target: (*target).to_owned() },
        PN::StartTag { name, .. } => MarkupNode::StartTag { name: name.to_string() },
        PN::EndTag { name, .. } => MarkupNode::EndTag { name: name.to_string() },
        PN::Preformatted { nodes, .. } => MarkupNode::Preformatted { nodes: conv_nodes(nodes) },
        PN::ExternalLink { nodes, .. } => MarkupNode::ExternalLink { nodes: conv_nodes(nodes) },
        PN::Heading { level, nodes, .. } => MarkupNode::Heading { level: *level, nodes: conv_nodes(nodes) },
        other => conv_node_rest(other),
    }
}

#[verifier::external_body]
fn conv_node_rest(n: &parse_wiki_text::Node<'_>) -> MarkupNode {
    match n {
        PN::Link { target, text, .. } => MarkupNode::Link { target: (*target).to_owned(), text: conv_nodes(text) },
        PN::Image { target, text, .. } => MarkupNode::Image { target: (*target).to_owned(), text: conv_nodes(text) },
        PN::Category { target, ordinal, .. } => MarkupNode::Category { target: (*target).to_owned(), ordinal: conv_nodes(ordinal) },
        PN::OrderedList { items, .. } => MarkupNode::OrderedList { items: conv_items(items) },
        PN::UnorderedList { items, .. } => MarkupNode::UnorderedList { items: conv_items(items) },
        other => conv_node_last(other),
    }
}

#[verifier::external_body]
fn conv_node_last(n: &parse_wiki_text::Node<'_>) -> MarkupNode {
    match n {
        PN::Tag { name, nodes, .. } => MarkupNode::GenericTag { name: name.to_string(), nodes: conv_nodes(nodes) },
        PN::Template { name, parameters, .. } => MarkupNode::Template { name: conv_nodes(name), parameters: conv_params(parameters) },
        _ => MarkupNode::Other,
    }
}

/// Relies on `parse_wiki_text::Configuration::parse`: turns wiki text into
/// its node tree, a function of the text alone; the second result is how
/// many warnings the grammar reported, for the caller to judge.
#[verifier::external_body]
pub fn parse_markup(s: &str) -> (r: (Vec<MarkupNode>, usize))
    ensures
        r.0@ == parsed_markup(s@).0,
        r.1 as nat == parsed_markup(s@).1,
{
    let out = parse_wiki_text::Configuration::default().parse(s);
    (conv_nodes(&out.nodes), out.warnings.len())
}

// ---------------------------------------------------------------------------
// The rendering rules, as spec functions
// ---------------------------------------------------------------------------

/// Mathematical content of the render state threaded through one node
/// sequence: the three line-oriented toggles, the footnote buffer, and the
/// one-based footnote counter.
pub ghost struct RSt {
    pub bold: bool,
    pub italic: bool,
    pub magic: bool,
    pub refs: Seq<char>,
    pub counter: nat,
}

/// The render state at the start of a render call: all toggles off, no
/// footnotes, counter at one.
pub open spec fn init_rst() -> RSt {
    RSt { bold: false, italic: false, magic: false, refs: Seq::empty(), counter: 1 }
}

/// The render state threaded through one render call.
pub struct RenderState {
    pub bold: bool,
    pub italic: bool,
    pub magic: bool,
    pub refs: String,
    pub counter: u64,
}

impl View for RenderState {
    type V = RSt;

    open spec fn view(&self) -> RSt {
        RSt {
            bold: self.bold,
            italic: self.italic,
            magic: self.magic,
            refs: self.refs@,
            counter: self.counter as nat,
        }
    }
}

/// A flip of the bold toggle: the opening tag on the flip to on, the
/// closing tag on the flip to off.
pub open spec fn spec_toggle_bold(st: RSt) -> (Seq<char>, RSt) {
    if !st.bold {
        ("<strong>"@, RSt { bold: true, ..st })
    } else {
        ("</strong>"@, RSt { bold: false, ..st })
    }
}

/// A flip of the italic toggle.
pub open spec fn spec_toggle_italic(st: RSt) -> (Seq<char>, RSt) {
    if !st.italic {
        ("<em>"@, RSt { italic: true, ..st })
    } else {
        ("</em>"@, RSt { italic: false, ..st })
    }
}

/// A flip of the magic-word toggle.
pub open spec fn spec_toggle_magic(st: RSt) -> (Seq<char>, RSt) {
    if !st.magic {
        ("<magic>"@, RSt { magic: true, ..st })
    } else {
        ("</magic>"@, RSt { magic: false, ..st })
    }
}

/// Parameter values from position `len`-1 down to zero, concatenated onto
/// `acc` with no separator: the stacked-dimensions rule.
pub open spec fn spec_rev_cat(ps: Seq<(Seq<char>, Seq<char>)>, k: int, acc: Seq<char>) -> Seq<char>
    decreases k,
{
    if k <= 0 {
        acc
    } else {
        spec_rev_cat(ps, k - 1, acc + ps[k - 1].1)
    }
}

/// Parameter values from position `i` up to `upto`, concatenated onto
/// `acc` with no separator: the unit-conversion rule.
pub open spec fn spec_cat_upto(
    ps: Seq<(Seq<char>, Seq<char>)>,
    i: int,
    upto: int,
    acc: Seq<char>,
) -> Seq<char>
    decreases upto - i,
{
    if i >= upto {
        acc
    } else {
        spec_cat_upto(ps, i + 1, upto, acc + ps[i].1)
    }
}

/// Parameter values joined with single spaces onto `acc`: the
/// reference-page rule.
pub open spec fn spec_sp_join(ps: Seq<(Seq<char>, Seq<char>)>, i: int, acc: Seq<char>) -> Seq<char>
    decreases ps.len() - i,
{
    if i < 0 || i >= ps.len() {
        acc
    } else if i == 0 {
        spec_sp_join(ps, 1, acc + ps[0].1)
    } else {
        spec_sp_join(ps, i + 1, acc + " "@ + ps[i].1)
    }
}

/// One row of the fallback table. A value holding an http or https scheme
/// and no markup yet becomes a hyperlink; a value named `image`, or ending
/// in a recognized image suffix, is embedded as an image element.
pub open spec fn spec_tab_row(name: Seq<char>, value: Seq<char>) -> Seq<char> {
    let v1 = if (contains_seq(value, "http://"@) || contains_seq(value, "https://"@))
        && !contains_seq(value, "<"@) {
        "<a href=\""@ + value + "\">"@ + value + "</a>"@
    } else {
        value
    };
    let v2 = if name == "image"@ || ends_with_seq(lower_seq(v1), ".jpg"@) || ends_with_seq(
        lower_seq(v1),
        ".png"@,
    ) {
        "<img src=\""@ + v1 + "\"/>"@
    } else {
        v1
    };
    name + ": "@ + v2 + "<br>\n"@
}

/// The fallback table over resolved parameters, one row per parameter.
pub open spec fn spec_simple_tab(ps: Seq<(Seq<char>, Seq<char>)>, i: int, acc: Seq<char>) -> Seq<
    char,
>
    decreases ps.len() - i,
{
    if i < 0 || i >= ps.len() {
        acc
    } else {
        spec_simple_tab(ps, i + 1, acc + spec_tab_row(ps[i].0, ps[i].1))
    }
}

/// Renders a node sequence left to right, threading the state, and
/// returning the emitted text and the state after it.
pub open spec fn spec_render_nodes(
    nodes: Seq<MarkupNode>,
    mode: RenderMode,
    st: RSt,
    depth: nat,
) -> (Seq<char>, RSt)
    decreases depth, nodes, 2int,
{
    if nodes.len() == 0 {
        (Seq::empty(), st)
    } else {
        let (o1, st1) = spec_render_node(nodes[0], mode, st, depth);
        let (o2, st2) = spec_render_nodes(nodes.drop_first(), mode, st1, depth);
        (o1 + o2, st2)
    }
}

/// Resolves template parameters in declared order: each optional name and
/// each value rendered inline with a fresh state.
pub open spec fn spec_params(ps: Seq<TemplateParam>, depth: nat) -> Seq<(Seq<char>, Seq<char>)>
    decreases depth, ps, 2int,
{
    if ps.len() == 0 {
        Seq::empty()
    } else {
        let nm = match ps[0].name {
            Some(nn) => spec_render_nodes(nn@, RenderMode::Inline, init_rst(), depth).0,
            None => Seq::empty(),
        };
        let vl = spec_render_nodes(ps[0].value@, RenderMode::Inline, init_rst(), depth).0;
        seq![(nm, vl)] + spec_params(ps.drop_first(), depth)
    }
}

/// List items in order, each rendered inline with a fresh state and
/// wrapped as a list item, concatenated onto `acc`.
pub open spec fn spec_list_items(items: Seq<ListEntry>, i: int, depth: nat, acc: Seq<char>) -> Seq<
    char,
>
    decreases depth, items, items.len() - i + 2,
{
    if i < 0 || i >= items.len() {
        acc
    } else {
        let inner = spec_render_nodes(items[i].nodes@, RenderMode::Inline, init_rst(), depth).0;
        spec_list_items(items, i + 1, depth, acc + "<li>"@ + inner + "</li>\n"@)
    }
}

/// The rendering of one node: the emitted text and the state after it.
/// Each rule follows the per-variant behavior documented on the node type;
/// nested markup is always rendered inline with a fresh state.
pub open spec fn spec_render_node(n: MarkupNode, mode: RenderMode, st: RSt, depth: nat) -> (
    Seq<char>,
    RSt,
)
    decreases depth, n, 1int,
{
    match n {
        MarkupNode::Bold => spec_toggle_bold(st),
        MarkupNode::Italic => spec_toggle_italic(st),
        MarkupNode::BoldItalic => {
            let (ob, st1) = spec_toggle_bold(st);
            let (oi, st2) = spec_toggle_italic(st1);
            (ob + oi, st2)
        },
        MarkupNode::MagicWord => spec_toggle_magic(st),
        MarkupNode::Text { value } => (value@, st),
        MarkupNode::CharacterEntity { character } => (Seq::empty().push(character), st),
        MarkupNode::Link { target, text } => {
            let label = spec_render_nodes(text@, RenderMode::Inline, init_rst(), depth).0;
            ("<a href=\"/"@ + underscored(target@) + "\">"@ + label + "</a>"@, st)
        },
        MarkupNode::ExternalLink { nodes } => {
            let t = spec_render_nodes(nodes@, RenderMode::Inline, init_rst(), depth).0;
            let w = first_ws_at(t, 0);
            let url = t.subrange(0, w);
            let label = if w < t.len() {
                t.subrange(w + 1, t.len() as int)
            } else {
                Seq::empty()
            };
            ("<a href=\""@ + url + "\">"@ + label + "</a>"@, st)
        },
        MarkupNode::Heading { level, nodes } => {
            let inner = spec_render_nodes(nodes@, RenderMode::Inline, init_rst(), depth).0;
            let num = dec_digits(level as nat);
            ("<h"@ + num + ">"@ + inner + "</h"@ + num + ">\n"@, st)
        },
        MarkupNode::HorizontalRule => ("<hr>"@, st),
        MarkupNode::Image { target, text } => {
            let t = spec_render_nodes(text@, RenderMode::Inline, init_rst(), depth).0;
            let caption = t.subrange(last_at(t, '|') + 1, t.len() as int);
            ("<img src=\""@ + target@ + "\" /> <p>"@ + caption + "</p>\n"@, st)
        },
        MarkupNode::Category { target, ordinal } => {
            if ordinal@.len() == 0 {
                ("<a href=\"/"@ + target@ + "\">"@ + target@ + "</a>"@, st)
            } else {
                let label = spec_render_nodes(ordinal@, RenderMode::Inline, init_rst(), depth).0;
                ("<a href=\"/"@ + target@ + "\">"@ + label + "</a>"@, st)
            }
        },
        MarkupNode::OrderedList { items } => (
            spec_list_items(items@, 0, depth, "<ol>\n"@) + "</ol>\n"@,
            st,
        ),
        MarkupNode::UnorderedList { items } => (
            spec_list_items(items@, 0, depth, "<ul>\n"@) + "</ul>\n"@,
            st,
        ),
        MarkupNode::DefinitionList => ("[unsupported definition list]"@, st),
        MarkupNode::ParagraphBreak => ("<br><br>\n"@, st),
        MarkupNode::Preformatted { nodes } => {
            let inner = spec_render_nodes(nodes@, RenderMode::Inline, init_rst(), depth).0;
            (inner + "\n"@, st)
        },
        MarkupNode::Redirect { target } => ("REDIRECT TO: "@ + target@, st),
        MarkupNode::StartTag { name } => ("<"@ + name@ + ">"@, st),
        MarkupNode::EndTag { name } => ("</"@ + name@ + ">\n"@, st),
        MarkupNode::GenericTag { name, nodes } => {
            let inner = spec_render_nodes(nodes@, RenderMode::Inline, init_rst(), depth).0;
            if name@ == "ref"@ {
                if mode == RenderMode::WithFootnotes {
                    let num = dec_digits(st.counter);
                    let entry = "<li id=\"ref-"@ + num + "\">"@ + inner + "</li>\n "@;
                    let anchor = "<sup><a href=\"#ref-"@ + num + "\">["@ + num
                        + "]</a></sup> "@;
                    (
                        anchor,
                        RSt { refs: st.refs + entry, counter: st.counter + 1, ..st },
                    )
                } else {
                    ("<ref>"@ + inner + "</ref>\n"@, st)
                }
            } else {
                ("[unsupported tag "@ + name@ + "]"@, st)
            }
        },
        MarkupNode::Template { name, parameters } => {
            let tname = spec_render_nodes(name@, RenderMode::Inline, init_rst(), depth).0;
            let ps = spec_params(parameters@, depth);
            let low = lower_seq(tname);
            if low == "reflist"@ {
                if depth > 0 {
                    let inner = spec_render_nodes(
                        parsed_markup(st.refs).0,
                        RenderMode::Inline,
                        init_rst(),
                        (depth - 1) as nat,
                    ).0;
                    ("<ol>\n"@ + inner + "</ol>\n"@, st)
                } else {
                    ("[nesting too deep]"@, st)
                }
            } else if low == "main"@ {
                if ps.len() > 0 {
                    (
                        "<em>See the main article: <a href=\"/"@ + ps[0].1 + "\">"@ + ps[0].1
                            + "</a></em><br><br>\n"@,
                        st,
                    )
                } else {
                    (Seq::empty(), st)
                }
            } else if low == "height"@ {
                (spec_rev_cat(ps, ps.len() as int, Seq::empty()), st)
            } else if low == "convert"@ {
                let upto = if ps.len() < 4 {
                    ps.len() as int
                } else {
                    4
                };
                (spec_cat_upto(ps, 0, upto, Seq::empty()), st)
            } else if low == "clear"@ {
                ("<br><br>\n"@, st)
            } else if low == "rp"@ {
                (spec_sp_join(ps, 0, "<sup>:"@) + "</sup>"@, st)
            } else {
                (tname + ":<br> "@ + spec_simple_tab(ps, 0, Seq::empty()), st)
            }
        },
        MarkupNode::Parameter => ("[unsupported parameter]"@, st),
        MarkupNode::Table => ("[unsupported table]"@, st),
        MarkupNode::Other => (Seq::empty(), st),
    }
}

// ---------------------------------------------------------------------------
// The executable renderer
// ---------------------------------------------------------------------------

/// How deep the footnote-list re-parse may nest before the renderer emits
/// a gap marker instead of recursing further.
pub const RENDER_DEPTH: u64 = 8;

/// The views of resolved parameter pairs.
pub open spec fn pviews(ps: Seq<(String, String)>) -> Seq<(Seq<char>, Seq<char>)> {
    ps.map_values(|p: (String, String)| (p.0@, p.1@))
}

fn fresh_state() -> (r: RenderState)
    ensures
        r@ == init_rst(),
{
    RenderState { bold: false, italic: false, magic: false, refs: String::new(), counter: 1 }
}

/// One node advances the footnote counter by at most one.
proof fn lemma_counter_node(n: MarkupNode, mode: RenderMode, st: RSt, depth: nat)
    ensures
        spec_render_node(n, mode, st, depth).1.counter <= st.counter + 1,
{
}

/// A node sequence advances the footnote counter by at most its length.
proof fn lemma_counter_nodes(nodes: Seq<MarkupNode>, mode: RenderMode, st: RSt, depth: nat)
    ensures
        spec_render_nodes(nodes, mode, st, depth).1.counter <= st.counter + nodes.len(),
    decreases nodes.len(),
{
    if nodes.len() > 0 {
        lemma_counter_node(nodes[0], mode, st, depth);
        lemma_counter_nodes(
            nodes.drop_first(),
            mode,
            spec_render_node(nodes[0], mode, st, depth).1,
            depth,
        );
    }
}

/// Renders a node sequence left to right, threading the toggles and the
/// footnote state through `st`.
pub fn render_nodes(
    nodes: &Vec<MarkupNode>,
    mode: RenderMode,
    st: &mut RenderState,
    depth: u64,
) -> (out: String)
    requires
        mode == RenderMode::WithFootnotes ==> old(st)@.counter + nodes@.len() <= u64::MAX,
    ensures
        ({
            let (o, st2) = spec_render_nodes(nodes@, mode, old(st)@, depth as nat);
            out@ == o && final(st)@ == st2
        }),
    decreases depth, nodes@, 3int,
{
    let mut out = String::new();
    let n = nodes.len();
    let mut i: usize = 0;
    proof {
        assert(nodes@.skip(0) =~= nodes@);
    }
    while i < n
        invariant
            0 <= i <= n == nodes@.len(),
            mode == RenderMode::WithFootnotes ==> st@.counter + (n - i) <= u64::MAX,
            ({
                let (o2, st2) = spec_render_nodes(nodes@.skip(i as int), mode, st@, depth as nat);
                let (fo, fst) = spec_render_nodes(nodes@, mode, old(st)@, depth as nat);
                fo == out@ + o2 && fst == st2
            }),
        decreases n - i,
    {
        let ghost st_before = st@;
        let ghost out_before = out@;
        let o = render_node(&nodes[i], mode, st, depth);
        out.append(o.as_str());
        proof {
            assert(nodes@.skip(i as int)[0] == nodes@[i as int]);
            assert(nodes@.skip(i as int).drop_first() =~= nodes@.skip(i + 1));
            lemma_counter_node(nodes@[i as int], mode, st_before, depth as nat);
            let (o2b, _) = spec_render_nodes(nodes@.skip(i + 1), mode, st@, depth as nat);
            assert((out_before + o@) + o2b =~= out_before + (o@ + o2b));
        }
        i = i + 1;
    }
    proof {
        let (o2, _) = spec_render_nodes(nodes@.skip(n as int), mode, st@, depth as nat);
        assert(out@ + o2 =~= out@);
    }
    out
}

/// Resolves template parameters to (name, value) pairs, each rendered
/// inline with a fresh state.
pub fn parse_parameters(parameters: &Vec<TemplateParam>, depth: u64) -> (out: Vec<(String, String)>)
    ensures
        pviews(out@) == spec_params(parameters@, depth as nat),
    decreases depth, parameters@, 3int,
{
    let mut out: Vec<(String, String)> = Vec::new();
    let n = parameters.len();
    let mut i: usize = 0;
    proof {
        assert(parameters@.skip(0) =~= parameters@);
        assert(pviews(out@) =~= Seq::<(Seq<char>, Seq<char>)>::empty());
    }
    while i < n
        invariant
            0 <= i <= n == parameters@.len(),
            spec_params(parameters@, depth as nat) == pviews(out@) + spec_params(
                parameters@.skip(i as int),
                depth as nat,
            ),
        decreases n - i,
    {
        proof {
            assert(parameters@.skip(i as int)[0] == parameters@[i as int]);
            assert(parameters@.skip(i as int).drop_first() =~= parameters@.skip(i + 1));
        }
        let nm = match &parameters[i].name {
            Some(nn) => {
                let mut fs = fresh_state();
                render_nodes(nn, RenderMode::Inline, &mut fs, depth)
            },
            None => String::new(),
        };
        let mut fs = fresh_state();
        let vl = render_nodes(&parameters[i].value, RenderMode::Inline, &mut fs, depth);
        let ghost out_before = out@;
        let ghost pair = (nm@, vl@);
        out.push((nm, vl));
        proof {
            assert(pviews(out@) =~= pviews(out_before).push(pair));
            let rest = spec_params(parameters@.skip(i + 1), depth as nat);
            assert(pviews(out_before) + (seq![pair] + rest) =~= pviews(out@) + rest);
        }
        i = i + 1;
    }
    proof {
        assert(pviews(out@) + spec_params(parameters@.skip(n as int), depth as nat) =~= pviews(
            out@,
        ));
    }
    out
}

/// Renders list items in order, each inline with a fresh state, wrapped as
/// list items and appended to `start`.
fn render_items(items: &Vec<ListEntry>, depth: u64, start: String) -> (out: String)
    ensures
        out@ == spec_list_items(items@, 0, depth as nat, start@),
    decreases depth, items@, 3int,
{
    let ghost start0 = start@;
    let mut out = start;
    let n = items.len();
    let mut i: usize = 0;
    while i < n
        invariant
            0 <= i <= n == items@.len(),
            spec_list_items(items@, 0, depth as nat, start0) == spec_list_items(
                items@,
                i as int,
                depth as nat,
                out@,
            ),
        decreases n - i,
    {
        let mut fs = fresh_state();
        let inner = render_nodes(&items[i].nodes, RenderMode::Inline, &mut fs, depth);
        out.append("<li>");
        out.append(inner.as_str());
        out.append("</li>\n");
        i = i + 1;
    }
    out
}

/// Concatenates parameter values in reverse declared order: the
/// stacked-dimensions rule.
fn render_height(ps: &Vec<(String, String)>) -> (out: String)
    ensures
        out@ == spec_rev_cat(pviews(ps@), ps@.len() as int, Seq::empty()),
{
    let mut out = String::new();
    let mut k = ps.len();
    while k > 0
        invariant
            0 <= k <= ps@.len(),
            spec_rev_cat(pviews(ps@), ps@.len() as int, Seq::empty()) == spec_rev_cat(
                pviews(ps@),
                k as int,
                out@,
            ),
        decreases k,
    {
        out.append(ps[k - 1].1.as_str());
        k = k - 1;
    }
    out
}

/// Concatenates the first (up to) four parameter values: the
/// unit-conversion rule. With fewer than four parameters the available
/// ones are used — a known limitation of this template's handling.
fn render_convert(ps: &Vec<(String, String)>) -> (out: String)
    ensures
        out@ == ({
            let pv = pviews(ps@);
            let upto = if pv.len() < 4 {
                pv.len() as int
            } else {
                4
            };
            spec_cat_upto(pv, 0, upto, Seq::empty())
        }),
{
    let n = ps.len();
    let upto = if n < 4 {
        n
    } else {
        4
    };
    let mut out = String::new();
    let mut i: usize = 0;
    while i < upto
        invariant
            0 <= i <= upto <= ps@.len(),
            upto == if ps@.len() < 4 {
                ps@.len() as int
            } else {
                4
            },
            spec_cat_upto(pviews(ps@), 0, upto as int, Seq::empty()) == spec_cat_upto(
                pviews(ps@),
                i as int,
                upto as int,
                out@,
            ),
        decreases upto - i,
    {
        out.append(ps[i].1.as_str());
        i = i + 1;
    }
    out
}

/// Joins parameter values with spaces inside a superscript: the
/// reference-page rule.
fn render_rp(ps: &Vec<(String, String)>) -> (out: String)
    ensures
        out@ == spec_sp_join(pviews(ps@), 0, "<sup>:"@) + "</sup>"@,
{
    let mut out = String::from_str("<sup>:");
    let n = ps.len();
    let mut i: usize = 0;
    while i < n
        invariant
            0 <= i <= n == ps@.len(),
            spec_sp_join(pviews(ps@), 0, "<sup>:"@) == spec_sp_join(
                pviews(ps@),
                i as int,
                out@,
            ),
        decreases n - i,
    {
        if i > 0 {
            out.append(" ");
        }
        out.append(ps[i].1.as_str());
        i = i + 1;
    }
    out.append("</sup>");
    out
}

/// The fallback table over resolved parameters: one name-and-value row per
/// parameter, with values auto-linked when they carry a URL scheme and
/// embedded as images when named `image` or ending in an image suffix.
pub fn simple_tab(params: Vec<(String, String)>) -> (out: String)
    ensures
        out@ == spec_simple_tab(pviews(params@), 0, Seq::empty()),
{
    let mut out = String::new();
    let n = params.len();
    let mut i: usize = 0;
    while i < n
        invariant
            0 <= i <= n == params@.len(),
            spec_simple_tab(pviews(params@), 0, Seq::empty()) == spec_simple_tab(
                pviews(params@),
                i as int,
                out@,
            ),
        decreases n - i,
    {
        let p = &params[i];
        let v1 = if (contains_sub(p.1.as_str(), "http://") || contains_sub(
            p.1.as_str(),
            "https://",
        )) && !contains_sub(p.1.as_str(), "<") {
            let mut v = String::from_str("<a href=\"");
            v.append(p.1.as_str());
            v.append("\">");
            v.append(p.1.as_str());
            v.append("</a>");
            v
        } else {
            p.1.clone()
        };
        let low = ascii_lower(v1.as_str());
        let v2 = if str_eq(p.0.as_str(), "image") || ends_with(low.as_str(), ".jpg")
            || ends_with(low.as_str(), ".png") {
            let mut v = String::from_str("<img src=\"");
            v.append(v1.as_str());
            v.append("\"/>");
            v
        } else {
            v1
        };
        let mut row = String::from_str(p.0.as_str());
        row.append(": ");
        row.append(v2.as_str());
        row.append("<br>\n");
        out.append(row.as_str());
        proof {
            assert(row@ == spec_tab_row(pviews(params@)[i as int].0, pviews(params@)[i as int].1));
        }
        i = i + 1;
    }
    out
}

/// Renders one node, mutating the threaded state.
fn render_node(n: &MarkupNode, mode: RenderMode, st: &mut RenderState, depth: u64) -> (out: String)
    requires
        mode == RenderMode::WithFootnotes ==> old(st)@.counter + 1 <= u64::MAX,
    ensures
        ({
            let (o, st2) = spec_render_node(*n, mode, old(st)@, depth as nat);
            out@ == o && final(st)@ == st2
        }),
    decreases depth, *n, 2int,
{
    match n {
        MarkupNode::Bold => {
            if !st.bold {
                st.bold = true;
                String::from_str("<strong>")
            } else {
                st.bold = false;
                String::from_str("</strong>")
            }
        },
        MarkupNode::Italic => {
            if !st.italic {
                st.italic = true;
                String::from_str("<em>")
            } else {
                st.italic = false;
                String::from_str("</em>")
            }
        },
        MarkupNode::BoldItalic => {
            let mut o = if !st.bold {
                st.bold = true;
                String::from_str("<strong>")
            } else {
                st.bold = false;
                String::from_str("</strong>")
            };
            if !st.italic {
                st.italic = true;
                o.append("<em>");
            } else {
                st.italic = false;
                o.append("</em>");
            }
            o
        },
        MarkupNode::MagicWord => {
            if !st.magic {
                st.magic = true;
                String::from_str("<magic>")
            } else {
                st.magic = false;
                String::from_str("</magic>")
            }
        },
        MarkupNode::Text { value } => value.clone(),
        MarkupNode::CharacterEntity { character } => {
            let mut s = String::new();
            crate::strutil::push_char(&mut s, *character);
            s
        },
        MarkupNode::Link { target, text } => {
            let mut fs = fresh_state();
            let label = render_nodes(text, RenderMode::Inline, &mut fs, depth);
            let u = replace_spaces(target.as_str());
            let mut s = String::from_str("<a href=\"/");
            s.append(u.as_str());
            s.append("\">");
            s.append(label.as_str());
            s.append("</a>");
            s
        },
        MarkupNode::ExternalLink { nodes } => {
            let mut fs = fresh_state();
            let t = render_nodes(nodes, RenderMode::Inline, &mut fs, depth);
            proof {
                lemma_first_ws_at(t@, 0);
            }
            let tl = t.as_str().unicode_len();
            let w = find_ws(t.as_str());
            let mut s = String::from_str("<a href=\"");
            s.append(t.as_str().substring_char(0, w));
            s.append("\">");
            if w < tl {
                s.append(t.as_str().substring_char(w + 1, tl));
            } else {
                proof {
                    assert(s@ + Seq::<char>::empty() =~= s@);
                }
            }
            s.append("</a>");
            s
        },
        MarkupNode::Heading { level, nodes } => {
            let mut fs = fresh_state();
            let inner = render_nodes(nodes, RenderMode::Inline, &mut fs, depth);
            let num = u64_to_string(*level as u64);
            let mut s = String::from_str("<h");
            s.append(num.as_str());
            s.append(">");
            s.append(inner.as_str());
            s.append("</h");
            s.append(num.as_str());
            s.append(">\n");
            s
        },
        MarkupNode::HorizontalRule => String::from_str("<hr>"),
        MarkupNode::Image { target, text } => {
            let mut fs = fresh_state();
            let t = render_nodes(text, RenderMode::Inline, &mut fs, depth);
            let tl = t.as_str().unicode_len();
            let k = rfind_char(t.as_str(), '|');
            let mut s = String::from_str("<img src=\"");
            s.append(target.as_str());
            s.append("\" /> <p>");
            s.append(t.as_str().substring_char(k, tl));
            s.append("</p>\n");
            s
        },
        MarkupNode::Category { target, ordinal } => {
            let mut s = String::from_str("<a href=\"/");
            s.append(target.as_str());
            s.append("\">");
            if ordinal.len() == 0 {
                s.append(target.as_str());
            } else {
                let mut fs = fresh_state();
                let label = render_nodes(ordinal, RenderMode::Inline, &mut fs, depth);
                s.append(label.as_str());
            }
            s.append("</a>");
            s
        },
        MarkupNode::OrderedList { items } => {
            let mut s = render_items(items, depth, String::from_str("<ol>\n"));
            s.append("</ol>\n");
            s
        },
        MarkupNode::UnorderedList { items } => {
            let mut s = render_items(items, depth, String::from_str("<ul>\n"));
            s.append("</ul>\n");
            s
        },
        MarkupNode::DefinitionList => String::from_str("[unsupported definition list]"),
        MarkupNode::ParagraphBreak => String::from_str("<br><br>\n"),
        MarkupNode::Preformatted { nodes } => {
            let mut fs = fresh_state();
            let mut s = render_nodes(nodes, RenderMode::Inline, &mut fs, depth);
            s.append("\n");
            s
        },
        MarkupNode::Redirect { target } => {
            let mut s = String::from_str("REDIRECT TO: ");
            s.append(target.as_str());
            s
        },
        MarkupNode::StartTag { name } => {
            let mut s = String::from_str("<");
            s.append(name.as_str());
            s.append(">");
            s
        },
        MarkupNode::EndTag { name } => {
            let mut s = String::from_str("</");
            s.append(name.as_str());
            s.append(">\n");
            s
        },
        MarkupNode::GenericTag { name, nodes } => {
            let mut fs = fresh_state();
            let inner = render_nodes(nodes, RenderMode::Inline, &mut fs, depth);
            if str_eq(name.as_str(), "ref") {
                if mode == RenderMode::WithFootnotes {
                    let num = u64_to_string(st.counter);
                    let mut entry = String::from_str("<li id=\"ref-");
                    entry.append(num.as_str());
                    entry.append("\">");
                    entry.append(inner.as_str());
                    entry.append("</li>\n ");
                    st.refs.append(entry.as_str());
                    st.counter = st.counter + 1;
                    let mut anchor = String::from_str("<sup><a href=\"#ref-");
                    anchor.append(num.as_str());
                    anchor.append("\">[");
                    anchor.append(num.as_str());
                    anchor.append("]</a></sup> ");
                    anchor
                } else {
                    let mut s = String::from_str("<ref>");
                    s.append(inner.as_str());
                    s.append("</ref>\n");
                    s
                }
            } else {
                let mut s = String::from_str("[unsupported tag ");
                s.append(name.as_str());
                s.append("]");
                s
            }
        },
        MarkupNode::Template { name, parameters } => {
            let mut fs = fresh_state();
            let tname = render_nodes(name, RenderMode::Inline, &mut fs, depth);
            let ps = parse_parameters(parameters, depth);
            let low = ascii_lower(tname.as_str());
            if str_eq(low.as_str(), "reflist") {
                if depth > 0 {
                    let parsed = parse_markup(st.refs.as_str());
                    let mut fs2 = fresh_state();
                    let inner = render_nodes(&parsed.0, RenderMode::Inline, &mut fs2, depth - 1);
                    let mut s = String::from_str("<ol>\n");
                    s.append(inner.as_str());
                    s.append("</ol>\n");
                    s
                } else {
                    String::from_str("[nesting too deep]")
                }
            } else if str_eq(low.as_str(), "main") {
                if ps.len() > 0 {
                    let mut s = String::from_str("<em>See the main article: <a href=\"/");
                    s.append(ps[0].1.as_str());
                    s.append("\">");
                    s.append(ps[0].1.as_str());
                    s.append("</a></em><br><br>\n");
                    s
                } else {
                    String::new()
                }
            } else if str_eq(low.as_str(), "height") {
                render_height(&ps)
            } else if str_eq(low.as_str(), "convert") {
                render_convert(&ps)
            } else if str_eq(low.as_str(), "clear") {
                String::from_str("<br><br>\n")
            } else if str_eq(low.as_str(), "rp") {
                render_rp(&ps)
            } else {
                let mut s = tname;
                s.append(":<br> ");
                let tab = simple_tab(ps);
                s.append(tab.as_str());
                s
            }
        },
        MarkupNode::Parameter => String::from_str("[unsupported parameter]"),
        MarkupNode::Table => String::from_str("[unsupported table]"),
        MarkupNode::Other => String::new(),
    }
}

/// The footnote law: two citation nodes rendered with footnotes from a
/// fresh state emit exactly two forward anchors, numbered one and two in
/// emission order, and collect exactly the two matching footnote entries
/// under the same numbers in the footnote buffer; the counter ends at
/// three.
#[verifier::rlimit(100)]
pub proof fn lemma_footnotes_in_order(
    nm1: String,
    c1: Vec<MarkupNode>,
    nm2: String,
    c2: Vec<MarkupNode>,
    depth: nat,
)
    requires
        nm1@ == "ref"@,
        nm2@ == "ref"@,
    ensures
        ({
            let r1 = spec_render_nodes(c1@, RenderMode::Inline, init_rst(), depth).0;
            let r2 = spec_render_nodes(c2@, RenderMode::Inline, init_rst(), depth).0;
            let (out, st) = spec_render_nodes(
                seq![
                    MarkupNode::GenericTag { name: nm1, nodes: c1 },
                    MarkupNode::GenericTag { name: nm2, nodes: c2 },
                ],
                RenderMode::WithFootnotes,
                init_rst(),
                depth,
            );
            &&& out == ("<sup><a href=\"#ref-"@ + dec_digits(1) + "\">["@ + dec_digits(1)
                + "]</a></sup> "@) + ("<sup><a href=\"#ref-"@ + dec_digits(2) + "\">["@
                + dec_digits(2) + "]</a></sup> "@)
            &&& st.refs == ("<li id=\"ref-"@ + dec_digits(1) + "\">"@ + r1 + "</li>\n "@) + (
            "<li id=\"ref-"@ + dec_digits(2) + "\">"@ + r2 + "</li>\n "@)
            &&& st.counter == 3
        }),
{
    reveal_with_fuel(spec_render_nodes, 3);
    let ns = seq![
        MarkupNode::GenericTag { name: nm1, nodes: c1 },
        MarkupNode::GenericTag { name: nm2, nodes: c2 },
    ];
    let e1 = "<li id=\"ref-"@ + dec_digits(1) + "\">"@ + spec_render_nodes(
        c1@,
        RenderMode::Inline,
        init_rst(),
        depth,
    ).0 + "</li>\n "@;
    let e2 = "<li id=\"ref-"@ + dec_digits(2) + "\">"@ + spec_render_nodes(
        c2@,
        RenderMode::Inline,
        init_rst(),
        depth,
    ).0 + "</li>\n "@;
    let (o1, st1) = spec_render_node(ns[0], RenderMode::WithFootnotes, init_rst(), depth);
    assert(ns.drop_first() =~= seq![MarkupNode::GenericTag { name: nm2, nodes: c2 }]);
    assert(st1.refs =~= Seq::<char>::empty() + e1);
    assert(Seq::<char>::empty() + e1 =~= e1);
    let (o2, st2) = spec_render_node(ns[1], RenderMode::WithFootnotes, st1, depth);
    assert(ns.drop_first().drop_first() =~= Seq::<MarkupNode>::empty());
    assert(o2 + Seq::<char>::empty() =~= o2);
    assert(o1 + (o2 + Seq::<char>::empty()) =~= o1 + o2);
}

/// How many nodes of the sequence flip the bold toggle at this level.
pub open spec fn bold_flips(nodes: Seq<MarkupNode>) -> nat
    decreases nodes.len(),
{
    if nodes.len() == 0 {
        0
    } else {
        (if nodes[0] is Bold || nodes[0] is BoldItalic {
            1nat
        } else {
            0nat
        }) + bold_flips(nodes.drop_first())
    }
}

/// How many nodes of the sequence flip the italic toggle at this level.
pub open spec fn italic_flips(nodes: Seq<MarkupNode>) -> nat
    decreases nodes.len(),
{
    if nodes.len() == 0 {
        0
    } else {
        (if nodes[0] is Italic || nodes[0] is BoldItalic {
            1nat
        } else {
            0nat
        }) + italic_flips(nodes.drop_first())
    }
}

proof fn lemma_node_toggles(n: MarkupNode, mode: RenderMode, st: RSt, depth: nat)
    ensures
        spec_render_node(n, mode, st, depth).1.bold == (if n is Bold || n is BoldItalic {
            !st.bold
        } else {
            st.bold
        }),
        spec_render_node(n, mode, st, depth).1.italic == (if n is Italic || n is BoldItalic {
            !st.italic
        } else {
            st.italic
        }),
{
}

/// The toggle-balance law: the bold and italic spans are line-oriented
/// toggles, so a sequence with an even number of flips of a toggle — a
/// balanced input — leaves that toggle exactly as it began, and an odd
/// number leaves it flipped. Nested markup cannot disturb this: it is
/// always rendered with a fresh state of its own.
pub proof fn lemma_balanced_toggles(nodes: Seq<MarkupNode>, mode: RenderMode, st: RSt, depth: nat)
    ensures
        spec_render_nodes(nodes, mode, st, depth).1.bold == (if bold_flips(nodes) % 2 == 0 {
            st.bold
        } else {
            !st.bold
        }),
        spec_render_nodes(nodes, mode, st, depth).1.italic == (if italic_flips(nodes) % 2 == 0 {
            st.italic
        } else {
            !st.italic
        }),
    decreases nodes.len(),
{
    if nodes.len() > 0 {
        lemma_node_toggles(nodes[0], mode, st, depth);
        lemma_balanced_toggles(
            nodes.drop_first(),
            mode,
            spec_render_node(nodes[0], mode, st, depth).1,
            depth,
        );
    }
}

/// The empty-label law of external links: when the inline rendering of
/// the content holds no blank space at all, the whole of it is the URL
/// and the rendered hyperlink carries an empty label.
pub proof fn lemma_external_link_no_ws(
    nodes: Vec<MarkupNode>,
    mode: RenderMode,
    st: RSt,
    depth: nat,
)
    requires
        ({
            let t = spec_render_nodes(nodes@, RenderMode::Inline, init_rst(), depth).0;
            forall|i: int| 0 <= i < t.len() ==> !crate::strutil::is_ws(#[trigger] t[i])
        }),
    ensures
        ({
            let t = spec_render_nodes(nodes@, RenderMode::Inline, init_rst(), depth).0;
            spec_render_node(MarkupNode::ExternalLink { nodes }, mode, st, depth) == (
                "<a href=\""@ + t + "\">"@ + Seq::<char>::empty() + "</a>"@,
                st,
            )
        }),
{
    let t = spec_render_nodes(nodes@, RenderMode::Inline, init_rst(), depth).0;
    lemma_first_ws_at(t, 0);
    let w = first_ws_at(t, 0);
    if w < t.len() {
        assert(!crate::strutil::is_ws(t[w]));
    }
    assert(t.subrange(0, t.len() as int) =~= t);
}

/// Renders a node sequence from a fresh state at the fixed re-parse depth:
/// with footnotes deferred and collected when `do_refs` holds, inline
/// otherwise.
pub fn parse_nodes(nodes: &Vec<MarkupNode>, do_refs: bool) -> (out: String)
    requires
        nodes@.len() <= u64::MAX - 1,
    ensures
        out@ == spec_render_nodes(
            nodes@,
            if do_refs {
                RenderMode::WithFootnotes
            } else {
                RenderMode::Inline
            },
            init_rst(),
            RENDER_DEPTH as nat,
        ).0,
{
    let mode = if do_refs {
        RenderMode::WithFootnotes
    } else {
        RenderMode::Inline
    };
    let mut st = fresh_state();
    render_nodes(nodes, mode, &mut st, RENDER_DEPTH)
}

/// Parses wiki text with the markup grammar and renders the node tree
/// from a fresh state: the whole transducer behind one call. `None` only
/// when the parsed tree is too large for the footnote counter.
pub fn render_wikitext(text: &str, do_refs: bool) -> (r: Option<String>)
    ensures
        match r {
            Some(out) => parsed_markup(text@).0.len() <= u64::MAX - 1 && out@ == spec_render_nodes(
                parsed_markup(text@).0,
                if do_refs {
                    RenderMode::WithFootnotes
                } else {
                    RenderMode::Inline
                },
                init_rst(),
                RENDER_DEPTH as nat,
            ).0,
            None => parsed_markup(text@).0.len() > u64::MAX - 1,
        },
{
    let parsed = parse_markup(text);
    if parsed.0.len() as u64 <= u64::MAX - 1 {
        Some(parse_nodes(&parsed.0, do_refs))
    } else {
        None
    }
}

} // verus!
