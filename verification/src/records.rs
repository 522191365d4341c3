//! The streaming structural parser: rebuilds typed article records from the
//! nested-tag text of one decompressed block.
//!
//! The tag tokenizer is a collaborator (quick_xml); it is modeled as a
//! stream of plain events, and every decision over those events — the
//! nesting contexts, the routing of text into fields, the fail-fast numeric
//! conversions — is verified against the machine below.

use vstd::prelude::*;
use vstd::string::StrSliceExecFns;
use vstd::string::StringExecFns;

use crate::WikiError;
use crate::strutil::{all_digits, dec_val, parse_u64, trim, trimmed, str_eq};

use quick_xml::events::Event;

verus! {

// ---------------------------------------------------------------------------
// Plain events, and the trusted view of the tag tokenizer
// ---------------------------------------------------------------------------

/// One attribute of a start or self-closing element.
#[derive(Debug)]
pub struct XmlAttr {
    pub name: String,
    pub value: String,
}

/// One event of the structural tokenizer, as a plain value.
#[derive(Debug)]
pub enum XmlEvent {
    /// An element start, with its attributes.
    Start { name: String, attrs: Vec<XmlAttr> },
    /// A self-closing element, with its attributes.
    Empty { name: String, attrs: Vec<XmlAttr> },
    /// Character data.
    Text { content: String },
    /// An element end.
    End { name: String },
    /// End of input.
    Eof,
    /// An event of a kind the record grammar does not use.
    Other,
    /// Malformed input: bad tag structure in the block text.
    Fault,
}

#[verifier::external_type_specification]
#[verifier::external_body]
#[verifier::reject_recursive_types(R)]
pub struct ExXmlReader<R>(quick_xml::Reader<R>);

#[verifier::external_type_specification]
#[verifier::external_body]
pub struct ExAttributes<'a>(quick_xml::events::attributes::Attributes<'a>);

#[verifier::external_type_specification]
#[verifier::external_body]
pub struct ExAttribute<'a>(quick_xml::events::attributes::Attribute<'a>);

#[verifier::external_type_specification]
#[verifier::external_body]
pub struct ExAttrError(quick_xml::events::attributes::AttrError);

#[verifier::external_type_specification]
#[verifier::external_body]
pub struct ExBytesStart<'a>(quick_xml::events::BytesStart<'a>);

/// The events that `r` has still to hand out, in order, `Eof` excluded.
pub uninterp spec fn reader_events(r: quick_xml::Reader<&[u8]>) -> Seq<XmlEvent>;

/// The event stream that the tokenizer derives from the text `s`: a
/// function of the characters alone.
pub uninterp spec fn xml_events_of(s: Seq<char>) -> Seq<XmlEvent>;

/// Relies on `String::from_utf8_lossy`: the readers here run over text that
/// is already valid, so the bytes come back as the characters they spell.
#[verifier::external_body]
fn bytes_to_string(b: &[u8]) -> String {
    String::from_utf8_lossy(b).into_owned()
}

/// Relies on `Attributes::next`: hands out each well-formed attribute of
/// the element, in order, as a plain name and value.
#[verifier::external_body]
fn attrs_vec(a: quick_xml::events::attributes::Attributes<'_>) -> Vec<XmlAttr> {
    a.filter_map(|x| x.ok()).map(
        |x: quick_xml::events::attributes::Attribute| XmlAttr {
            name: bytes_to_string(x.key.as_ref()),
            value: bytes_to_string(&x.value),
        },
    ).collect()
}

/// Relies on `quick_xml::Reader::from_str`: a fresh reader whose event
/// stream is exactly the stream that the text determines.
#[verifier::external_body]
fn xml_reader_from_str<'a>(s: &'a str) -> (r: quick_xml::Reader<&'a [u8]>)
    ensures
        reader_events(r) == xml_events_of(s@),
{
    quick_xml::Reader::from_str(s)
}

/// Relies on `quick_xml::Reader::read_event`: pops the front of the event
/// stream, or reports `Eof` once the stream is exhausted.
#[verifier::external_body]
fn read_xml_event(r: &mut quick_xml::Reader<&[u8]>) -> (ev: XmlEvent)
    ensures
        reader_events(*old(r)).len() > 0 ==> ev == reader_events(*old(r))[0] && reader_events(
            *final(r),
        ) == reader_events(*old(r)).drop_first(),
        reader_events(*old(r)).len() == 0 ==> ev == XmlEvent::Eof && reader_events(
            *final(r),
        ).len() == 0,
{
    match r.read_event() {
        Err(_) => XmlEvent::Fault,
        Ok(Event::Start(e)) => start_event(&e, false),
        Ok(Event::Empty(e)) => start_event(&e, true),
        Ok(Event::End(e)) => XmlEvent::End { name: bytes_to_string(e.name().as_ref()) },
        Ok(Event::Text(e)) => XmlEvent::Text { content: bytes_to_string(e.as_ref()) },
        Ok(Event::Eof) => XmlEvent::Eof,
        Ok(_) => XmlEvent::Other,
    }
}

/// Relies on `BytesStart::name` and `BytesStart::attributes`: the
/// element's name and attributes as plain values; a self-closing element
/// when `empty` holds.
#[verifier::external_body]
fn start_event(e: &quick_xml::events::BytesStart<'_>, empty: bool) -> XmlEvent {
    let name = bytes_to_string(e.name().as_ref());
    let attrs = attrs_vec(e.attributes());
    if empty {
        XmlEvent::Empty { name, attrs }
    } else {
        XmlEvent::Start { name, attrs }
    }
}

/// The text with HTML character entities decoded, as the entity table of
/// the decoding collaborator defines it: a function of the characters
/// alone.
pub uninterp spec fn decoded_entities(s: Seq<char>) -> Seq<char>;

/// Relies on `html_escape::decode_html_entities`: decodes the HTML
/// character entities of the text.
#[verifier::external_body]
fn decode_entities(s: &str) -> (r: String)
    ensures
        r@ == decoded_entities(s@),
{
    html_escape::decode_html_entities(s).into_owned()
}

// ---------------------------------------------------------------------------
// The record data model
// ---------------------------------------------------------------------------

/// Mathematical content of a contributor.
pub ghost struct ContributorModel {
    pub username: Seq<char>,
    pub id: nat,
    pub ip: Seq<char>,
}

/// Mathematical content of a revision's text element.
pub ghost struct PageTextModel {
    pub bytes: nat,
    pub sha1: Seq<char>,
    pub text: Seq<char>,
}

/// Mathematical content of a revision.
pub ghost struct RevisionModel {
    pub id: nat,
    pub parent_id: nat,
    pub timestamp: Seq<char>,
    pub contributor: ContributorModel,
    pub comment: Seq<char>,
    pub origin: nat,
    pub model: Seq<char>,
    pub format: Seq<char>,
    pub text: PageTextModel,
    pub sha1: Seq<char>,
}

/// Mathematical content of a record.
pub ghost struct PageModel {
    pub title: Seq<char>,
    pub redirect: Seq<char>,
    pub namespace: nat,
    pub id: nat,
    pub revision: RevisionModel,
}

/// The author of one revision.
#[derive(Debug)]
pub struct Contributor {
    pub username: String,
    pub id: u64,
    pub ip: String,
}

/// The body text of one revision, with its declared byte count and
/// checksum.
#[derive(Debug)]
pub struct PageText {
    pub bytes: u64,
    pub sha1: String,
    pub text: String,
}

/// One revision of a record.
#[derive(Debug)]
pub struct Revision {
    pub id: u64,
    pub parent_id: u64,
    pub timestamp: String,
    pub contributor: Contributor,
    pub comment: String,
    pub origin: u64,
    pub model: String,
    pub format: String,
    pub text: PageText,
    pub sha1: String,
}

/// One article record of the archive.
#[derive(Debug)]
pub struct Page {
    pub title: String,
    pub redirect: String,
    pub namespace: u64,
    pub id: u64,
    pub revision: Revision,
}

impl View for Contributor {
    type V = ContributorModel;

    open spec fn view(&self) -> ContributorModel {
        ContributorModel { username: self.username@, id: self.id as nat, ip: self.ip@ }
    }
}

impl View for PageText {
    type V = PageTextModel;

    open spec fn view(&self) -> PageTextModel {
        PageTextModel { bytes: self.bytes as nat, sha1: self.sha1@, text: self.text@ }
    }
}

impl View for Revision {
    type V = RevisionModel;

    open spec fn view(&self) -> RevisionModel {
        RevisionModel {
            id: self.id as nat,
            parent_id: self.parent_id as nat,
            timestamp: self.timestamp@,
            contributor: self.contributor@,
            comment: self.comment@,
            origin: self.origin as nat,
            model: self.model@,
            format: self.format@,
            text: self.text@,
            sha1: self.sha1@,
        }
    }
}

impl View for Page {
    type V = PageModel;

    open spec fn view(&self) -> PageModel {
        PageModel {
            title: self.title@,
            redirect: self.redirect@,
            namespace: self.namespace as nat,
            id: self.id as nat,
            revision: self.revision@,
        }
    }
}

/// The model of a freshly begun record: every field empty or zero.
pub open spec fn empty_page_model() -> PageModel {
    PageModel {
        title: Seq::empty(),
        redirect: Seq::empty(),
        namespace: 0,
        id: 0,
        revision: RevisionModel {
            id: 0,
            parent_id: 0,
            timestamp: Seq::empty(),
            contributor: ContributorModel { username: Seq::empty(), id: 0, ip: Seq::empty() },
            comment: Seq::empty(),
            origin: 0,
            model: Seq::empty(),
            format: Seq::empty(),
            text: PageTextModel { bytes: 0, sha1: Seq::empty(), text: Seq::empty() },
            sha1: Seq::empty(),
        },
    }
}

impl Page {
    /// A scratch record with every field empty or zero.
    pub fn new() -> (r: Page)
        ensures
            r@ == empty_page_model(),
    {
        Page {
            title: String::new(),
            redirect: String::new(),
            namespace: 0,
            id: 0,
            revision: Revision {
                id: 0,
                parent_id: 0,
                timestamp: String::new(),
                contributor: Contributor { username: String::new(), id: 0, ip: String::new() },
                comment: String::new(),
                origin: 0,
                model: String::new(),
                format: String::new(),
                text: PageText { bytes: 0, sha1: String::new(), text: String::new() },
                sha1: String::new(),
            },
        }
    }

    /// The stored body text of the record's revision.
    pub fn get_wikitext(&self) -> (r: &str)
        ensures
            r@ == self.revision.text.text@,
    {
        self.revision.text.text.as_str()
    }

    /// The body text framed for rendering: the title as a heading, the
    /// revision timestamp in italics, a rule, then the body.
    pub fn get_wikitext_fmt(&self) -> (r: String)
        ensures
            r@ == "="@ + self.title@ + "= \n\n''"@ + self.revision.timestamp@ + "''\n-----\n"@
                + self.revision.text.text@,
    {
        let mut s = String::new();
        s.append("=");
        s.append(self.title.as_str());
        s.append("= \n\n''");
        s.append(self.revision.timestamp.as_str());
        s.append("''\n-----\n");
        s.append(self.revision.text.text.as_str());
        s
    }
}

/// The models of a vector of records, in order.
pub open spec fn pages_views(v: Seq<Page>) -> Seq<PageModel> {
    v.map_values(|p: Page| p@)
}

// ---------------------------------------------------------------------------
// The state machine
// ---------------------------------------------------------------------------

/// The nesting context of the scan, as an explicit tagged state: no signed
/// counter, so an unexpected closing boundary cannot silently underflow.
#[derive(Clone, Copy, Debug, PartialEq, Eq, Structural)]
pub enum Ctx {
    Outside,
    InPage,
    InRevision,
    InContributor,
}

/// Mathematical content of the scan state.
pub ghost struct MachineModel {
    pub ctx: Ctx,
    pub tag: Seq<char>,
    pub page: PageModel,
    pub pages: Seq<PageModel>,
}

/// The scan state: the context, the remembered leaf-tag name, the record
/// under construction, and the completed records in document order.
pub struct Machine {
    pub ctx: Ctx,
    pub tag: String,
    pub page: Page,
    pub pages: Vec<Page>,
}

impl View for Machine {
    type V = MachineModel;

    open spec fn view(&self) -> MachineModel {
        MachineModel { ctx: self.ctx, tag: self.tag@, page: self.page@, pages: pages_views(self.pages@) }
    }
}

/// The scan state before any event: outside any record, nothing remembered,
/// an empty scratch record, no output.
pub open spec fn init_machine() -> MachineModel {
    MachineModel { ctx: Ctx::Outside, tag: Seq::empty(), page: empty_page_model(), pages: Seq::empty() }
}

/// Applies the attributes of a `text` element start: `bytes` must parse as
/// an integer (fail-fast), `sha1` is stored, anything else is ignored.
/// Later occurrences of an attribute override earlier ones.
pub open spec fn spec_text_attrs(t: PageTextModel, attrs: Seq<XmlAttr>) -> Result<
    PageTextModel,
    WikiError,
>
    decreases attrs.len(),
{
    if attrs.len() == 0 {
        Ok(t)
    } else {
        let a = attrs[0];
        if a.name@ == "bytes"@ {
            if a.value@.len() > 0 && all_digits(a.value@) && dec_val(a.value@) <= u64::MAX {
                spec_text_attrs(
                    PageTextModel { bytes: dec_val(a.value@), ..t },
                    attrs.drop_first(),
                )
            } else {
                Err(WikiError::StructuralParse)
            }
        } else if a.name@ == "sha1"@ {
            spec_text_attrs(PageTextModel { sha1: a.value@, ..t }, attrs.drop_first())
        } else {
            spec_text_attrs(t, attrs.drop_first())
        }
    }
}

/// The redirect target carried by a self-closing `redirect` element: the
/// value of its last well-formed attribute, or the old value when it has
/// none.
pub open spec fn spec_redirect_attr(cur: Seq<char>, attrs: Seq<XmlAttr>) -> Seq<char> {
    if attrs.len() == 0 {
        cur
    } else {
        attrs.last().value@
    }
}

/// One step of the scan. Element starts push the matching context or
/// remember the leaf-tag name; a self-closing `redirect` captures the
/// target; text routes by context and remembered tag into the matching
/// field, with fail-fast integer conversion; matching element ends pop the
/// context, and the end of a `page` finalizes the record in document order.
/// A closing boundary that does not match the current context is an error,
/// as is a tokenizer fault.
pub open spec fn spec_step(m: MachineModel, ev: XmlEvent) -> Result<MachineModel, WikiError> {
    match ev {
        XmlEvent::Start { name, attrs } => {
            if name@ == "page"@ {
                Ok(MachineModel { ctx: Ctx::InPage, ..m })
            } else if name@ == "revision"@ {
                Ok(MachineModel { ctx: Ctx::InRevision, ..m })
            } else if name@ == "contributor"@ {
                Ok(MachineModel { ctx: Ctx::InContributor, ..m })
            } else if name@ == "text"@ {
                match spec_text_attrs(m.page.revision.text, attrs@) {
                    Ok(t2) => Ok(
                        MachineModel {
                            tag: name@,
                            page: PageModel {
                                revision: RevisionModel { text: t2, ..m.page.revision },
                                ..m.page
                            },
                            ..m
                        },
                    ),
                    Err(e) => Err(e),
                }
            } else {
                Ok(MachineModel { tag: name@, ..m })
            }
        },
        XmlEvent::Empty { name, attrs } => {
            if name@ == "redirect"@ {
                Ok(
                    MachineModel {
                        page: PageModel {
                            redirect: spec_redirect_attr(m.page.redirect, attrs@),
                            ..m.page
                        },
                        ..m
                    },
                )
            } else {
                Ok(m)
            }
        },
        XmlEvent::Text { content } => spec_step_text(m, content@),
        XmlEvent::End { name } => {
            if name@ == "revision"@ {
                if m.ctx == Ctx::InRevision {
                    Ok(MachineModel { ctx: Ctx::InPage, ..m })
                } else {
                    Err(WikiError::StructuralParse)
                }
            } else if name@ == "contributor"@ {
                if m.ctx == Ctx::InContributor {
                    Ok(MachineModel { ctx: Ctx::InRevision, ..m })
                } else {
                    Err(WikiError::StructuralParse)
                }
            } else if name@ == "page"@ {
                if m.ctx == Ctx::InPage {
                    Ok(
                        MachineModel {
                            ctx: Ctx::Outside,
                            page: empty_page_model(),
                            pages: m.pages.push(m.page),
                            ..m
                        },
                    )
                } else {
                    Err(WikiError::StructuralParse)
                }
            } else {
                Ok(m)
            }
        },
        XmlEvent::Eof => Ok(m),
        XmlEvent::Other => Ok(m),
        XmlEvent::Fault => Err(WikiError::StructuralParse),
    }
}

/// Routing of one text event: whitespace-only text is ignored; otherwise
/// the trimmed text lands in the field that the context and the remembered
/// leaf tag name; numeric fields parse fail-fast.
pub open spec fn spec_step_text(m: MachineModel, content: Seq<char>) -> Result<
    MachineModel,
    WikiError,
> {
    let tv = trimmed(content);
    if tv.len() == 0 {
        Ok(m)
    } else {
        let num_ok = tv.len() > 0 && all_digits(tv) && dec_val(tv) <= u64::MAX;
        match m.ctx {
            Ctx::Outside => Ok(m),
            Ctx::InPage => {
                if m.tag == "title"@ {
                    Ok(MachineModel { page: PageModel { title: tv, ..m.page }, ..m })
                } else if m.tag == "ns"@ {
                    if num_ok {
                        Ok(
                            MachineModel {
                                page: PageModel { namespace: dec_val(tv), ..m.page },
                                ..m
                            },
                        )
                    } else {
                        Err(WikiError::StructuralParse)
                    }
                } else if m.tag == "id"@ {
                    if num_ok {
                        Ok(MachineModel { page: PageModel { id: dec_val(tv), ..m.page }, ..m })
                    } else {
                        Err(WikiError::StructuralParse)
                    }
                } else {
                    Ok(m)
                }
            },
            Ctx::InRevision => {
                let rev = m.page.revision;
                if m.tag == "id"@ {
                    if num_ok {
                        Ok(spec_with_rev(m, RevisionModel { id: dec_val(tv), ..rev }))
                    } else {
                        Err(WikiError::StructuralParse)
                    }
                } else if m.tag == "parentId"@ {
                    if num_ok {
                        Ok(spec_with_rev(m, RevisionModel { parent_id: dec_val(tv), ..rev }))
                    } else {
                        Err(WikiError::StructuralParse)
                    }
                } else if m.tag == "timestamp"@ {
                    Ok(spec_with_rev(m, RevisionModel { timestamp: tv, ..rev }))
                } else if m.tag == "comment"@ {
                    Ok(spec_with_rev(m, RevisionModel { comment: tv, ..rev }))
                } else if m.tag == "origin"@ {
                    if num_ok {
                        Ok(spec_with_rev(m, RevisionModel { origin: dec_val(tv), ..rev }))
                    } else {
                        Err(WikiError::StructuralParse)
                    }
                } else if m.tag == "model"@ {
                    Ok(spec_with_rev(m, RevisionModel { model: tv, ..rev }))
                } else if m.tag == "format"@ {
                    Ok(spec_with_rev(m, RevisionModel { format: tv, ..rev }))
                } else if m.tag == "text"@ {
                    Ok(
                        spec_with_rev(
                            m,
                            RevisionModel {
                                text: PageTextModel {
                                    text: decoded_entities(tv),
                                    ..rev.text
                                },
                                ..rev
                            },
                        ),
                    )
                } else if m.tag == "sha1"@ {
                    Ok(spec_with_rev(m, RevisionModel { sha1: tv, ..rev }))
                } else {
                    Ok(m)
                }
            },
            Ctx::InContributor => {
                let c = m.page.revision.contributor;
                if m.tag == "username"@ {
                    Ok(spec_with_contributor(m, ContributorModel { username: tv, ..c }))
                } else if m.tag == "id"@ {
                    if num_ok {
                        Ok(spec_with_contributor(m, ContributorModel { id: dec_val(tv), ..c }))
                    } else {
                        Err(WikiError::StructuralParse)
                    }
                } else if m.tag == "ip"@ {
                    Ok(spec_with_contributor(m, ContributorModel { ip: tv, ..c }))
                } else {
                    Ok(m)
                }
            },
        }
    }
}

/// `m` with its scratch record's revision replaced.
pub open spec fn spec_with_rev(m: MachineModel, rev: RevisionModel) -> MachineModel {
    MachineModel { page: PageModel { revision: rev, ..m.page }, ..m }
}

/// `m` with its scratch record's contributor replaced.
pub open spec fn spec_with_contributor(m: MachineModel, c: ContributorModel) -> MachineModel {
    spec_with_rev(m, RevisionModel { contributor: c, ..m.page.revision })
}

/// Runs the scan over `evs` from state `m`: the completed records once the
/// input ends (at `Eof` or when the stream runs out), or the first error.
pub open spec fn spec_run(m: MachineModel, evs: Seq<XmlEvent>) -> Result<Seq<PageModel>, WikiError>
    decreases evs.len(),
{
    if evs.len() == 0 {
        Ok(m.pages)
    } else {
        match evs[0] {
            XmlEvent::Eof => Ok(m.pages),
            _ => match spec_step(m, evs[0]) {
                Err(e) => Err(e),
                Ok(m2) => spec_run(m2, evs.drop_first()),
            },
        }
    }
}

/// The records that a full event stream yields, from the initial state.
pub open spec fn spec_parse_records(evs: Seq<XmlEvent>) -> Result<Seq<PageModel>, WikiError> {
    spec_run(init_machine(), evs)
}

/// One step never reorders or drops a completed record: the output
/// sequence either stays as it is, or gains the finalized scratch record
/// at its end (at the closing boundary of a record element).
proof fn lemma_step_appends(m: MachineModel, ev: XmlEvent)
    ensures
        spec_step(m, ev) matches Ok(m2) ==> m2.pages == m.pages || m2.pages == m.pages.push(
            m.page,
        ),
{
}

/// The document-order law of the scan: whatever records it has completed
/// stay, unchanged and in order, as a prefix of whatever it returns —
/// records are appended in file order and never reordered or revised.
pub proof fn lemma_run_keeps_document_order(m: MachineModel, evs: Seq<XmlEvent>)
    ensures
        spec_run(m, evs) matches Ok(ps) ==> ps.len() >= m.pages.len() && ps.subrange(
            0,
            m.pages.len() as int,
        ) == m.pages,
    decreases evs.len(),
{
    let lm = m.pages.len() as int;
    if evs.len() == 0 {
        assert(m.pages.subrange(0, lm) =~= m.pages);
    } else {
        match evs[0] {
            XmlEvent::Eof => {
                assert(m.pages.subrange(0, lm) =~= m.pages);
            },
            _ => {
                match spec_step(m, evs[0]) {
                    Err(_) => {},
                    Ok(m2) => {
                        lemma_step_appends(m, evs[0]);
                        lemma_run_keeps_document_order(m2, evs.drop_first());
                        match spec_run(m2, evs.drop_first()) {
                            Err(_) => {},
                            Ok(ps) => {
                                assert(ps.subrange(0, lm) =~= m2.pages.subrange(0, lm));
                                if m2.pages == m.pages.push(m.page) {
                                    assert(m.pages.push(m.page).subrange(0, lm) =~= m.pages);
                                } else {
                                    assert(m.pages.subrange(0, lm) =~= m.pages);
                                }
                            },
                        }
                    },
                }
            },
        }
    }
}

impl Machine {
    /// The scan state before any event.
    pub fn new() -> (r: Machine)
        ensures
            r@ == init_machine(),
    {
        let r = Machine {
            ctx: Ctx::Outside,
            tag: String::new(),
            page: Page::new(),
            pages: Vec::new(),
        };
        proof {
            assert(pages_views(r.pages@) =~= Seq::<PageModel>::empty());
        }
        r
    }

    /// Applies one event to the scan state.
    pub fn step(&mut self, ev: XmlEvent) -> (r: Result<(), WikiError>)
        ensures
            match spec_step(old(self)@, ev) {
                Ok(m2) => r is Ok && final(self)@ == m2,
                Err(e) => r == Err::<(), WikiError>(e),
            },
    {
        match ev {
            XmlEvent::Start { name, attrs } => {
                if str_eq(name.as_str(), "page") {
                    self.ctx = Ctx::InPage;
                    Ok(())
                } else if str_eq(name.as_str(), "revision") {
                    self.ctx = Ctx::InRevision;
                    Ok(())
                } else if str_eq(name.as_str(), "contributor") {
                    self.ctx = Ctx::InContributor;
                    Ok(())
                } else if str_eq(name.as_str(), "text") {
                    let r = Self::apply_text_attrs(&mut self.page.revision.text, &attrs);
                    self.tag = name;
                    match r {
                        Ok(()) => Ok(()),
                        Err(e) => Err(e),
                    }
                } else {
                    self.tag = name;
                    Ok(())
                }
            },
            XmlEvent::Empty { name, attrs } => {
                if str_eq(name.as_str(), "redirect") {
                    if attrs.len() > 0 {
                        let last = attrs.len() - 1;
                        self.page.redirect = attrs[last].value.clone();
                        proof {
                            assert(attrs@.last() == attrs@[last as int]);
                        }
                    }
                    Ok(())
                } else {
                    Ok(())
                }
            },
            XmlEvent::Text { content } => self.step_text(content),
            XmlEvent::End { name } => {
                if str_eq(name.as_str(), "revision") {
                    if self.ctx == Ctx::InRevision {
                        self.ctx = Ctx::InPage;
                        Ok(())
                    } else {
                        Err(WikiError::StructuralParse)
                    }
                } else if str_eq(name.as_str(), "contributor") {
                    if self.ctx == Ctx::InContributor {
                        self.ctx = Ctx::InRevision;
                        Ok(())
                    } else {
                        Err(WikiError::StructuralParse)
                    }
                } else if str_eq(name.as_str(), "page") {
                    if self.ctx == Ctx::InPage {
                        let mut done = Page::new();
                        core::mem::swap(&mut done, &mut self.page);
                        let ghost old_pages = self.pages@;
                        self.pages.push(done);
                        self.ctx = Ctx::Outside;
                        proof {
                            assert(pages_views(self.pages@) =~= pages_views(old_pages).push(
                                old(self)@.page,
                            ));
                        }
                        Ok(())
                    } else {
                        Err(WikiError::StructuralParse)
                    }
                } else {
                    Ok(())
                }
            },
            XmlEvent::Eof => Ok(()),
            XmlEvent::Other => Ok(()),
            XmlEvent::Fault => Err(WikiError::StructuralParse),
        }
    }

    fn apply_text_attrs(t: &mut PageText, attrs: &Vec<XmlAttr>) -> (r: Result<(), WikiError>)
        ensures
            match spec_text_attrs(old(t)@, attrs@) {
                Ok(t2) => r is Ok && final(t)@ == t2,
                Err(e) => r == Err::<(), WikiError>(e),
            },
    {
        let n = attrs.len();
        let mut i: usize = 0;
        proof {
            assert(attrs@.skip(0) =~= attrs@);
        }
        while i < n
            invariant
                0 <= i <= n == attrs@.len(),
                spec_text_attrs(old(t)@, attrs@) == spec_text_attrs(t@, attrs@.skip(i as int)),
            decreases n - i,
        {
            proof {
                assert(attrs@.skip(i as int)[0] == attrs@[i as int]);
                assert(attrs@.skip(i as int).drop_first() =~= attrs@.skip(i + 1));
            }
            let a = &attrs[i];
            if str_eq(a.name.as_str(), "bytes") {
                match parse_u64(a.value.as_str()) {
                    Some(v) => {
                        t.bytes = v;
                    },
                    None => {
                        return Err(WikiError::StructuralParse);
                    },
                }
            } else if str_eq(a.name.as_str(), "sha1") {
                t.sha1 = a.value.clone();
            }
            i = i + 1;
        }
        Ok(())
    }

    fn step_text(&mut self, content: String) -> (r: Result<(), WikiError>)
        ensures
            match spec_step_text(old(self)@, content@) {
                Ok(m2) => r is Ok && final(self)@ == m2,
                Err(e) => r == Err::<(), WikiError>(e),
            },
    {
        let tv = trim(content.as_str());
        if tv.unicode_len() == 0 {
            return Ok(());
        }
        match self.ctx {
            Ctx::Outside => Ok(()),
            Ctx::InPage => {
                if str_eq(self.tag.as_str(), "title") {
                    self.page.title = tv;
                    Ok(())
                } else if str_eq(self.tag.as_str(), "ns") {
                    match parse_u64(tv.as_str()) {
                        Some(v) => {
                            self.page.namespace = v;
                            Ok(())
                        },
                        None => Err(WikiError::StructuralParse),
                    }
                } else if str_eq(self.tag.as_str(), "id") {
                    match parse_u64(tv.as_str()) {
                        Some(v) => {
                            self.page.id = v;
                            Ok(())
                        },
                        None => Err(WikiError::StructuralParse),
                    }
                } else {
                    Ok(())
                }
            },
            Ctx::InRevision => {
                if str_eq(self.tag.as_str(), "id") {
                    match parse_u64(tv.as_str()) {
                        Some(v) => {
                            self.page.revision.id = v;
                            Ok(())
                        },
                        None => Err(WikiError::StructuralParse),
                    }
                } else if str_eq(self.tag.as_str(), "parentId") {
                    match parse_u64(tv.as_str()) {
                        Some(v) => {
                            self.page.revision.parent_id = v;
                            Ok(())
                        },
                        None => Err(WikiError::StructuralParse),
                    }
                } else if str_eq(self.tag.as_str(), "timestamp") {
                    self.page.revision.timestamp = tv;
                    Ok(())
                } else if str_eq(self.tag.as_str(), "comment") {
                    self.page.revision.comment = tv;
                    Ok(())
                } else if str_eq(self.tag.as_str(), "origin") {
                    match parse_u64(tv.as_str()) {
                        Some(v) => {
                            self.page.revision.origin = v;
                            Ok(())
                        },
                        None => Err(WikiError::StructuralParse),
                    }
                } else if str_eq(self.tag.as_str(), "model") {
                    self.page.revision.model = tv;
                    Ok(())
                } else if str_eq(self.tag.as_str(), "format") {
                    self.page.revision.format = tv;
                    Ok(())
                } else if str_eq(self.tag.as_str(), "text") {
                    self.page.revision.text.text = decode_entities(tv.as_str());
                    Ok(())
                } else if str_eq(self.tag.as_str(), "sha1") {
                    self.page.revision.sha1 = tv;
                    Ok(())
                } else {
                    Ok(())
                }
            },
            Ctx::InContributor => {
                if str_eq(self.tag.as_str(), "username") {
                    self.page.revision.contributor.username = tv;
                    Ok(())
                } else if str_eq(self.tag.as_str(), "id") {
                    match parse_u64(tv.as_str()) {
                        Some(v) => {
                            self.page.revision.contributor.id = v;
                            Ok(())
                        },
                        None => Err(WikiError::StructuralParse),
                    }
                } else if str_eq(self.tag.as_str(), "ip") {
                    self.page.revision.contributor.ip = tv;
                    Ok(())
                } else {
                    Ok(())
                }
            },
        }
    }
}

/// Runs the scan over an already-collected event sequence.
pub fn get_pages_from_events(events: Vec<XmlEvent>) -> (r: Result<Vec<Page>, WikiError>)
    ensures
        match spec_parse_records(events@) {
            Ok(ps) => r is Ok && pages_views(r.unwrap()@) == ps,
            Err(e) => r == Err::<Vec<Page>, WikiError>(e),
        },
{
    let ghost evs = events@;
    let mut m = Machine::new();
    let mut rest = events;
    while rest.len() > 0
        invariant
            evs == events@,
            spec_parse_records(evs) == spec_run(m@, rest@),
        decreases rest@.len(),
    {
        let ghost r0 = rest@;
        let ev = rest.remove(0);
        proof {
            assert(r0.remove(0) =~= r0.drop_first());
        }
        match ev {
            XmlEvent::Eof => {
                return Ok(m.pages);
            },
            _ => {
                match m.step(ev) {
                    Ok(()) => {},
                    Err(e) => {
                        return Err(e);
                    },
                }
            },
        }
    }
    Ok(m.pages)
}

/// Parses the decompressed text of one block into its records, in document
/// order: the verified scan above, fed by the tokenizer's event stream.
pub fn get_pages_from_string(string: String) -> (r: Result<Vec<Page>, WikiError>)
    ensures
        match spec_parse_records(xml_events_of(string@)) {
            Ok(ps) => r is Ok && pages_views(r.unwrap()@) == ps,
            Err(e) => r == Err::<Vec<Page>, WikiError>(e),
        },
{
    let mut reader = xml_reader_from_str(string.as_str());
    let mut m = Machine::new();
    loop
        invariant
            spec_parse_records(xml_events_of(string@)) == spec_run(m@, reader_events(reader)),
        decreases reader_events(reader).len(),
    {
        let ev = read_xml_event(&mut reader);
        match ev {
            XmlEvent::Eof => {
                return Ok(m.pages);
            },
            _ => {
                match m.step(ev) {
                    Ok(()) => {},
                    Err(e) => {
                        return Err(e);
                    },
                }
            },
        }
    }
}

} // verus!
