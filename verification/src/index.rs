//! The sparse secondary index over compressed-block boundaries.
//!
//! The index source is text with one line per record, in the form
//! `blockOffset:recordId:title`. Only the first two colons are structural:
//! a colon inside the title passes through into the title unchanged (the
//! title is everything after the second colon).

use vstd::prelude::*;
use vstd::string::StrSliceExecFns;
use vstd::string::StringExecFns;

use crate::WikiError;
use crate::strutil::{all_digits, dec_val, first_at, lemma_first_at, parse_u64, find_char_from};

verus! {

/// The mathematical content of one index entry.
pub ghost struct EntryModel {
    pub block_offset: nat,
    pub number_in_block: nat,
    pub page_id: nat,
    pub page_title: Seq<char>,
}

/// One line of the index: where a record's compressed block starts, the
/// record's position within that block, and the record's id and title.
#[derive(Debug)]
pub struct PageIndexEntry {
    pub block_offset: u64,
    pub number_in_block: u64,
    pub page_id: u64,
    pub page_title: String,
}

impl View for PageIndexEntry {
    type V = EntryModel;

    open spec fn view(&self) -> EntryModel {
        EntryModel {
            block_offset: self.block_offset as nat,
            number_in_block: self.number_in_block as nat,
            page_id: self.page_id as nat,
            page_title: self.page_title@,
        }
    }
}

impl Clone for PageIndexEntry {
    fn clone(&self) -> (r: Self)
        ensures
            r == *self,
    {
        PageIndexEntry {
            block_offset: self.block_offset,
            number_in_block: self.number_in_block,
            page_id: self.page_id,
            page_title: self.page_title.clone(),
        }
    }
}

/// The entry models of a vector of entries, in order.
pub open spec fn views_of(v: Seq<PageIndexEntry>) -> Seq<EntryModel> {
    v.map_values(|e: PageIndexEntry| e@)
}

/// Parses one index line into (block offset, record id, title). The first
/// two colons delimit; the title keeps any further colons. `None` on a
/// missing segment or a malformed (or overlarge) integer field.
pub open spec fn spec_parse_line(l: Seq<char>) -> Option<(nat, nat, Seq<char>)> {
    let i = first_at(l, ':', 0);
    if i >= l.len() {
        None
    } else {
        let j = first_at(l, ':', i + 1);
        if j >= l.len() {
            None
        } else {
            let off_s = l.subrange(0, i);
            let id_s = l.subrange(i + 1, j);
            let title = l.subrange(j + 1, l.len() as int);
            if off_s.len() > 0 && all_digits(off_s) && dec_val(off_s) <= u64::MAX && id_s.len()
                > 0 && all_digits(id_s) && dec_val(id_s) <= u64::MAX {
                Some((dec_val(off_s), dec_val(id_s), title))
            } else {
                None
            }
        }
    }
}

/// Loads the index text from position `pos` on, threading the ordinal
/// state: `cur` is the highest block offset seen and `num` the next ordinal
/// within it. Each line yields one entry; ordinals restart at zero whenever
/// the block offset strictly grows. `None` as soon as any line is bad.
///
/// This assumes the source is sorted ascending by block offset; unsorted
/// input yields meaningless ordinals and is not rejected.
pub open spec fn spec_load_from(s: Seq<char>, pos: int, cur: nat, num: nat) -> Option<
    Seq<EntryModel>,
>
    decreases s.len() - pos,
    via spec_load_from_dec
{
    if pos < 0 || pos >= s.len() {
        Some(Seq::empty())
    } else {
        let nl = first_at(s, '\n', pos);
        let raw = s.subrange(pos, nl);
        let line = if raw.len() > 0 && raw.last() == '\r' {
            raw.drop_last()
        } else {
            raw
        };
        let next = if nl < s.len() {
            nl + 1
        } else {
            nl
        };
        match spec_parse_line(line) {
            None => None,
            Some((off, id, title)) => {
                let (cur2, num2) = if off > cur {
                    (off, 0nat)
                } else {
                    (cur, num)
                };
                let num3 = if off == cur2 {
                    num2 + 1
                } else {
                    num2
                };
                let em = EntryModel {
                    block_offset: off,
                    number_in_block: num2,
                    page_id: id,
                    page_title: title,
                };
                match spec_load_from(s, next, cur2, num3) {
                    None => None,
                    Some(tail) => Some(seq![em] + tail),
                }
            },
        }
    }
}

#[via_fn]
proof fn spec_load_from_dec(s: Seq<char>, pos: int, cur: nat, num: nat) {
    if 0 <= pos < s.len() {
        lemma_first_at(s, '\n', pos);
    }
}

/// The whole index text, parsed; `None` when any line is malformed.
pub open spec fn spec_load(s: Seq<char>) -> Option<Seq<EntryModel>> {
    spec_load_from(s, 0, 0, 0)
}

/// First entry whose id is `id`, scanning in source order.
pub open spec fn spec_find_by_id(es: Seq<EntryModel>, id: nat) -> Option<EntryModel>
    decreases es.len(),
{
    if es.len() == 0 {
        None
    } else if es[0].page_id == id {
        Some(es[0])
    } else {
        spec_find_by_id(es.drop_first(), id)
    }
}

/// First entry whose title is `title`, scanning in source order.
pub open spec fn spec_find_by_title(es: Seq<EntryModel>, title: Seq<char>) -> Option<EntryModel>
    decreases es.len(),
{
    if es.len() == 0 {
        None
    } else if es[0].page_title == title {
        Some(es[0])
    } else {
        spec_find_by_title(es.drop_first(), title)
    }
}

/// The byte length of `target`'s block, as the scan computes it: once an
/// entry with `target`'s id has been passed (`found`), the first entry with
/// a strictly greater block offset determines the length; `None` when no
/// such entry follows (the final block, whose length only the file size
/// bounds).
pub open spec fn spec_block_size(es: Seq<EntryModel>, target: EntryModel, found: bool) -> Option<
    nat,
>
    decreases es.len(),
{
    if es.len() == 0 {
        None
    } else {
        let f2 = found || es[0].page_id == target.page_id;
        if f2 && es[0].block_offset > target.block_offset {
            Some((es[0].block_offset - target.block_offset) as nat)
        } else {
            spec_block_size(es.drop_first(), target, f2)
        }
    }
}

/// First position at or after `from` whose entry's block offset strictly
/// exceeds `off`, or the length of `es` when none does.
pub open spec fn first_greater(es: Seq<EntryModel>, off: nat, from: int) -> int
    decreases es.len() - from,
{
    if from < 0 || from >= es.len() {
        es.len() as int
    } else if es[from].block_offset > off {
        from
    } else {
        first_greater(es, off, from + 1)
    }
}

pub proof fn lemma_first_greater(es: Seq<EntryModel>, off: nat, from: int)
    requires
        0 <= from <= es.len(),
    ensures
        from <= first_greater(es, off, from) <= es.len(),
        first_greater(es, off, from) < es.len() ==> es[first_greater(
            es,
            off,
            from,
        )].block_offset > off,
        forall|k: int|
            from <= k < first_greater(es, off, from) ==> es[k].block_offset <= off,
    decreases es.len() - from,
{
    if from < es.len() && !(es[from].block_offset > off) {
        lemma_first_greater(es, off, from + 1);
    }
}

proof fn lemma_block_size_found(es: Seq<EntryModel>, target: EntryModel, from: int)
    requires
        0 <= from <= es.len(),
    ensures
        ({
            let fg = first_greater(es, target.block_offset, from);
            spec_block_size(es.skip(from), target, true) == if fg < es.len() {
                Some((es[fg].block_offset - target.block_offset) as nat)
            } else {
                None::<nat>
            }
        }),
    decreases es.len() - from,
{
    lemma_first_greater(es, target.block_offset, from);
    if from < es.len() {
        assert(es.skip(from)[0] == es[from]);
        if !(es[from].block_offset > target.block_offset) {
            assert(es.skip(from).drop_first() =~= es.skip(from + 1));
            lemma_block_size_found(es, target, from + 1);
        }
    }
}

proof fn lemma_block_size_scan(es: Seq<EntryModel>, t: int, p: int)
    requires
        0 <= p <= t < es.len(),
        forall|k: int| 0 <= k < t ==> es[k].page_id != es[t].page_id,
    ensures
        ({
            let fg = first_greater(es, es[t].block_offset, t);
            spec_block_size(es.skip(p), es[t], false) == if fg < es.len() {
                Some((es[fg].block_offset - es[t].block_offset) as nat)
            } else {
                None::<nat>
            }
        }),
    decreases t - p,
{
    assert(es.skip(p)[0] == es[p]);
    assert(es.skip(p).drop_first() =~= es.skip(p + 1));
    if p < t {
        lemma_block_size_scan(es, t, p + 1);
    } else {
        lemma_block_size_found(es, es[t], t + 1);
        assert(first_greater(es, es[t].block_offset, t) == first_greater(
            es,
            es[t].block_offset,
            t + 1,
        ));
    }
}

/// The block-length law: for an index entry whose id first occurs at
/// position `t`, the scan yields exactly the delta to the first later entry
/// with a strictly greater block offset — a positive value — and yields the
/// undetermined outcome exactly when no later entry has a greater offset,
/// that is, when the entry lies in the final distinct block.
pub proof fn lemma_block_size_delta(es: Seq<EntryModel>, t: int)
    requires
        0 <= t < es.len(),
        forall|k: int| 0 <= k < t ==> es[k].page_id != es[t].page_id,
    ensures
        ({
            let fg = first_greater(es, es[t].block_offset, t);
            &&& fg < es.len() ==> spec_block_size(es, es[t], false) == Some((es[fg].block_offset
                - es[t].block_offset) as nat)
            &&& fg < es.len() ==> es[fg].block_offset - es[t].block_offset > 0
            &&& fg == es.len() ==> spec_block_size(es, es[t], false) is None
        }),
{
    lemma_block_size_scan(es, t, 0);
    lemma_first_greater(es, es[t].block_offset, t);
    assert(es.skip(0) =~= es);
}

/// The loaded index: entries in source order.
#[derive(Debug)]
pub struct PageIndex {
    pub pages: Vec<PageIndexEntry>,
}

impl PageIndex {
    /// An index with no entries.
    pub fn new() -> (r: PageIndex)
        ensures
            r.pages@.len() == 0,
    {
        PageIndex { pages: Vec::new() }
    }

    /// Parses the decompressed index text and replaces the entries with its
    /// lines, assigning each entry its ordinal within its block. On a
    /// malformed line nothing is replaced and the parse error is returned.
    pub fn load(&mut self, source: &str) -> (r: Result<(), WikiError>)
        ensures
            r is Ok <==> spec_load(source@) is Some,
            r is Ok ==> Some(views_of(final(self).pages@)) == spec_load(source@),
            r is Err ==> r == Err::<(), WikiError>(WikiError::IndexParse) && final(self).pages@
                == old(self).pages@,
    {
        let n = source.unicode_len();
        let mut acc: Vec<PageIndexEntry> = Vec::new();
        let mut pos: usize = 0;
        let mut cur: u64 = 0;
        let mut num: u64 = 0;
        while pos < n
            invariant
                0 <= pos <= n == source@.len(),
                num <= pos,
                spec_load(source@) == (match spec_load_from(
                    source@,
                    pos as int,
                    cur as nat,
                    num as nat,
                ) {
                    None => None::<Seq<EntryModel>>,
                    Some(tail) => Some(views_of(acc@) + tail),
                }),
            decreases n - pos,
        {
            proof {
                lemma_first_at(source@, '\n', pos as int);
            }
            let nl = find_char_from(source, '\n', pos);
            let mut line_end = nl;
            if nl > pos && source.get_char(nl - 1) == '\r' {
                line_end = nl - 1;
            }
            let line = source.substring_char(pos, line_end);
            let ghost line_spec = {
                let raw = source@.subrange(pos as int, nl as int);
                if raw.len() > 0 && raw.last() == '\r' {
                    raw.drop_last()
                } else {
                    raw
                }
            };
            proof {
                assert(line@ =~= line_spec);
            }
            let ln = line.unicode_len();
            let i = find_char_from(line, ':', 0);
            proof {
                lemma_first_at(line@, ':', 0);
            }
            if i >= ln {
                return Err(WikiError::IndexParse);
            }
            let j = find_char_from(line, ':', i + 1);
            proof {
                lemma_first_at(line@, ':', i + 1);
            }
            if j >= ln {
                return Err(WikiError::IndexParse);
            }
            let off_str = line.substring_char(0, i);
            let id_str = line.substring_char(i + 1, j);
            let off = match parse_u64(off_str) {
                Some(v) => v,
                None => {
                    return Err(WikiError::IndexParse);
                },
            };
            let id = match parse_u64(id_str) {
                Some(v) => v,
                None => {
                    return Err(WikiError::IndexParse);
                },
            };
            let title = String::from_str(line.substring_char(j + 1, ln));
            proof {
                assert(spec_parse_line(line_spec) == Some(
                    (off as nat, id as nat, title@),
                ));
            }
            if off > cur {
                cur = off;
                num = 0;
            }
            let entry = PageIndexEntry {
                block_offset: off,
                number_in_block: num,
                page_id: id,
                page_title: title,
            };
            let ghost em = entry@;
            let ghost old_acc = acc@;
            acc.push(entry);
            if off == cur {
                num = num + 1;
            }
            let next = if nl < n {
                nl + 1
            } else {
                nl
            };
            proof {
                assert(views_of(acc@) =~= views_of(old_acc).push(em));
                match spec_load_from(source@, next as int, cur as nat, num as nat) {
                    None => {},
                    Some(tail) => {
                        assert(views_of(old_acc) + (seq![em] + tail) =~= views_of(acc@) + tail);
                    },
                }
            }
            pos = next;
        }
        proof {
            match spec_load_from(source@, pos as int, cur as nat, num as nat) {
                None => {},
                Some(tail) => {
                    assert(views_of(acc@) + tail =~= views_of(acc@));
                },
            }
        }
        self.pages = acc;
        Ok(())
    }

    /// Decompresses the index source — one compressed stream, as the
    /// index file holds it — and loads its lines: the compute core of
    /// building the index from its file. Succeeds exactly when the bytes
    /// decode and every decoded line parses; on any failure the entries
    /// are left as they were and the error names the stage that failed.
    pub fn build_index(&mut self, data: &[u8]) -> (r: Result<(), WikiError>)
        ensures
            ({
                let d = crate::extract::bunzip_of(data@);
                &&& (r is Ok <==> d is Some && spec_load(d.unwrap()) is Some)
                &&& r is Ok ==> Some(views_of(final(self).pages@)) == spec_load(d.unwrap())
                &&& r is Err ==> final(self).pages@ == old(self).pages@
                &&& ((r == Err::<(), WikiError>(WikiError::Codec) || r == Err::<(), WikiError>(
                    WikiError::Decode,
                )) <==> d is None)
                &&& (r == Err::<(), WikiError>(WikiError::IndexParse) <==> d is Some && spec_load(
                    d.unwrap(),
                ) is None)
            }),
    {
        let text = match crate::extract::decompress_index(data) {
            Ok(t) => t,
            Err(e) => {
                return Err(e);
            },
        };
        self.load(text.as_str())
    }

    /// First entry with the given record id, or `None` when the id is
    /// absent from the index.
    pub fn id_exists(&mut self, id: u64) -> (r: Option<PageIndexEntry>)
        ensures
            *final(self) == *old(self),
            match r {
                Some(e) => Some(e@) == spec_find_by_id(views_of(old(self).pages@), id as nat),
                None => spec_find_by_id(views_of(old(self).pages@), id as nat) is None,
            },
    {
        let n = self.pages.len();
        let mut i: usize = 0;
        proof {
            assert(views_of(self.pages@).skip(0) =~= views_of(self.pages@));
        }
        while i < n
            invariant
                0 <= i <= n == self.pages@.len(),
                *self == *old(self),
                spec_find_by_id(views_of(self.pages@), id as nat) == spec_find_by_id(
                    views_of(self.pages@).skip(i as int),
                    id as nat,
                ),
            decreases n - i,
        {
            if self.pages[i].page_id == id {
                proof {
                    assert(views_of(self.pages@).skip(i as int)[0] == self.pages@[i as int]@);
                }
                return Some(self.pages[i].clone());
            }
            proof {
                assert(views_of(self.pages@).skip(i as int).drop_first() =~= views_of(
                    self.pages@,
                ).skip(i + 1));
            }
            i = i + 1;
        }
        None
    }

    /// First entry with the given title, or `None` when the title is
    /// absent from the index.
    pub fn title_exists(&mut self, title: String) -> (r: Option<PageIndexEntry>)
        ensures
            *final(self) == *old(self),
            match r {
                Some(e) => Some(e@) == spec_find_by_title(views_of(old(self).pages@), title@),
                None => spec_find_by_title(views_of(old(self).pages@), title@) is None,
            },
    {
        let n = self.pages.len();
        let mut i: usize = 0;
        proof {
            assert(views_of(self.pages@).skip(0) =~= views_of(self.pages@));
        }
        while i < n
            invariant
                0 <= i <= n == self.pages@.len(),
                *self == *old(self),
                spec_find_by_title(views_of(self.pages@), title@) == spec_find_by_title(
                    views_of(self.pages@).skip(i as int),
                    title@,
                ),
            decreases n - i,
        {
            if self.pages[i].page_title == title {
                proof {
                    assert(views_of(self.pages@).skip(i as int)[0] == self.pages@[i as int]@);
                }
                return Some(self.pages[i].clone());
            }
            proof {
                assert(views_of(self.pages@).skip(i as int).drop_first() =~= views_of(
                    self.pages@,
                ).skip(i + 1));
            }
            i = i + 1;
        }
        None
    }

    /// Scans forward for the first entry past `target`'s first id match
    /// whose block offset is strictly greater, and returns the offset
    /// difference: the byte length of `target`'s block. `None` when
    /// `target` sits in the final block, whose length only the file size
    /// bounds; callers must treat that as recoverable, not as a defect.
    pub fn get_block_size(&mut self, target_page: PageIndexEntry) -> (r: Option<u64>)
        ensures
            *final(self) == *old(self),
            match r {
                Some(d) => Some(d as nat) == spec_block_size(
                    views_of(old(self).pages@),
                    target_page@,
                    false,
                ),
                None => spec_block_size(views_of(old(self).pages@), target_page@, false) is None,
            },
    {
        let n = self.pages.len();
        let mut found: bool = false;
        let mut i: usize = 0;
        proof {
            assert(views_of(self.pages@).skip(0) =~= views_of(self.pages@));
        }
        while i < n
            invariant
                0 <= i <= n == self.pages@.len(),
                *self == *old(self),
                spec_block_size(views_of(self.pages@), target_page@, false) == spec_block_size(
                    views_of(self.pages@).skip(i as int),
                    target_page@,
                    found,
                ),
            decreases n - i,
        {
            proof {
                assert(views_of(self.pages@).skip(i as int)[0] == self.pages@[i as int]@);
                assert(views_of(self.pages@).skip(i as int).drop_first() =~= views_of(
                    self.pages@,
                ).skip(i + 1));
            }
            if self.pages[i].page_id == target_page.page_id {
                found = true;
            }
            if found && self.pages[i].block_offset > target_page.block_offset {
                return Some(self.pages[i].block_offset - target_page.block_offset);
            }
            i = i + 1;
        }
        None
    }
}

} // verus!
