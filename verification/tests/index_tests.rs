use wikipedia::index::PageIndex;
use wikipedia::WikiError;

fn load_index(src: &str) -> PageIndex {
    let mut ix = PageIndex::new();
    ix.load(src).expect("index source should load");
    ix
}

#[test]
fn ordinals_follow_block_offsets() {
    let ix = load_index("0:1:A\n0:2:B\n0:3:C\n500:4:D\n500:5:E\n1000:6:F\n");
    let ordinals: Vec<u64> = ix.pages.iter().map(|e| e.number_in_block).collect();
    assert_eq!(ordinals, vec![0, 1, 2, 0, 1, 0]);
    let offsets: Vec<u64> = ix.pages.iter().map(|e| e.block_offset).collect();
    assert_eq!(offsets, vec![0, 0, 0, 500, 500, 1000]);
}

#[test]
fn ordinals_without_trailing_newline() {
    let ix = load_index("0:1:A\n7:2:B");
    assert_eq!(ix.pages.len(), 2);
    assert_eq!(ix.pages[1].number_in_block, 0);
    assert_eq!(ix.pages[1].block_offset, 7);
}

#[test]
fn title_keeps_extra_colons() {
    let ix = load_index("0:7:Title: with: colons\n");
    assert_eq!(ix.pages[0].page_title, "Title: with: colons");
    assert_eq!(ix.pages[0].page_id, 7);
}

#[test]
fn crlf_lines_are_accepted() {
    let ix = load_index("0:1:A\r\n9:2:B\r\n");
    assert_eq!(ix.pages.len(), 2);
    assert_eq!(ix.pages[0].page_title, "A");
    assert_eq!(ix.pages[1].block_offset, 9);
}

#[test]
fn malformed_offset_is_an_index_parse_error() {
    let mut ix = PageIndex::new();
    assert_eq!(ix.load("abc:1:T\n"), Err(WikiError::IndexParse));
    assert_eq!(ix.pages.len(), 0);
}

#[test]
fn missing_segments_are_an_index_parse_error() {
    let mut ix = PageIndex::new();
    assert_eq!(ix.load("123\n"), Err(WikiError::IndexParse));
    assert_eq!(ix.load("0:12\n"), Err(WikiError::IndexParse));
}

#[test]
fn malformed_id_is_an_index_parse_error() {
    let mut ix = PageIndex::new();
    assert_eq!(ix.load("0:x:T\n"), Err(WikiError::IndexParse));
}

#[test]
fn empty_source_loads_no_entries() {
    let ix = load_index("");
    assert_eq!(ix.pages.len(), 0);
}

#[test]
fn id_lookup_finds_first_match() {
    let mut ix = load_index("0:1:A\n0:2:B\n5:1:C\n");
    let e = ix.id_exists(1).expect("id 1 is present");
    assert_eq!(e.page_title, "A");
    assert!(ix.id_exists(99).is_none());
}

#[test]
fn title_lookup_finds_first_match() {
    let mut ix = load_index("0:1:Same\n5:2:Same\n");
    let e = ix.title_exists(String::from("Same")).expect("title is present");
    assert_eq!(e.page_id, 1);
    assert!(ix.title_exists(String::from("Absent")).is_none());
}

#[test]
fn block_size_is_delta_to_next_distinct_offset() {
    let mut ix = load_index("0:1:A\n0:2:B\n500:3:C\n1200:4:D\n");
    let a = ix.id_exists(1).unwrap();
    assert_eq!(ix.get_block_size(a), Some(500));
    let c = ix.id_exists(3).unwrap();
    assert_eq!(ix.get_block_size(c), Some(700));
}

#[test]
fn block_size_of_final_block_is_undetermined() {
    let mut ix = load_index("0:1:A\n500:2:B\n");
    let b = ix.id_exists(2).unwrap();
    assert_eq!(ix.get_block_size(b), None);
}

#[test]
fn build_index_decompresses_and_loads() {
    let raw = b"0:1:Alpha\n300:2:Beta\n";
    let mut compressed: Vec<u8> = Vec::new();
    let mut enc = bzip2::read::BzEncoder::new(&raw[..], bzip2::Compression::default());
    std::io::Read::read_to_end(&mut enc, &mut compressed).unwrap();
    let mut ix = PageIndex::new();
    ix.build_index(&compressed).expect("compressed index should load");
    assert_eq!(ix.pages.len(), 2);
    assert_eq!(ix.pages[0].page_title, "Alpha");
    assert_eq!(ix.pages[1].block_offset, 300);
}

#[test]
fn build_index_rejects_garbage_bytes() {
    let mut ix = PageIndex::new();
    let r = ix.build_index(b"this is not compressed data");
    assert_eq!(r, Err(WikiError::Codec));
}

#[test]
fn build_index_surfaces_parse_errors_from_decoded_text() {
    let mut compressed: Vec<u8> = Vec::new();
    let mut enc = bzip2::read::BzEncoder::new(&b"not:index lines"[..], bzip2::Compression::default());
    std::io::Read::read_to_end(&mut enc, &mut compressed).unwrap();
    let mut ix = PageIndex::new();
    assert_eq!(ix.build_index(&compressed), Err(WikiError::IndexParse));
    assert_eq!(ix.pages.len(), 0);
}
