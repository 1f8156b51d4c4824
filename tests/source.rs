use izzet::error::ErrorKind;
use izzet::post::{frame_source, PostMeta};
use izzet::source::{find_mark, split_source, META_MARK};

#[test]
fn split_at_first_mark_line() {
    let parts = split_source(b"title = \"x\"\n%%%\nbody\n%%%\nmore", "a.md").unwrap();
    assert_eq!(parts.meta, "title = \"x\"\n");
    assert_eq!(parts.body, "body\n%%%\nmore");
}

#[test]
fn mark_first_line_gives_empty_block() {
    let parts = split_source(b"%%%\n# Hi\n", "a.md").unwrap();
    assert_eq!(parts.meta, "");
    assert_eq!(parts.body, "# Hi\n");
}

#[test]
fn no_mark_is_an_unfinished_block() {
    for src in [&b""[..], b"title = \"x\"\n", b"a\n%%%", b"x%%%\nbody", b"%%% \n"] {
        let e = split_source(src, "\"a.md\"").unwrap_err();
        assert_eq!(e.kind, ErrorKind::Parse);
        assert_eq!(e.msg, "unfinished metadata found in \"a.md\"");
    }
}

#[test]
fn mark_only_at_line_start() {
    assert_eq!(find_mark(b"a%%%\n%%%\n"), Some(5));
    assert_eq!(find_mark(b"%%%\n"), Some(0));
    assert_eq!(find_mark(b"%%\n"), None);
}

#[test]
fn invalid_utf8_is_a_parse_error() {
    let e = split_source(b"t = 1\n\xff\n%%%\nbody", "\"y.md\"").unwrap_err();
    assert_eq!(e.kind, ErrorKind::Parse);
    assert_eq!(e.msg, "unfinished metadata found in \"y.md\"");
    let e = split_source(b"t = 1\n%%%\n\xc3", "\"y.md\"").unwrap_err();
    assert_eq!(e.kind, ErrorKind::Parse);
    assert_eq!(e.msg, "error reading content from \"y.md\"");
}

#[test]
fn utf8_parts_are_decoded() {
    let parts = split_source("titre = \"é\"\n%%%\nÜber".as_bytes(), "a.md").unwrap();
    assert_eq!(parts.meta, "titre = \"é\"\n");
    assert_eq!(parts.body, "Über");
}

#[test]
fn framed_block_splits_back() {
    let mut table = toml::Table::new();
    table.insert("title".to_string(), toml::Value::String("A \"quoted\"\n title".to_string()));
    table.insert("link".to_string(), toml::Value::String("a".to_string()));
    table.insert("kind".to_string(), toml::Value::String("Page".to_string()));
    let text = toml::to_string(&table).unwrap();
    let mut file = frame_source(&text).into_bytes();
    assert!(file.ends_with(META_MARK.as_bytes()));
    file.extend_from_slice(b"the body\n%%%\n");
    let parts = split_source(&file, "a.md").unwrap();
    assert_eq!(parts.meta, text);
    assert_eq!(parts.body, "the body\n%%%\n");
    let back: toml::Table = toml::from_str(&parts.meta).unwrap();
    assert_eq!(back, table);
}

#[test]
fn empty_block_gives_defaults() {
    let meta = PostMeta::from_block("", Err("ignored".to_string())).unwrap();
    assert_eq!(meta.title, "Default Title");
    assert_eq!(meta.link, "default-link");
    assert_eq!(meta.url, "/{{ year }}/{{ month }}/{{ day }}/{{ link }}.html");
    assert_eq!(meta.ts, izzet::time::Timestamp::epoch());
    let again = PostMeta::load("", Err("ignored".to_string())).unwrap();
    assert_eq!(again.ts, meta.ts);
    assert_eq!(again.url().unwrap(), "/1970/01/01/default-link.html");
}

#[test]
fn parse_failure_is_reported() {
    let e = PostMeta::from_block("title = ", Err("expected a value".to_string())).unwrap_err();
    assert_eq!(e.kind, ErrorKind::Parse);
    assert_eq!(e.msg, "error parsing metadata: expected a value");
}
