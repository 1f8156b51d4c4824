use izzet::engine::plain_template;
use izzet::error::ErrorKind;
use izzet::markdown::markdown_to_html;
use izzet::post::{create_post, frame_source, is_markdown, Post, PostKind, PostMeta, DEFAULT_PAGE_URL};
use izzet::source::split_source;
use izzet::time::{two_digits, Timestamp};

fn may_first() -> Timestamp {
    Timestamp { secs: 1714521600, nanos: 0, year: 2024, month: 5, day: 1 }
}

fn meta(link: &str, url: &str, kind: PostKind) -> PostMeta {
    PostMeta {
        title: "t".to_string(),
        link: link.to_string(),
        url: url.to_string(),
        ts: may_first(),
        kind,
    }
}

#[test]
fn test_post_with_bad_meta() {
    // only a meta ending mark
    let parts = split_source(b"%%%\n", "y.md").unwrap();
    let m = PostMeta::load(&parts.meta, Err("missing field `title`".to_string())).unwrap();
    assert_eq!(m.title, "Default Title".to_string());
    assert_eq!(m.link, "default-link".to_string());
    assert_eq!(m.url, "/{{ year }}/{{ month }}/{{ day }}/{{ link }}.html".to_string());
    assert_eq!(m.kind, PostKind::Article);

    // no meta at all
    assert!(split_source(b"", "y.md").is_err());

    // zero-length URL
    let text = "title = \"xxx\"\nlink = \"yyy\"\nurl = \"\"\nts = \"2017-12-04T20:23:37.463860-05:00\"\nkind = \"Page\"\n";
    let parts = split_source(frame_source(text).as_bytes(), "y.md").unwrap();
    let parsed = meta("yyy", "", PostKind::Page);
    let e = PostMeta::load(&parts.meta, Ok(parsed)).unwrap_err();
    assert_eq!(e.kind, ErrorKind::Validation);
    assert_eq!(e.msg, "invalid output URL");
}

#[test]
fn test_create_post() {
    for kind in [PostKind::Article, PostKind::Page] {
        let before = Timestamp::now();
        let m = create_post(Some("x"), kind).unwrap();
        let after = Timestamp::now();
        assert!(m.ts.is_later_than(&before) && after.is_later_than(&m.ts));
        assert_eq!(m.link, "x");
        assert_eq!(m.kind, kind);
        assert_eq!(m.title, "Default Title");
        let post = Post::from_parts(m, "XXX".to_string(), "x.md", "md");
        assert_eq!(post.link, "x");
        assert_eq!(post.kind, kind);
        assert_eq!(post.content, markdown_to_html("XXX").unwrap());
    }
    assert_eq!(create_post(Some("p"), PostKind::Page).unwrap().url, DEFAULT_PAGE_URL);
    let e = create_post(None, PostKind::Page).unwrap_err();
    assert_eq!(e.kind, ErrorKind::Other);
    assert_eq!(e.msg, "need specify link of post");
}

#[test]
fn url_expands_date_and_link() {
    let m = meta("my-post", "/{{ year }}/{{ month }}/{{ day }}/{{ link }}.html", PostKind::Article);
    assert_eq!(m.url().unwrap(), "/2024/05/01/my-post.html");
    let m = meta("p", "/{{ link }}.html", PostKind::Page);
    assert_eq!(m.url().unwrap(), "/p.html");
    let m = meta("p{q}", "} {{ day }}{{ month }}-{{ year }}}/{{ link }}", PostKind::Page);
    assert_eq!(m.url().unwrap(), "} 0105-2024}/p{q}");
    let mut m = meta("x", "{{ year }}", PostKind::Page);
    m.ts.year = -7;
    assert_eq!(m.url().unwrap(), "-7");
    assert!(plain_template("/{{ year }}/x"));
    assert!(!plain_template("/{{ years }}/x"));
    let m = meta("a", "/{{year}}/{{\tmonth\n}}/{{day  }}/{{ link}}.html", PostKind::Article);
    assert_eq!(m.url().unwrap(), "/2024/05/01/a.html");
    let m = meta("a", "/a{b}/{ {{ link }}.html{", PostKind::Page);
    assert_eq!(m.url().unwrap(), "/a{b}/{ a.html{");
}

#[test]
fn empty_resolved_url_is_a_validation_error() {
    let e = meta("a", "", PostKind::Article).validate().unwrap_err();
    assert_eq!(e.kind, ErrorKind::Validation);
    let e = meta("a", "", PostKind::Page).validate().unwrap_err();
    assert_eq!(e.msg, "invalid output URL");
    let e = meta("a", "x", PostKind::Page).checked(Ok(String::new())).unwrap_err();
    assert_eq!(e.kind, ErrorKind::Validation);
    let m = meta("a", "x", PostKind::Page).checked(Ok("/a.html".to_string())).unwrap();
    assert_eq!(m.link, "a");
}

#[test]
fn unknown_placeholder_is_a_resolution_error() {
    let e = meta("a", "/{{ nothing }}.html", PostKind::Page).validate().unwrap_err();
    assert_eq!(e.kind, ErrorKind::Resolution);
    assert_eq!(e.msg, "unsupported URL template");
    for t in ["{% if false %}x{% endif %}", "{% include \"__tera_one_off\" %}", "{{- year }}", "{# c #}", "/{{ link }", "{{ years }}", "{{ year | upper }}", "x{{"] {
        let e = meta("a", t, PostKind::Page).url().unwrap_err();
        assert_eq!(e.kind, ErrorKind::Resolution);
    }
    let e = PostMeta::load("title = \"a\"\n", Ok(meta("a", "/{{ nothing }}.html", PostKind::Page))).unwrap_err();
    assert_eq!(e.kind, ErrorKind::Resolution);
}

#[test]
fn load_keeps_parsed_metadata() {
    let m = PostMeta::load("title = \"t\"\n", Ok(meta("a", "/{{ link }}.html", PostKind::Page))).unwrap();
    assert_eq!(m.link, "a");
    assert_eq!(m.kind, PostKind::Page);
    assert_eq!(m.ts, may_first());
}

#[test]
fn markdown_extension_is_converted() {
    let body = "# Title\n\n*x* <b>".to_string();
    let p = Post::from_parts(meta("a", "/a", PostKind::Page), body.clone(), "a.md", "md");
    assert_eq!(p.content, "<h1>Title</h1>\n<p><em>x</em> <b></p>\n");
    let p = Post::from_parts(meta("a", "/a", PostKind::Page), body.clone(), "a.markdown", "markdown");
    assert_eq!(p.content, "<h1>Title</h1>\n<p><em>x</em> <b></p>\n");
    assert_eq!(p.source, "a.markdown");
}

#[test]
fn other_extensions_pass_through() {
    let body = "# Title\n\n*x* <b>".to_string();
    for ext in ["html", "", "MD", "mdx"] {
        let p = Post::from_parts(meta("a", "/a", PostKind::Page), body.clone(), "a", ext);
        assert_eq!(p.content, body);
    }
    assert!(is_markdown("md"));
    assert!(!is_markdown("m"));
}

#[test]
fn markdown_converts() {
    assert_eq!(markdown_to_html("XXX").unwrap(), "<p>XXX</p>\n");
    assert_eq!(markdown_to_html("").unwrap(), "");
}

#[test]
fn timestamps_need_real_dates() {
    let t = |year, month, day| Timestamp { secs: 0, nanos: 0, year, month, day };
    assert!(t(2024, 2, 29).is_valid());
    assert!(!t(2023, 2, 29).is_valid());
    assert!(t(2000, 2, 29).is_valid());
    assert!(!t(1900, 2, 29).is_valid());
    assert!(!t(2024, 2, 30).is_valid());
    assert!(!t(2024, 4, 31).is_valid());
    assert!(t(2024, 12, 31).is_valid());
    assert!(!t(2024, 13, 1).is_valid());
    assert!(!t(2024, 1, 0).is_valid());
    assert!(t(-4, 2, 29).is_valid());
    assert!(!t(-1, 2, 29).is_valid());
    assert_eq!(izzet::time::month_length(2024, 2), 29);
}

#[test]
fn two_digit_fields() {
    assert_eq!(two_digits(0), "00");
    assert_eq!(two_digits(7), "07");
    assert_eq!(two_digits(12), "12");
    assert_eq!(two_digits(99), "99");
}

#[test]
fn now_is_a_valid_timestamp() {
    let t = Timestamp::now();
    assert!(1 <= t.month && t.month <= 12);
    assert!(1 <= t.day && t.day <= 31);
    assert!(t.year >= 2024);
    assert!(t.secs > 1714521600);
    let d = PostMeta::default();
    assert!(d.ts.secs >= t.secs);
    assert!(d.ts.is_later_than(&may_first()));
    assert!(!may_first().is_later_than(&may_first()));
}

#[test]
fn default_post_is_empty() {
    let p = Post::new();
    assert_eq!(p.content, "");
    assert_eq!(p.meta.kind, PostKind::Article);
}
