use izzet::error::{Error, ErrorKind};
use izzet::files::{get_opener, write_file, OpenMode};
use izzet::conf::Config;
use izzet::post::{Post, PostKind, PostMeta, DEFAULT_ARTICLE_URL, DEFAULT_PAGE_URL};
use izzet::site::{relative_path, sort_newest_first, Layout, Site};
use izzet::theme::ARCHIVE_HTML;
use izzet::time::Timestamp;

fn at(secs: i64, nanos: u32) -> Timestamp {
    Timestamp { secs, nanos, year: 2024, month: 5, day: 1 }
}

fn post(title: &str, link: &str, ts: Timestamp, kind: PostKind) -> Post {
    let url = match kind {
        PostKind::Article => DEFAULT_ARTICLE_URL,
        PostKind::Page => DEFAULT_PAGE_URL,
    };
    let meta = PostMeta { title: title.to_string(), link: link.to_string(), url: url.to_string(), ts, kind }
        .validate()
        .unwrap();
    Post::from_parts(meta, String::new(), link, "html")
}

fn titles(posts: &[Post]) -> Vec<String> {
    posts.iter().map(|p| p.meta.title.clone()).collect()
}

#[test]
fn sorts_newest_first() {
    let t1 = at(100, 0);
    let t2 = at(300, 0);
    let t3 = at(200, 0);
    let sorted = sort_newest_first(vec![
        post("t1", "a", t1, PostKind::Article),
        post("t2", "b", t2, PostKind::Article),
        post("t3", "c", t3, PostKind::Article),
    ]);
    assert_eq!(titles(&sorted), vec!["t2", "t3", "t1"]);
}

#[test]
fn equal_instants_keep_their_order() {
    let sorted = sort_newest_first(vec![
        post("x", "a", at(5, 1), PostKind::Page),
        post("y", "b", at(9, 0), PostKind::Page),
        post("z", "c", at(5, 1), PostKind::Page),
        post("w", "d", at(5, 0), PostKind::Page),
        post("v", "e", at(5, 1), PostKind::Page),
    ]);
    assert_eq!(titles(&sorted), vec!["y", "x", "z", "v", "w"]);
    assert!(sort_newest_first(vec![]).is_empty());
}

#[test]
fn collect_partitions_and_orders() {
    let site = Site::collect(vec![
        post("p1", "p1", at(1, 0), PostKind::Page),
        post("a1", "a1", at(1, 0), PostKind::Article),
        post("a2", "a2", at(3, 0), PostKind::Article),
        post("p2", "p2", at(2, 0), PostKind::Page),
        post("a3", "a3", at(2, 0), PostKind::Article),
    ]);
    assert_eq!(titles(&site.articles), vec!["a2", "a3", "a1"]);
    assert_eq!(titles(&site.pages), vec!["p2", "p1"]);
    assert_eq!(site.latest_article().unwrap().meta.title, "a2");
    assert_eq!(site.post_count(), 5);
    assert_eq!(site.post(3).meta.title, "p2");
}

#[test]
fn no_articles_no_latest() {
    let site = Site::collect(vec![post("p", "p", at(1, 0), PostKind::Page)]);
    assert!(site.latest_article().is_none());
    assert!(Site::collect(vec![]).latest_article().is_none());
}

#[test]
fn test_generate() {
    let a = post("A", "a", Timestamp { secs: 1714521600, nanos: 0, year: 2024, month: 5, day: 1 }, PostKind::Article);
    let p = post("P", "p", at(10, 0), PostKind::Page);
    let site = Site::collect(vec![p, a]);
    assert!(site.articles.first().unwrap().meta.link == "a");
    assert!(site.pages.first().unwrap().meta.link == "p");

    let plan = site.plan(&Layout::default());
    assert!(plan.failure.is_none());
    let paths: Vec<&str> = plan.jobs.iter().map(|j| j.path.as_str()).collect();
    assert_eq!(paths, vec!["2024/05/01/a.html", "p.html", "index.html", "archive.html"]);
    let templates: Vec<&str> = plan.jobs.iter().map(|j| j.template.as_str()).collect();
    assert_eq!(templates, vec!["post.html", "post.html", "index.html", "archive.html"]);
    let bound: Vec<Option<usize>> = plan.jobs.iter().map(|j| j.post).collect();
    assert_eq!(bound, vec![Some(0), Some(1), None, None]);
}

#[test]
fn archive_links_each_article() {
    let mut meta = tera::Map::new();
    meta.insert("title".to_string(), tera::Value::String("A".to_string()));
    meta.insert("link".to_string(), tera::Value::String("a".to_string()));
    meta.insert("ts".to_string(), tera::Value::String("2024-05-01T00:00:00+00:00".to_string()));
    let mut article = tera::Map::new();
    article.insert("meta".to_string(), tera::Value::Object(meta));
    let mut conf = tera::Map::new();
    conf.insert("title".to_string(), tera::Value::String("Site".to_string()));
    let mut ctx = tera::Context::new();
    ctx.insert("articles", &vec![tera::Value::Object(article)]);
    ctx.insert("conf", &tera::Value::Object(conf));
    let html = tera::Tera::one_off(ARCHIVE_HTML, &ctx, false).unwrap();
    assert!(html.contains("href=\"/2024/05/01/a.html\""));
}

#[test]
fn plan_stops_at_unresolvable_url() {
    let good = post("g", "g", at(9, 0), PostKind::Article);
    let mut bad = post("b", "b", at(5, 0), PostKind::Article);
    bad.meta.url = "/{{ missing }}".to_string();
    bad.source = "src/b.md".to_string();
    let site = Site::collect(vec![bad, good]);
    let plan = site.plan(&Layout::default());
    assert_eq!(plan.jobs.len(), 1);
    assert_eq!(plan.jobs[0].path, "2024/05/01/g.html");
    let e: Error = plan.failure.unwrap();
    assert_eq!(e.kind, ErrorKind::Resolution);
    assert!(e.msg.starts_with("src/b.md: "));
}

#[test]
fn first_failed_load_aborts_collection() {
    let loads = vec![
        Ok(post("a", "a", at(1, 0), PostKind::Article)),
        Err(Error::with_kind(ErrorKind::Validation, "invalid output URL")),
        Err(Error::with_kind(ErrorKind::Parse, "later")),
    ];
    let e = Site::from_loads(loads).unwrap_err();
    assert_eq!(e.kind, ErrorKind::Validation);
    let empty_url = PostMeta {
        title: "e".to_string(),
        link: "e".to_string(),
        url: String::new(),
        ts: at(1, 0),
        kind: PostKind::Page,
    }
    .validate()
    .map(|m| Post::from_parts(m, String::new(), "e", "html"));
    let e = Site::from_loads(vec![Ok(post("a", "a", at(1, 0), PostKind::Article)), empty_url]).unwrap_err();
    assert_eq!(e.kind, ErrorKind::Validation);
    let site = Site::from_loads(vec![
        Ok(post("p", "p", at(1, 0), PostKind::Page)),
        Ok(post("a", "a", at(2, 0), PostKind::Article)),
    ])
    .unwrap();
    assert_eq!(titles(&site.articles), vec!["a"]);
    assert_eq!(titles(&site.pages), vec!["p"]);
}

#[test]
fn relative_paths() {
    assert_eq!(relative_path("/a/b.html").unwrap(), "a/b.html");
    assert_eq!(relative_path("a.html").unwrap(), "a.html");
    assert_eq!(relative_path("/").unwrap(), "");
    assert_eq!(relative_path("").unwrap_err().kind, ErrorKind::Validation);
}

#[test]
fn write_policy_follows_force() {
    assert_eq!(get_opener(true), OpenMode::CreateOrTruncate);
    assert_eq!(get_opener(false), OpenMode::CreateNew);
    let mut c = Config::default();
    let w = write_file("out/a.html".to_string(), &c, b"<p>");
    assert_eq!(w.mode, OpenMode::CreateNew);
    assert_eq!(w.path, "out/a.html");
    assert_eq!(w.data, b"<p>".to_vec());
    c.force = Some(true);
    assert_eq!(write_file("x".to_string(), &c, b"").mode, OpenMode::CreateOrTruncate);
    c.force = Some(false);
    assert_eq!(write_file("x".to_string(), &c, b"").mode, OpenMode::CreateNew);
}

#[test]
fn error_context_prefixes() {
    let e = Error::new("boom".to_string()).context("while testing");
    assert_eq!(e.kind, ErrorKind::Other);
    assert_eq!(e.message(), "while testing: boom");
    let e = Error::with_kind(ErrorKind::Io, "x");
    assert_eq!(e.kind, ErrorKind::Io);
}
