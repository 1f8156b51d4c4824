use crate::engine::{decimal_of, expand_url, expansion, is_plain_template, plain_template};
use crate::error::{Error, ErrorKind};
use crate::markdown::{markdown_html, push_html_of};
use crate::source::{body_bytes, first_mark, frameable, lemma_frame_round_trip, meta_bytes, META_MARK};
use crate::text::same_text;
use crate::time::{two_digits, two_digits_of, unix_epoch, Timestamp};
use vstd::prelude::*;
use vstd::string::StringExecFns;
use vstd::utf8::{decode_utf8, encode_utf8, valid_utf8};

verus! {

pub const DEFAULT_TITLE: &'static str = "Default Title";

pub const DEFAULT_LINK: &'static str = "default-link";

pub const DEFAULT_ARTICLE_URL: &'static str = "/{{ year }}/{{ month }}/{{ day }}/{{ link }}.html";

pub const DEFAULT_PAGE_URL: &'static str = "/{{ link }}.html";

/// What a source file is: a dated article or a standalone page.
#[derive(Clone, Copy, Debug, PartialEq, Eq, Structural)]
pub enum PostKind {
    Article,
    Page,
}

/// The URL template that a new item of a kind starts with.
pub open spec fn default_url_of(kind: PostKind) -> Seq<char> {
    match kind {
        PostKind::Article => DEFAULT_ARTICLE_URL@,
        PostKind::Page => DEFAULT_PAGE_URL@,
    }
}

/// The metadata block of a source file.
#[derive(Debug)]
pub struct PostMeta {
    pub title: String,
    /// The slug used in output paths.
    pub link: String,
    /// A template for the item's URL, over `year`, `month`, `day` and `link`.
    pub url: String,
    pub ts: Timestamp,
    pub kind: PostKind,
}

/// The URL that the template of `m` expands to, when it is a plain template:
/// the year in decimal, the month and day in two digits, and the link.
pub open spec fn resolved_url(m: PostMeta) -> Option<Seq<char>> {
    if is_plain_template(m.url@) {
        Some(
            expansion(
                m.url@,
                decimal_of(m.ts.year as int),
                two_digits_of(m.ts.month as int),
                two_digits_of(m.ts.day as int),
                m.link@,
            ),
        )
    } else {
        None
    }
}

/// Metadata is accepted when its URL template expands to a non-empty URL.
pub open spec fn accepted(m: PostMeta) -> bool {
    resolved_url(m) matches Some(u) && u.len() > 0
}

/// What loading makes of a non-empty metadata block given the outcome of
/// parsing it: the parsed metadata if it is accepted, else nothing.
pub open spec fn block_verdict(parsed: Result<PostMeta, String>) -> Option<PostMeta> {
    match parsed {
        Ok(m) => if accepted(m) {
            Some(m)
        } else {
            None
        },
        Err(_) => None,
    }
}

pub const UNSUPPORTED_TEMPLATE: &'static str = "unsupported URL template";

pub const INVALID_URL: &'static str = "invalid output URL";

impl PostMeta {
    /// Every field holds its default; the timestamp is any valid one.
    pub open spec fn has_defaults(self) -> bool {
        &&& self.title@ == DEFAULT_TITLE@
        &&& self.link@ == DEFAULT_LINK@
        &&& self.url@ == DEFAULT_ARTICLE_URL@
        &&& self.kind == PostKind::Article
        &&& self.ts.wf()
    }

    /// The default metadata, dated `ts`.
    pub fn defaults_at(ts: Timestamp) -> (m: PostMeta)
        requires
            ts.wf(),
        ensures
            m.has_defaults(),
            m.ts == ts,
    {
        PostMeta {
            title: String::from_str(DEFAULT_TITLE),
            link: String::from_str(DEFAULT_LINK),
            url: String::from_str(DEFAULT_ARTICLE_URL),
            ts,
            kind: PostKind::Article,
        }
    }

    /// Expands the URL template with the item's date (year, two-digit month
    /// and day) and link. Only text and placeholders for these four
    /// variables are supported; a `{` that starts a tag or a comment, or any
    /// other expression, is refused.
    pub fn url(&self) -> (r: Result<String, Error>)
        requires
            self.ts.wf(),
        ensures
            match resolved_url(*self) {
                Some(u) => (r matches Ok(s) && s@ == u),
                None => (r matches Err(e) && e.kind == ErrorKind::Resolution && e.msg@ == UNSUPPORTED_TEMPLATE@),
            },
    {
        if !plain_template(self.url.as_str()) {
            return Err(Error::with_kind(ErrorKind::Resolution, UNSUPPORTED_TEMPLATE));
        }
        let month = two_digits(self.ts.month);
        let day = two_digits(self.ts.day);
        match expand_url(self.url.as_str(), self.ts.year, month.as_str(), day.as_str(), self.link.as_str()) {
            Ok(u) => Ok(u),
            Err(_) => Err(Error::with_kind(ErrorKind::Resolution, UNSUPPORTED_TEMPLATE)),
        }
    }

    /// Accepts the metadata given the expansion of its URL template: a failed
    /// expansion is passed on, and an empty URL is refused.
    pub fn checked(self, resolved: Result<String, Error>) -> (r: Result<PostMeta, Error>)
        ensures
            match resolved {
                Err(e) => r == Err::<PostMeta, Error>(e),
                Ok(u) => if u@.len() == 0 {
                    (r matches Err(e) && e.kind == ErrorKind::Validation && e.msg@ == INVALID_URL@)
                } else {
                    r == Ok::<PostMeta, Error>(self)
                },
            },
    {
        match resolved {
            Err(e) => Err(e),
            Ok(u) => {
                if u.unicode_len() == 0 {
                    Err(Error::with_kind(ErrorKind::Validation, INVALID_URL))
                } else {
                    Ok(self)
                }
            },
        }
    }

    /// Expands the URL template and refuses the metadata when that fails or
    /// gives an empty URL.
    pub fn validate(self) -> (r: Result<PostMeta, Error>)
        requires
            self.ts.wf(),
        ensures
            match resolved_url(self) {
                None => (r matches Err(e) && e.kind == ErrorKind::Resolution && e.msg@ == UNSUPPORTED_TEMPLATE@),
                Some(u) => if u.len() == 0 {
                    (r matches Err(e) && e.kind == ErrorKind::Validation && e.msg@ == INVALID_URL@)
                } else {
                    r == Ok::<PostMeta, Error>(self)
                },
            },
    {
        let resolved = self.url();
        self.checked(resolved)
    }

    /// Decides the metadata of a source file from the text of its metadata
    /// block and the outcome of parsing that text: an empty block stands for
    /// the defaults, dated at the Unix epoch so that loading depends on the
    /// file alone, and a parse failure is an error.
    pub fn from_block(block: &str, parsed: Result<PostMeta, String>) -> (r: Result<PostMeta, Error>)
        ensures
            block@.len() == 0 ==> (r matches Ok(m) && m.has_defaults() && m.ts == unix_epoch()),
            block@.len() > 0 ==> match parsed {
                Ok(m) => r == Ok::<PostMeta, Error>(m),
                Err(msg) => (r matches Err(e) && e.kind == ErrorKind::Parse
                    && e.msg@ == "error parsing metadata"@ + ": "@ + msg@),
            },
    {
        if block.unicode_len() == 0 {
            return Ok(PostMeta::defaults_at(Timestamp::epoch()));
        }
        match parsed {
            Ok(m) => Ok(m),
            Err(msg) => {
                let e = Error::with_kind(ErrorKind::Parse, msg.as_str());
                Err(e.context("error parsing metadata"))
            },
        }
    }

    /// The metadata of a source file: the defaults for an empty block, as
    /// `from_block` gives them; otherwise the parsed metadata, validated.
    pub fn load(block: &str, parsed: Result<PostMeta, String>) -> (r: Result<PostMeta, Error>)
        requires
            parsed matches Ok(m) ==> m.ts.wf(),
        ensures
            block@.len() == 0 ==> (r matches Ok(m) && m.has_defaults() && m.ts == unix_epoch()),
            block@.len() > 0 ==> (r is Ok <==> block_verdict(parsed) is Some),
            block@.len() > 0 ==> (r matches Ok(m) ==> block_verdict(parsed) == Some(m)),
            block@.len() > 0 ==> match parsed {
                Err(msg) => (r matches Err(e) && e.kind == ErrorKind::Parse
                    && e.msg@ == "error parsing metadata"@ + ": "@ + msg@),
                Ok(m) => match resolved_url(m) {
                    None => (r matches Err(e) && e.kind == ErrorKind::Resolution),
                    Some(u) => u.len() == 0 ==> (r matches Err(e) && e.kind == ErrorKind::Validation),
                },
            },
    {
        if block.unicode_len() == 0 {
            return PostMeta::from_block(block, parsed);
        }
        let meta = PostMeta::from_block(block, parsed)?;
        meta.validate()
    }
}

impl Default for PostMeta {
    /// The default metadata, dated now.
    fn default() -> (m: PostMeta)
        ensures
            m.has_defaults(),
    {
        PostMeta::defaults_at(Timestamp::now())
    }
}

/// The file extensions whose content is markdown.
pub open spec fn is_markdown_ext(ext: Seq<char>) -> bool {
    ext == "md"@ || ext == "markdown"@
}

pub fn is_markdown(ext: &str) -> (r: bool)
    ensures
        r == is_markdown_ext(ext@),
{
    same_text(ext, "md") || same_text(ext, "markdown")
}

/// One loaded source file: its metadata and its rendered content.
#[derive(Debug)]
pub struct Post {
    pub meta: PostMeta,
    pub content: String,
    /// The path of the file it was loaded from, for messages.
    pub source: String,
}

impl Post {
    pub fn new() -> (p: Post)
        ensures
            p.meta.has_defaults(),
            p.content@.len() == 0,
            p.source@.len() == 0,
    {
        Post::default()
    }

    /// Assembles an item from its metadata and the text after the metadata
    /// block, read from the file at `source`. Markdown (by the file's
    /// extension, given without the dot) is converted to HTML; any other text
    /// is kept as it is.
    pub fn from_parts(meta: PostMeta, body: String, source: &str, ext: &str) -> (p: Post)
        ensures
            p.meta == meta,
            p.source@ == source@,
            is_markdown_ext(ext@) ==> p.content@ == markdown_html(body@),
            !is_markdown_ext(ext@) ==> p.content@ == body@,
    {
        if is_markdown(ext) {
            let html = push_html_of(body.as_str());
            Post { meta, content: html, source: String::from_str(source) }
        } else {
            Post { meta, content: body, source: String::from_str(source) }
        }
    }

    /// The item's URL, as `PostMeta::url` expands it.
    pub fn url(&self) -> (r: Result<String, Error>)
        requires
            self.meta.ts.wf(),
        ensures
            match resolved_url(self.meta) {
                Some(u) => (r matches Ok(s) && s@ == u),
                None => (r matches Err(e) && e.kind == ErrorKind::Resolution && e.msg@ == UNSUPPORTED_TEMPLATE@),
            },
    {
        self.meta.url()
    }
}

impl std::ops::Deref for Post {
    type Target = PostMeta;

    fn deref(&self) -> &PostMeta {
        &self.meta
    }
}

impl Default for Post {
    fn default() -> (p: Post)
        ensures
            p.meta.has_defaults(),
            p.content@.len() == 0,
            p.source@.len() == 0,
    {
        Post { meta: PostMeta::default(), content: String::new(), source: String::new() }
    }
}

pub const NO_LINK: &'static str = "need specify link of post";

/// The metadata of a new source file whose name, without its extension, is
/// `stem`: defaults, with the link taken from the name and the URL template
/// of the kind.
pub fn create_post(stem: Option<&str>, kind: PostKind) -> (r: Result<PostMeta, Error>)
    ensures
        stem is None ==> (r matches Err(e) && e.kind == ErrorKind::Other && e.msg@ == NO_LINK@),
        stem matches Some(s) ==> (r matches Ok(m) && {
            &&& m.title@ == DEFAULT_TITLE@
            &&& m.link@ == s@
            &&& m.url@ == default_url_of(kind)
            &&& m.kind == kind
            &&& m.ts.wf()
        }),
{
    match stem {
        None => Err(Error::with_kind(ErrorKind::Other, NO_LINK)),
        Some(s) => {
            let mut meta = PostMeta::default();
            meta.url = match kind {
                PostKind::Article => String::from_str(DEFAULT_ARTICLE_URL),
                PostKind::Page => String::from_str(DEFAULT_PAGE_URL),
            };
            meta.kind = kind;
            meta.link = String::from_str(s);
            Ok(meta)
        },
    }
}

/// A source file made of a serialized metadata block and the closing mark.
pub fn frame_source(meta_text: &str) -> (r: String)
    ensures
        r@ == meta_text@ + META_MARK@,
{
    String::from_str(meta_text).concat(META_MARK)
}

/// A metadata block serialized for accepted metadata `m`, framed and
/// followed by a body, loads back as `m`: the file splits into that block and
/// that body, and a non-empty block that parses as `m` is accepted as `m`.
pub proof fn lemma_source_round_trip(t: Seq<char>, c: Seq<char>, m: PostMeta)
    requires
        frameable(encode_utf8(t)),
        t.len() > 0,
        accepted(m),
    ensures
        ({
            let s = encode_utf8(t + META_MARK@ + c);
            let i = encode_utf8(t).len() as int;
            &&& first_mark(s) == Some(i)
            &&& valid_utf8(meta_bytes(s, i))
            &&& decode_utf8(meta_bytes(s, i)) == t
            &&& valid_utf8(body_bytes(s, i))
            &&& decode_utf8(body_bytes(s, i)) == c
        }),
        block_verdict(Ok(m)) == Some(m),
{
    lemma_frame_round_trip(t, c);
}

} // verus!
