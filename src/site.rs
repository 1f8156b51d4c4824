use crate::error::{Error, ErrorKind};
use crate::post::{accepted, resolved_url, Post, PostKind, INVALID_URL, UNSUPPORTED_TEMPLATE};
use vstd::prelude::*;
use vstd::set_lib::{lemma_int_range, lemma_subset_equality, set_int_range};
use vstd::string::StringExecFns;

verus! {

pub const SRC_DIR: &'static str = "src";

pub const THEME_DIR: &'static str = "theme";

pub const POST_FILE: &'static str = "post.html";

pub const INDEX_FILE: &'static str = "index.html";

pub const ARCHIVE_FILE: &'static str = "archive.html";

/// Where a site keeps its sources and templates, and which pages it renders.
pub struct Layout {
    /// The directory of source files, under the site's input directory.
    pub src_dir: String,
    /// The directory of templates, under the site's input directory.
    pub theme_dir: String,
    /// The template that renders one item.
    pub post_template: String,
    /// Site-level pages: each is rendered from the template of that name to
    /// the output file of that name.
    pub site_pages: Vec<String>,
}

impl Default for Layout {
    fn default() -> (l: Layout)
        ensures
            l.src_dir@ == SRC_DIR@,
            l.theme_dir@ == THEME_DIR@,
            l.post_template@ == POST_FILE@,
            l.site_pages@.len() == 2,
            l.site_pages@[0]@ == INDEX_FILE@,
            l.site_pages@[1]@ == ARCHIVE_FILE@,
    {
        let mut site_pages: Vec<String> = Vec::new();
        site_pages.push(String::from_str(INDEX_FILE));
        site_pages.push(String::from_str(ARCHIVE_FILE));
        Layout {
            src_dir: String::from_str(SRC_DIR),
            theme_dir: String::from_str(THEME_DIR),
            post_template: String::from_str(POST_FILE),
            site_pages,
        }
    }
}

/// The items of `s` of one kind, in their order in `s`.
pub open spec fn of_kind(s: Seq<Post>, kind: PostKind) -> Seq<Post> {
    s.filter(|p: Post| p.meta.kind == kind)
}

/// The items that loads which all succeeded gave.
pub open spec fn loaded(loads: Seq<Result<Post, Error>>) -> Seq<Post> {
    Seq::new(loads.len(), |i: int| loads[i]->Ok_0)
}

/// Item `i` of `s` goes before item `j` when newest come first: it is later,
/// or of the same instant and earlier in `s`.
pub open spec fn precedes(s: Seq<Post>, i: int, j: int) -> bool {
    ||| s[i].meta.ts.later(s[j].meta.ts)
    ||| (s[i].meta.ts.same_instant(s[j].meta.ts) && i < j)
}

/// `p` lists each index below `n` once.
pub open spec fn is_index_perm(p: Seq<int>, n: int) -> bool {
    &&& p.len() == n
    &&& forall|k: int| 0 <= k < n ==> 0 <= #[trigger] p[k] < n
    &&& forall|k: int, l: int| 0 <= k < l < n ==> p[k] != p[l]
}

/// `r` holds the items of `s` through the reordering `p`, newest first, items
/// of the same instant in their order in `s`.
pub open spec fn newest_first_by(s: Seq<Post>, r: Seq<Post>, p: Seq<int>) -> bool {
    &&& is_index_perm(p, s.len() as int)
    &&& r.len() == s.len()
    &&& forall|k: int| 0 <= k < r.len() ==> r[k] == s[#[trigger] p[k]]
    &&& forall|k: int, l: int| 0 <= k < l < r.len() ==> precedes(s, p[k], p[l])
}

/// `r` is `s` sorted newest first, stably.
pub open spec fn newest_first(s: Seq<Post>, r: Seq<Post>) -> bool {
    exists|p: Seq<int>| newest_first_by(s, r, p)
}

/// A reordering lists every index below `n`.
pub proof fn lemma_index_perm_onto(p: Seq<int>, n: int, v: int)
    requires
        is_index_perm(p, n),
        0 <= v < n,
    ensures
        exists|k: int| 0 <= k < n && p[k] == v,
{
    assert(p.no_duplicates());
    p.unique_seq_to_set();
    lemma_int_range(0, n);
    assert(p.to_set().subset_of(set_int_range(0, n)));
    vstd::seq_lib::seq_to_set_is_finite(p);
    lemma_subset_equality(p.to_set(), set_int_range(0, n));
    assert(set_int_range(0, n).contains(v));
    assert(p.to_set().contains(v));
}

proof fn lemma_orders_agree(s: Seq<Post>, r1: Seq<Post>, p: Seq<int>, r2: Seq<Post>, q: Seq<int>, k: int)
    requires
        newest_first_by(s, r1, p),
        newest_first_by(s, r2, q),
        0 <= k <= s.len(),
    ensures
        forall|j: int| 0 <= j < k ==> p[j] == q[j],
    decreases k,
{
    if k > 0 {
        let n = s.len() as int;
        let j = k - 1;
        lemma_orders_agree(s, r1, p, r2, q, j);
        if p[j] != q[j] {
            lemma_index_perm_onto(p, n, q[j]);
            let k1 = choose|k1: int| 0 <= k1 < n && p[k1] == q[j];
            lemma_index_perm_onto(q, n, p[j]);
            let k2 = choose|k2: int| 0 <= k2 < n && q[k2] == p[j];
            if k1 < j {
                assert(q[k1] == q[j]);
            }
            if k2 < j {
                assert(p[k2] == p[j]);
            }
            assert(precedes(s, p[j], p[k1]));
            assert(precedes(s, q[j], q[k2]));
        }
    }
}

/// Ordering newest first, stably, determines the result: two orderings of
/// the same items that both meet it are equal.
pub proof fn lemma_newest_first_unique(s: Seq<Post>, r1: Seq<Post>, r2: Seq<Post>)
    requires
        newest_first(s, r1),
        newest_first(s, r2),
    ensures
        r1 == r2,
{
    let p = choose|p: Seq<int>| newest_first_by(s, r1, p);
    let q = choose|q: Seq<int>| newest_first_by(s, r2, q);
    lemma_orders_agree(s, r1, p, r2, q, s.len() as int);
    assert forall|k: int| 0 <= k < r1.len() implies r1[k] == r2[k] by {
        assert(r1[k] == s[p[k]]);
        assert(r2[k] == s[q[k]]);
    }
    assert(r1 =~= r2);
}

/// The first item of a newest-first ordering is at least as late as every
/// item ordered, so the latest article of a site is its most recent one.
pub proof fn lemma_first_is_latest(s: Seq<Post>, r: Seq<Post>)
    requires
        newest_first(s, r),
        s.len() > 0,
    ensures
        forall|i: int| 0 <= i < s.len() ==> !(#[trigger] s[i]).meta.ts.later(r[0].meta.ts),
{
    let p = choose|p: Seq<int>| newest_first_by(s, r, p);
    assert forall|i: int| 0 <= i < s.len() implies !(#[trigger] s[i]).meta.ts.later(r[0].meta.ts) by {
        lemma_index_perm_onto(p, s.len() as int, i);
        let k = choose|k: int| 0 <= k < s.len() && p[k] == i;
        assert(r[0] == s[p[0]]);
        if k > 0 {
            assert(precedes(s, p[0], p[k]));
        }
    }
}

/// Sorts items newest first; items of the same instant keep their order.
pub fn sort_newest_first(posts: Vec<Post>) -> (r: Vec<Post>)
    ensures
        newest_first(posts@, r@),
{
    let ghost s = posts@;
    let mut rest = posts;
    let mut out: Vec<Post> = Vec::new();
    let ghost mut p: Seq<int> = Seq::empty();
    while rest.len() > 0
        invariant
            rest@ == s.subrange(0, rest@.len() as int),
            out@.len() == p.len(),
            p.len() + rest@.len() == s.len(),
            forall|k: int| 0 <= k < p.len() ==> rest@.len() <= #[trigger] p[k] < s.len(),
            forall|k: int, l: int| 0 <= k < l < p.len() ==> p[k] != p[l],
            forall|k: int| 0 <= k < out@.len() ==> out@[k] == s[#[trigger] p[k]],
            forall|k: int, l: int| 0 <= k < l < out@.len() ==> precedes(s, p[k], p[l]),
        decreases rest@.len(),
    {
        let ghost i = rest@.len() - 1;
        let item = rest.pop().unwrap();
        assert(item == s[i]);
        let mut k: usize = 0;
        while k < out.len() && out[k].meta.ts.is_later_than(&item.meta.ts)
            invariant
                k <= out@.len(),
                forall|m: int| 0 <= m < k ==> (#[trigger] out@[m]).meta.ts.later(item.meta.ts),
            decreases out@.len() - k,
        {
            k = k + 1;
        }
        proof {
            assert forall|m: int| k <= m < out@.len() implies !(#[trigger] out@[m]).meta.ts.later(item.meta.ts) by {
                if m > k {
                    assert(precedes(s, p[k as int], p[m]));
                }
            }
        }
        out.insert(k, item);
        proof {
            p = p.insert(k as int, i);
            assert forall|a: int, b: int| 0 <= a < b < out@.len() implies precedes(s, p[a], p[b]) by {
                if a < k && b > k {
                    assert(precedes(s, p[a], i));
                }
            }
        }
    }
    proof {
        assert(newest_first_by(s, out@, p));
    }
    out
}

/// A site's items, split by kind and ordered newest first.
#[derive(Debug)]
pub struct Site {
    pub articles: Vec<Post>,
    pub pages: Vec<Post>,
}

/// One output of a generation run: a template to render, the item bound
/// under `post` (an index into articles then pages), if any, and the path of
/// the output file under the output directory.
#[derive(Debug)]
pub struct Job {
    pub template: String,
    pub post: Option<usize>,
    pub path: String,
}

/// The outputs of a generation run, in order. When an item's output path
/// could not be decided, `jobs` stops before that item and `failure` says why;
/// what comes before it is still to be written.
#[derive(Debug)]
pub struct Plan {
    pub jobs: Vec<Job>,
    pub failure: Option<Error>,
}

/// The output path that a resolved URL gives: the URL without its leading
/// separator.
pub open spec fn output_path_of(url: Seq<char>) -> Seq<char> {
    if url.len() > 0 && url[0] == '/' {
        url.drop_first()
    } else {
        url
    }
}

/// The output path, under the output directory, of an item whose URL
/// resolved to `url`. An empty URL is refused.
pub fn relative_path(url: &str) -> (r: Result<String, Error>)
    ensures
        url@.len() == 0 ==> (r matches Err(e) && e.kind == ErrorKind::Validation && e.msg@ == INVALID_URL@),
        url@.len() > 0 ==> (r matches Ok(p) && p@ == output_path_of(url@)),
{
    let n = url.unicode_len();
    if n == 0 {
        Err(Error::with_kind(ErrorKind::Validation, INVALID_URL))
    } else if url.get_char(0) == '/' {
        Ok(String::from_str(url.substring_char(1, n)))
    } else {
        Ok(String::from_str(url))
    }
}

impl Site {
    /// Partitions loaded items by kind and orders each kind newest first.
    pub fn collect(posts: Vec<Post>) -> (site: Site)
        ensures
            newest_first(of_kind(posts@, PostKind::Article), site.articles@),
            newest_first(of_kind(posts@, PostKind::Page), site.pages@),
            site.articles@.len() + site.pages@.len() == posts@.len(),
    {
        let ghost s = posts@;
        let mut rest = posts;
        let mut articles: Vec<Post> = Vec::new();
        let mut pages: Vec<Post> = Vec::new();
        let ghost mut taken: int = 0;
        while rest.len() > 0
            invariant
                0 <= taken <= s.len(),
                rest@ == s.subrange(taken, s.len() as int),
                articles@ == of_kind(s.take(taken), PostKind::Article),
                pages@ == of_kind(s.take(taken), PostKind::Page),
                articles@.len() + pages@.len() == taken,
            decreases rest@.len(),
        {
            let post = rest.remove(0);
            proof {
                assert(s.take(taken + 1).drop_last() =~= s.take(taken));
                assert(s.take(taken + 1).last() == post);
                reveal(Seq::filter);
                taken = taken + 1;
            }
            match post.meta.kind {
                PostKind::Article => articles.push(post),
                PostKind::Page => pages.push(post),
            }
        }
        proof {
            assert(s.take(taken) =~= s);
        }
        Site { articles: sort_newest_first(articles), pages: sort_newest_first(pages) }
    }

    /// Builds a site from the outcome of loading each source file. The first
    /// failed load aborts the collection and is returned.
    pub fn from_loads(loads: Vec<Result<Post, Error>>) -> (r: Result<Site, Error>)
        ensures
            r is Ok <==> forall|i: int| 0 <= i < loads@.len() ==> (#[trigger] loads@[i]) is Ok,
            r matches Err(e) ==> exists|i: int| 0 <= i < loads@.len() && loads@[i] == Err::<Post, Error>(e)
                && forall|j: int| 0 <= j < i ==> (#[trigger] loads@[j]) is Ok,
            r matches Ok(site) ==> {
                &&& newest_first(of_kind(loaded(loads@), PostKind::Article), site.articles@)
                &&& newest_first(of_kind(loaded(loads@), PostKind::Page), site.pages@)
            },
    {
        let ghost s = loads@;
        let mut rest = loads;
        let mut posts: Vec<Post> = Vec::new();
        let ghost mut taken: int = 0;
        while rest.len() > 0
            invariant
                s == loads@,
                0 <= taken <= s.len(),
                rest@ == s.subrange(taken, s.len() as int),
                posts@.len() == taken,
                forall|j: int| 0 <= j < taken ==> (#[trigger] s[j]) is Ok,
                forall|j: int| 0 <= j < taken ==> posts@[j] == (#[trigger] s[j])->Ok_0,
            decreases rest@.len(),
        {
            let load = rest.remove(0);
            assert(load == s[taken]);
            match load {
                Err(e) => {
                    assert(s[taken] == Err::<Post, Error>(e));
                    assert(!(s[taken] is Ok));
                    return Err(e);
                },
                Ok(post) => {
                    posts.push(post);
                    proof {
                        taken = taken + 1;
                    }
                },
            }
        }
        assert(taken == s.len());
        assert(posts@ =~= loaded(s));
        Ok(Site::collect(posts))
    }

    /// The most recent article, absent when there are none.
    pub fn latest_article(&self) -> (r: Option<&Post>)
        ensures
            self.articles@.len() == 0 ==> r is None,
            self.articles@.len() > 0 ==> (r matches Some(p) && *p == self.articles@[0]),
    {
        if self.articles.len() == 0 {
            None
        } else {
            Some(&self.articles[0])
        }
    }

    /// The items in the order they are generated: articles, then pages.
    pub open spec fn in_order(&self) -> Seq<Post> {
        self.articles@ + self.pages@
    }

    pub fn post_count(&self) -> (n: usize)
        requires
            self.articles@.len() + self.pages@.len() <= usize::MAX,
        ensures
            n == self.in_order().len(),
    {
        self.articles.len() + self.pages.len()
    }

    /// Item `i` in the order they are generated.
    pub fn post(&self, i: usize) -> (p: &Post)
        requires
            i < self.in_order().len(),
        ensures
            *p == self.in_order()[i as int],
    {
        if i < self.articles.len() {
            &self.articles[i]
        } else {
            &self.pages[i - self.articles.len()]
        }
    }

    /// Plans a generation run: every item, articles first, rendered with the
    /// item template to the path its URL gives, then every site-level page.
    /// The plan stops at the first item whose URL does not resolve to a
    /// non-empty path, and the failure names that item's source file.
    pub fn plan(&self, layout: &Layout) -> (r: Plan)
        requires
            self.in_order().len() + layout.site_pages@.len() <= usize::MAX,
            forall|i: int| 0 <= i < self.in_order().len() ==> (#[trigger] self.in_order()[i]).meta.ts.wf(),
        ensures
            r.failure is None <==> forall|i: int| 0 <= i < self.in_order().len() ==> accepted(#[trigger] self.in_order()[i].meta),
            r.failure is None ==> r.jobs@.len() == self.in_order().len() + layout.site_pages@.len(),
            r.failure is Some ==> {
                &&& r.jobs@.len() < self.in_order().len()
                &&& forall|i: int| 0 <= i < r.jobs@.len() ==> accepted(#[trigger] self.in_order()[i].meta)
            },
            r.failure matches Some(e) ==> ({
                let p = self.in_order()[r.jobs@.len() as int];
                match resolved_url(p.meta) {
                    None => e.kind == ErrorKind::Resolution && e.msg@ == p.source@ + ": "@ + UNSUPPORTED_TEMPLATE@,
                    Some(u) => e.kind == ErrorKind::Validation && e.msg@ == p.source@ + ": "@ + INVALID_URL@,
                }
            }),
            forall|j: int| 0 <= j < r.jobs@.len() && j < self.in_order().len() ==> {
                &&& (#[trigger] r.jobs@[j]).template@ == layout.post_template@
                &&& r.jobs@[j].post == Some(j as usize)
                &&& r.jobs@[j].path@ == output_path_of(resolved_url(self.in_order()[j].meta)->Some_0)
            },
            forall|j: int| self.in_order().len() <= j < r.jobs@.len() ==> {
                &&& (#[trigger] r.jobs@[j]).template@ == layout.site_pages@[j - self.in_order().len()]@
                &&& r.jobs@[j].path@ == layout.site_pages@[j - self.in_order().len()]@
                &&& r.jobs@[j].post is None
            },
    {
        let n = self.post_count();
        let mut jobs: Vec<Job> = Vec::new();
        let mut i: usize = 0;
        while i < n
            invariant
                n == self.in_order().len(),
                i <= n,
                jobs@.len() == i,
                forall|i: int| 0 <= i < self.in_order().len() ==> (#[trigger] self.in_order()[i]).meta.ts.wf(),
                forall|j: int| 0 <= j < i ==> {
                    &&& (#[trigger] jobs@[j]).template@ == layout.post_template@
                    &&& jobs@[j].post == Some(j as usize)
                    &&& jobs@[j].path@ == output_path_of(resolved_url(self.in_order()[j].meta)->Some_0)
                },
                forall|j: int| 0 <= j < i ==> accepted(#[trigger] self.in_order()[j].meta),
            decreases n - i,
        {
            let post = self.post(i);
            let path = match post.url() {
                Ok(u) => relative_path(u.as_str()),
                Err(e) => Err(e),
            };
            match path {
                Err(e) => {
                    assert(!accepted(self.in_order()[i as int].meta));
                    return Plan { jobs, failure: Some(e.context(post.source.as_str())) };
                },
                Ok(path) => {
                    assert(accepted(self.in_order()[i as int].meta));
                    assert(path@ == output_path_of(resolved_url(self.in_order()[i as int].meta)->Some_0));
                    jobs.push(Job { template: layout.post_template.clone(), post: Some(i), path });
                    assert(jobs@[i as int].path@ == output_path_of(resolved_url(self.in_order()[i as int].meta)->Some_0));
                },
            }
            i = i + 1;
        }
        let m = layout.site_pages.len();
        let mut k: usize = 0;
        while k < m
            invariant
                n == self.in_order().len(),
                n + m <= usize::MAX,
                m == layout.site_pages@.len(),
                k <= m,
                jobs@.len() == n + k,
                forall|j: int| 0 <= j < n ==> {
                    &&& (#[trigger] jobs@[j]).template@ == layout.post_template@
                    &&& jobs@[j].post == Some(j as usize)
                    &&& jobs@[j].path@ == output_path_of(resolved_url(self.in_order()[j].meta)->Some_0)
                },
                forall|j: int| 0 <= j < n ==> accepted(#[trigger] self.in_order()[j].meta),
                forall|j: int| n <= j < n + k ==> {
                    &&& (#[trigger] jobs@[j]).template@ == layout.site_pages@[j - n]@
                    &&& jobs@[j].path@ == layout.site_pages@[j - n]@
                    &&& jobs@[j].post is None
                },
            decreases m - k,
        {
            let name = &layout.site_pages[k];
            jobs.push(Job { template: name.clone(), post: None, path: name.clone() });
            k = k + 1;
        }
        Plan { jobs, failure: None }
    }
}

} // verus!
