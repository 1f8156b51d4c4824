use crate::time::digit_char;
use tera::Error as TeraError;
use vstd::prelude::*;

verus! {

pub open spec fn year_name() -> Seq<char> {
    seq!['y', 'e', 'a', 'r']
}

pub open spec fn month_name() -> Seq<char> {
    seq!['m', 'o', 'n', 't', 'h']
}

pub open spec fn day_name() -> Seq<char> {
    seq!['d', 'a', 'y']
}

pub open spec fn link_name() -> Seq<char> {
    seq!['l', 'i', 'n', 'k']
}

/// Whitespace as tera's grammar counts it.
pub open spec fn is_ws(c: char) -> bool {
    c == ' ' || c == '\t' || c == '\r' || c == '\n'
}

/// The first index from `k` on that does not hold whitespace.
pub open spec fn skip_ws(t: Seq<char>, k: int) -> int
    decreases t.len() - k,
{
    if 0 <= k < t.len() && is_ws(t[k]) {
        skip_ws(t, k + 1)
    } else {
        k
    }
}

/// Where the placeholder for `name` that begins at `i` ends: `{{`, optional
/// whitespace, the name, optional whitespace and `}}`.
pub open spec fn var_end(t: Seq<char>, i: int, name: Seq<char>) -> Option<int> {
    let k = skip_ws(t, i + 2);
    let k2 = skip_ws(t, k + name.len());
    if 0 <= i && i + 2 <= t.len() && t[i] == '{' && t[i + 1] == '{' && k + name.len() <= t.len()
        && t.subrange(k, k + name.len()) == name && k2 + 2 <= t.len() && t[k2] == '}' && t[k2 + 1]
        == '}' {
        Some(k2 + 2)
    } else {
        None
    }
}

/// A `{` at `i` that starts no tera block (`{{`, `{%` or `#`) is text.
pub open spec fn text_at(t: Seq<char>, i: int) -> bool {
    t[i] != '{' || i + 1 >= t.len() || (t[i + 1] != '{' && t[i + 1] != '%' && t[i + 1] != '#')
}

/// From `i` on, `t` is made of text and of placeholders for `year`,
/// `month`, `day` and `link`, and of nothing else that tera reads as a block.
pub open spec fn plain_from(t: Seq<char>, i: int) -> bool
    decreases t.len() - i,
{
    if i < 0 || i >= t.len() {
        true
    } else if text_at(t, i) {
        plain_from(t, i + 1)
    } else if var_end(t, i, year_name()) is Some && var_end(t, i, year_name())->Some_0 > i {
        plain_from(t, var_end(t, i, year_name())->Some_0)
    } else if var_end(t, i, month_name()) is Some && var_end(t, i, month_name())->Some_0 > i {
        plain_from(t, var_end(t, i, month_name())->Some_0)
    } else if var_end(t, i, day_name()) is Some && var_end(t, i, day_name())->Some_0 > i {
        plain_from(t, var_end(t, i, day_name())->Some_0)
    } else if var_end(t, i, link_name()) is Some && var_end(t, i, link_name())->Some_0 > i {
        plain_from(t, var_end(t, i, link_name())->Some_0)
    } else {
        false
    }
}

/// A URL template of text and the four placeholders only.
pub open spec fn is_plain_template(t: Seq<char>) -> bool {
    plain_from(t, 0)
}

/// `t` from `i` on, each placeholder replaced by its value.
pub open spec fn expand_from(
    t: Seq<char>,
    i: int,
    year: Seq<char>,
    month: Seq<char>,
    day: Seq<char>,
    link: Seq<char>,
) -> Seq<char>
    decreases t.len() - i,
{
    if i < 0 || i >= t.len() {
        Seq::empty()
    } else if text_at(t, i) {
        seq![t[i]] + expand_from(t, i + 1, year, month, day, link)
    } else if var_end(t, i, year_name()) is Some && var_end(t, i, year_name())->Some_0 > i {
        year + expand_from(t, var_end(t, i, year_name())->Some_0, year, month, day, link)
    } else if var_end(t, i, month_name()) is Some && var_end(t, i, month_name())->Some_0 > i {
        month + expand_from(t, var_end(t, i, month_name())->Some_0, year, month, day, link)
    } else if var_end(t, i, day_name()) is Some && var_end(t, i, day_name())->Some_0 > i {
        day + expand_from(t, var_end(t, i, day_name())->Some_0, year, month, day, link)
    } else if var_end(t, i, link_name()) is Some && var_end(t, i, link_name())->Some_0 > i {
        link + expand_from(t, var_end(t, i, link_name())->Some_0, year, month, day, link)
    } else {
        Seq::empty()
    }
}

/// The template with each placeholder replaced by its value.
pub open spec fn expansion(
    t: Seq<char>,
    year: Seq<char>,
    month: Seq<char>,
    day: Seq<char>,
    link: Seq<char>,
) -> Seq<char> {
    expand_from(t, 0, year, month, day, link)
}

/// The decimal digits of `n`.
pub open spec fn digits_of(n: nat) -> Seq<char>
    decreases n,
{
    if n < 10 {
        seq![digit_char(n as int)]
    } else {
        digits_of(n / 10).push(digit_char((n % 10) as int))
    }
}

/// `n` in decimal, with a minus sign when negative.
pub open spec fn decimal_of(n: int) -> Seq<char> {
    if n < 0 {
        seq!['-'] + digits_of((-n) as nat)
    } else {
        digits_of(n as nat)
    }
}

/// tera's error type, as `Tera::one_off` returns it.
#[verifier::external_type_specification]
#[verifier::external_body]
pub struct ExTeraError(TeraError);

/// Relies on tera's `Tera::one_off`, autoescaping off, with a context that
/// binds `year` to an integer and `month`, `day` and `link` to strings. By
/// tera's grammar (`text`, `variable_tag`, `WHITESPACE`) a template of text
/// in which no `{` starts a block, and of `{{ name }}` placeholders with
/// optional whitespace, parses into text and variable nodes only; the
/// renderer writes text as it is and a bound variable's value in its place,
/// an integer through `Display` (decimal) and a string unescaped.
#[verifier::external_body]
pub(crate) fn expand_url(template: &str, year: i32, month: &str, day: &str, link: &str) -> (r: Result<String, TeraError>)
    requires
        is_plain_template(template@),
    ensures
        r is Ok,
        r->Ok_0@ == expansion(template@, decimal_of(year as int), month@, day@, link@),
{
    let mut ctx = tera::Context::new();
    ctx.insert("year", &year);
    ctx.insert("month", month);
    ctx.insert("day", day);
    ctx.insert("link", link);
    tera::Tera::one_off(template, &ctx, false)
}

/// The characters of `t`.
fn chars_of(t: &str) -> (v: Vec<char>)
    ensures
        v@ == t@,
{
    let n = t.unicode_len();
    let mut v: Vec<char> = Vec::new();
    let mut i: usize = 0;
    while i < n
        invariant
            n == t@.len(),
            i <= n,
            v@ == t@.subrange(0, i as int),
        decreases n - i,
    {
        v.push(t.get_char(i));
        i = i + 1;
        assert(v@ =~= t@.subrange(0, i as int));
    }
    assert(t@.subrange(0, n as int) =~= t@);
    v
}

/// Whether `p` occurs in `t` at index `i`.
fn chars_at(t: &Vec<char>, i: usize, p: &str) -> (r: bool)
    requires
        i <= t@.len(),
    ensures
        r == (i + p@.len() <= t@.len() && t@.subrange(i as int, i + p@.len()) == p@),
{
    let n = t.len();
    let m = p.unicode_len();
    if m > n - i {
        return false;
    }
    let mut k: usize = 0;
    while k < m
        invariant
            n == t@.len(),
            m == p@.len(),
            i + m <= n,
            k <= m,
            forall|j: int| 0 <= j < k ==> t@[i + j] == p@[j],
        decreases m - k,
    {
        if t[i + k] != p.get_char(k) {
            assert(t@.subrange(i as int, i + m)[k as int] != p@[k as int]);
            return false;
        }
        k = k + 1;
    }
    assert(t@.subrange(i as int, i + m) =~= p@);
    true
}

/// The first index from `k` on that does not hold whitespace.
fn skip_spaces(t: &Vec<char>, k: usize) -> (r: usize)
    requires
        k <= t@.len(),
    ensures
        r == skip_ws(t@, k as int),
        k <= r <= t@.len(),
{
    let n = t.len();
    let mut j = k;
    while j < n && (t[j] == ' ' || t[j] == '\t' || t[j] == '\r' || t[j] == '\n')
        invariant
            n == t@.len(),
            k <= j <= n,
            skip_ws(t@, k as int) == skip_ws(t@, j as int),
        decreases n - j,
    {
        j = j + 1;
    }
    j
}

/// Where the placeholder for the variable `name` that begins at `i` ends.
fn placeholder_end(t: &Vec<char>, i: usize, name: &str) -> (r: Option<usize>)
    requires
        i < t@.len(),
    ensures
        r is None ==> var_end(t@, i as int, name@) is None,
        r matches Some(e) ==> var_end(t@, i as int, name@) == Some(e as int) && i < e <= t@.len(),
{
    let n = t.len();
    if n - i < 2 || t[i] != '{' || t[i + 1] != '{' {
        return None;
    }
    let k = skip_spaces(t, i + 2);
    if !chars_at(t, k, name) {
        return None;
    }
    let k2 = skip_spaces(t, k + name.unicode_len());
    if n - k2 < 2 || t[k2] != '}' || t[k2 + 1] != '}' {
        return None;
    }
    Some(k2 + 2)
}

/// Checks that a URL template is made of text and the four placeholders
/// only.
pub fn plain_template(t: &str) -> (r: bool)
    ensures
        r == is_plain_template(t@),
{
    proof {
        reveal_strlit("year");
        reveal_strlit("month");
        reveal_strlit("day");
        reveal_strlit("link");
        assert("year"@ =~= year_name());
        assert("month"@ =~= month_name());
        assert("day"@ =~= day_name());
        assert("link"@ =~= link_name());
    }
    let cs = chars_of(t);
    let n = cs.len();
    let mut i: usize = 0;
    while i < n
        invariant
            n == cs@.len(),
            cs@ == t@,
            i <= n,
            "year"@ == year_name(),
            "month"@ == month_name(),
            "day"@ == day_name(),
            "link"@ == link_name(),
            plain_from(t@, 0) == plain_from(t@, i as int),
        decreases n - i,
    {
        if cs[i] != '{' || n - i < 2 || (cs[i + 1] != '{' && cs[i + 1] != '%' && cs[i + 1] != '#') {
            i = i + 1;
        } else if let Some(e) = placeholder_end(&cs, i, "year") {
            i = e;
        } else if let Some(e) = placeholder_end(&cs, i, "month") {
            i = e;
        } else if let Some(e) = placeholder_end(&cs, i, "day") {
            i = e;
        } else if let Some(e) = placeholder_end(&cs, i, "link") {
            i = e;
        } else {
            return false;
        }
    }
    true
}

} // verus!
