use vstd::prelude::*;

verus! {

// The templates that a new site starts with.

/// Renders one item, bound as `post`.
pub const POST_HTML: &'static str = "\
<!DOCTYPE html>
<html>
<head>
  <meta charset=\"utf-8\">
</head>
<body>
  <h1><a href=\"/\">{{ post.meta.title }}</a></h1>
  <h3>{{ post.meta.ts | date(format=\"%Y-%b-%d\") }}</h3>
  <div>
    <div>
      {{ post.content }}
    </div>
  </div>
  <div>
    <a href=\"/\">Home</a>
  </div>
</body>
</html>
";

/// The home page: the site title, the pages, and the latest article in full.
pub const INDEX_HTML: &'static str = "\
<!DOCTYPE html>
<html>
<head>
  <meta charset=\"utf-8\">
</head>
<body>
  <h1><a href=\"/\">{{ conf.title }}</a></h1>
  <div>
    <ul>
      <li><a href=\"/\">Home</a></li>
      <li><a href=\"/archive.html\">Archive</a></li>
      {% for page in pages %}
        <li><a href=\"/{{ page.meta.link }}.html\">{{ page.meta.title }}</a></li>
      {% endfor %}
    </ul>
  </div>
  {% if latest_article %}
  <h2>
    <a href=\"/{{ latest_article.meta.ts | date(format=\"%Y/%m/%d\") }}/{{ latest_article.meta.link }}.html\">
    {{ latest_article.meta.title }}
    </a>
  </h2>
  <div>
    <h3>{{ latest_article.meta.ts | date(format=\"%Y-%b-%d\") }}</h3>
  </div>
  <div>
    <div>
      {{ latest_article.content }}
    </div>
  </div>
  {% endif %}
</body>
</html>
";

/// Lists every article, newest first, with a link to each.
pub const ARCHIVE_HTML: &'static str = "\
<!DOCTYPE html>
<html>
<head>
  <meta charset=\"utf-8\">
</head>
<body>
  <h1><a href=\"/\">{{ conf.title }}</a></h1>
  <div>
    <ul>
    {% for article in articles %}
    <li>
      <span>{{ article.meta.ts | date(format=\"%Y-%b-%d\") }}</span>
      <a href=\"/{{ article.meta.ts | date(format=\"%Y/%m/%d\") }}/{{ article.meta.link }}.html\">
      {{ article.meta.title }}
      </a>
    </li>
    {% endfor %}
    </ul>
  </div>
</body>
</html>
";

} // verus!
