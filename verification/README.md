# blog_pages

The page logic of a Rocket blog, verified with Verus.

- `src/collate.rs` — pagination: the items a page shows, the SQL that
  fetches them, page links, reading the page a query string asks for, and
  the navigation bar. The `law_*` proof functions state what holds across
  these functions (a page link reads back as the page it links to, pages
  cover every item, ...).
- `src/xpress.rs` — `Express` responses: content type, cache lifetime,
  compression (Brotli, gzip, DEFLATE) and streaming.
- `src/cache/pages.rs` and `src/cache/pages/` — the RSS feeds built from the
  cached articles, filtered by tag or author; the queries that fill the
  article caches; and what each cached page shows (the cached content, a
  fallback, or a notice).
- `src/pages.rs` — decisions of the page handlers: sanitizing user input
  (HTML escaping, keeping word characters), login failure redirects,
  logging out, and whether a listing shows articles or a notice.
- `src/text.rs` — decimal formatting and parsing shared by the above.
- `app/` — the Rocket side: the responder for `Express`, the request guard
  for `Page`, and the cache loaders that run queries.
