# vocadou_site

The verified core of the static site of the University of Tokyo Vocaloid
Producer Club (東京大学ボカロP同好会), written in Verus.

`src/` holds the library. Its functions are proved against their contracts,
except the small trusted wrappers (marked `#[verifier::external_body]`) that
call base64, seahash, url, urlencoding, maud's escaper, indexmap, hauchiwa's
trackers, fancy-duration, pulldown-cmark, lol_html and a few std methods;
their contracts are believed, and their doc comments say what they claim:

- `sitemap`, `tables`, `ranking`, `listing`: the site map. Members are keyed
  by their ASCII name and ordered by office and name; works, albums and news
  posts are listed newest first; every credited author is checked against
  the member list.
- `cards`, `details`, `layout`, `authors`, `sections`, `social`, `meta`: the
  HTML of the pages, page by page, with the OpenGraph tags of each page.
- `fixup`, `links`: the post-processing of a finished page (lol_html), and
  how each asset reference and link in it is rewritten.
- `reference`, `encoding`, `pages`, `date`, `text`, `html`, `track`: page
  references, encodings, page sources, Markdown and addresses, dates, text helpers,
  escaping, and the order of album tracks.

`app/` runs the build with hauchiwa, fills page templates with minijinja
(the Markdown step that follows is `pages::markdown_html`) and writes the
pages. `tests/` exercises the library on concrete values.
