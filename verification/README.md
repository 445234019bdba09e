# gitnote-api

A notes service: each page is a Markdown file with YAML front matter in a bare
Git repository, and its metadata is indexed in SQLite for listing and full-text
search.

- `src/` is the verified library (Verus): the page file format
  (`markdown`), the index's row layout (`store`), which commits make up a page's
  history (`history`), what the request handlers decide (`service`), the API's
  values (`models`, `error`), and the calls into chrono, serde_json, git2 and
  std that the library trusts (`ext`, and two wrappers in `service`).
- `app/` is the HTTP server: axum routes, SQLite statements, Git repository
  reads and writes, and the JSON bodies with serde's derives.
- `tests/` runs the library on concrete values.
